//! Streams.
use std::sync::Arc;
use std::task::{Context, Poll, Wake, Waker};

use bytes::Bytes;

use msquic_async::buffer::StreamRecvBuffer;
use msquic_async::connection::ConnectionError;
use msquic_async::status::{Status, StatusCode};
use msquic_async::stream::{
    ConnectionShutdown, IoErrorKind, ReadError, ReadGate, ReadStatus, StartError, Stream,
    StreamEvent, StreamReply, StreamSend, StreamShutdown, StreamStart, StreamType, WriteError,
    WriteGate, WriteStatus,
};

struct NoopWake;

impl Wake for NoopWake {
    fn wake(self: Arc<Self>) {}
}

fn task() -> Waker {
    Waker::from(Arc::new(NoopWake))
}

fn success() -> Status {
    Status { raw: 0, ok: true, code: Some(StatusCode::Success) }
}

fn failure(raw: u32, code: StatusCode) -> Status {
    Status { raw, ok: false, code: Some(code) }
}

fn receive(stream: &mut Stream, absolute_offset: u64, data: &[&[u8]], fin: bool) -> StreamReply {
    stream.handle_event(StreamEvent::Receive {
        absolute_offset,
        buffers: data.iter().map(|piece| piece.to_vec()).collect(),
        fin,
    })
}

fn started(stream_type: StreamType) -> Stream {
    let mut stream = Stream::open(stream_type);
    let waker = task();
    let cx = Context::from_waker(&waker);
    assert_eq!(
        stream.poll_start(&cx, false),
        (Poll::Pending, Some(StreamStart { fail_blocked: false }))
    );
    stream.handle_event(StreamEvent::StartComplete {
        status: success(),
        id: 4,
        peer_accepted: true,
    });
    assert_eq!(stream.poll_start(&cx, false), (Poll::Ready(Ok(())), None));
    stream
}

fn bytes_of(send: &StreamSend) -> Vec<u8> {
    send.buffer.get_buffers().concat()
}

#[test]
fn starting_asks_msquic_once_and_waits() {
    let mut stream = Stream::open(StreamType::Bidirectional);
    let (task_a, task_b) = (task(), task());
    assert_eq!(stream.read_gate(), ReadGate::Closed);
    assert_eq!(stream.write_gate(), WriteGate::Closed);
    let (answer, start) = stream.poll_start(&Context::from_waker(&task_a), true);
    assert_eq!(answer, Poll::Pending);
    assert_eq!(start, Some(StreamStart { fail_blocked: true }));
    assert_eq!(stream.read_gate(), ReadGate::Starting);
    assert_eq!(stream.write_gate(), WriteGate::Starting);
    for _ in 0..3 {
        let (answer, start) = stream.poll_start(&Context::from_waker(&task_b), true);
        assert_eq!(answer, Poll::Pending);
        assert_eq!(start, None);
    }
    let reply = stream.handle_event(StreamEvent::StartComplete {
        status: success(),
        id: 8,
        peer_accepted: false,
    });
    assert!(reply.woken.is_empty(), "the peer has to accept the stream first");
    assert_eq!(stream.known_id(), Some(8));
    let reply = stream.handle_event(StreamEvent::PeerAccepted);
    assert_eq!(reply.woken.len(), 2, "one entry per task");
    assert!(reply.woken[0].will_wake(&task_a));
    assert!(reply.woken[1].will_wake(&task_b));
    assert_eq!(reply.status, StatusCode::Success);
    assert_eq!(stream.read_gate(), ReadGate::Open);
    assert_eq!(stream.write_gate(), WriteGate::Open);
}

#[test]
fn a_unidirectional_stream_is_not_opened_for_reading() {
    let stream = started(StreamType::Unidirectional);
    assert_eq!(stream.read_gate(), ReadGate::Closed);
    assert_eq!(stream.write_gate(), WriteGate::Open);
}

fn failed_start(status: Status, lost: Option<ConnectionShutdown>) -> Result<(), StartError> {
    let mut stream = Stream::open(StreamType::Bidirectional);
    let waker = task();
    let cx = Context::from_waker(&waker);
    let _ = stream.poll_start(&cx, false);
    stream.handle_event(StreamEvent::StartComplete { status, id: 0, peer_accepted: false });
    assert!(stream.start_error_known());
    assert_eq!(stream.poll_start(&cx, false), (Poll::Pending, None));
    assert_eq!(stream.known_id(), None);
    stream.handle_event(StreamEvent::ShutdownComplete { lost });
    assert!(stream.start_error_known());
    match stream.poll_start(&cx, false) {
        (Poll::Ready(result), None) => result,
        other => panic!("the start is over: {other:?}"),
    }
}

#[test]
fn failed_starts_tell_why() {
    assert_eq!(
        failed_start(failure(86, StatusCode::StreamLimitReached), None),
        Err(StartError::LimitReached)
    );
    let lost = ConnectionShutdown {
        by_app: true,
        closed_remotely: true,
        error_code: 7,
        close_status: success(),
    };
    for code in [StatusCode::Aborted, StatusCode::InvalidState] {
        assert_eq!(
            failed_start(failure(1, code), Some(lost)),
            Err(StartError::ConnectionLost(ConnectionError::ShutdownByPeer(7)))
        );
    }
    assert_eq!(failed_start(failure(99, StatusCode::Other), None), Err(StartError::Unknown(99)));
    let unknown = Status { raw: 123, ok: false, code: None };
    assert_eq!(failed_start(unknown, None), Err(StartError::Unknown(123)));
}

#[test]
fn a_lost_start_needs_a_connection_error() {
    let mut stream = Stream::open(StreamType::Bidirectional);
    let waker = task();
    let _ = stream.poll_start(&Context::from_waker(&waker), false);
    stream.handle_event(StreamEvent::StartComplete {
        status: failure(125, StatusCode::Aborted),
        id: 0,
        peer_accepted: false,
    });
    stream.handle_event(StreamEvent::ShutdownComplete { lost: None });
    assert!(!stream.start_error_known());
}

#[test]
fn a_limit_wakes_those_who_wait_for_the_start() {
    let mut stream = Stream::open(StreamType::Bidirectional);
    let waker = task();
    let _ = stream.poll_start(&Context::from_waker(&waker), true);
    let reply = stream.handle_event(StreamEvent::StartComplete {
        status: failure(86, StatusCode::StreamLimitReached),
        id: 0,
        peer_accepted: false,
    });
    assert_eq!(reply.woken.len(), 1);
}

#[test]
fn reads_return_received_data_in_order() {
    let mut stream = Stream::from_handle(StreamType::Bidirectional);
    let waker = task();
    let cx = Context::from_waker(&waker);
    let reply = receive(&mut stream, 0, &[b"hello ", b"wo"], false);
    assert_eq!(reply.status, StatusCode::Pending);
    receive(&mut stream, 8, &[b"rld"], true);

    let mut buf = [0u8; 4];
    let (answer, done) = stream.poll_read(&cx, &mut buf);
    assert_eq!((answer, &buf[..]), (Poll::Ready(Ok(4)), &b"hell"[..]));
    assert!(done.is_empty());

    // Filling up exactly at the end of a buffer leaves that buffer in place.
    let (answer, done) = stream.poll_read(&cx, &mut buf);
    assert_eq!((answer, &buf[..]), (Poll::Ready(Ok(4)), &b"o wo"[..]));
    assert!(done.is_empty());

    let mut rest = [b'-'; 6];
    let (answer, done) = stream.poll_read(&cx, &mut rest);
    assert_eq!((answer, &rest[..]), (Poll::Ready(Ok(3)), &b"rld---"[..]));
    assert_eq!(done.len(), 2);
    assert_eq!((done[0].range(), done[1].range()), (0..8, 8..11));
    assert_eq!((done[0].remaining(), done[1].remaining()), (0, 0));
    assert!(!done[0].fin() && done[1].fin());

    let (answer, _) = stream.poll_read(&cx, &mut rest);
    assert_eq!(answer, Poll::Ready(Ok(0)), "the end follows the data");
    let reply = stream.handle_event(StreamEvent::PeerSendShutdown);
    assert!(reply.woken.is_empty(), "nobody waits any more");
    let (answer, _) = stream.poll_read(&cx, &mut rest);
    assert_eq!(answer, Poll::Ready(Ok(0)));
}

#[test]
fn a_reader_waits_for_an_end_that_comes_alone() {
    let mut stream = Stream::from_handle(StreamType::Bidirectional);
    let waker = task();
    let cx = Context::from_waker(&waker);
    receive(&mut stream, 0, &[b"x"], false);
    let mut buf = [0u8; 4];
    assert_eq!(stream.poll_read(&cx, &mut buf).0, Poll::Ready(Ok(1)));
    assert_eq!(stream.poll_read(&cx, &mut buf).0, Poll::Pending);
    let reply = stream.handle_event(StreamEvent::PeerSendShutdown);
    assert_eq!(reply.woken.len(), 1);
    assert_eq!(stream.poll_read(&cx, &mut buf).0, Poll::Ready(Ok(0)));
}

#[test]
fn an_empty_last_segment_ends_a_read() {
    let mut stream = Stream::from_handle(StreamType::Unidirectional);
    let waker = task();
    let cx = Context::from_waker(&waker);
    receive(&mut stream, 11, &[], true);
    let mut buf = [0u8; 4];
    let (answer, done) = stream.poll_read(&cx, &mut buf);
    assert_eq!(answer, Poll::Ready(Ok(0)));
    assert_eq!(done.len(), 1);
    let (answer, _) = stream.poll_read(&cx, &mut []);
    assert_eq!(answer, Poll::Ready(Ok(0)), "there is no room to read anything");
}

#[test]
fn a_reader_waits_once_per_task() {
    let mut stream = Stream::from_handle(StreamType::Bidirectional);
    let waker = task();
    let cx = Context::from_waker(&waker);
    let mut buf = [0u8; 1];
    for _ in 0..4 {
        assert_eq!(stream.poll_read(&cx, &mut buf).0, Poll::Pending);
    }
    let reply = receive(&mut stream, 0, &[b"x"], false);
    assert_eq!(reply.woken.len(), 1);
    assert!(reply.woken[0].will_wake(&waker));
}

#[test]
fn chunks_are_handed_out_whole() {
    let mut stream = Stream::from_handle(StreamType::Bidirectional);
    let waker = task();
    let cx = Context::from_waker(&waker);
    receive(&mut stream, 0, &[b"hello ", b"world"], false);
    receive(&mut stream, 11, &[], true);
    match stream.poll_read_chunk(&cx) {
        Poll::Ready(Ok(Some(chunk))) => {
            assert_eq!(chunk.remaining(), 11);
            assert_eq!(chunk.chunk(), b"hello ");
            assert!(!chunk.fin());
        }
        _ => panic!("there is a chunk"),
    }
    match stream.poll_read_chunk(&cx) {
        Poll::Ready(Ok(Some(chunk))) => assert!(chunk.is_empty() && chunk.fin()),
        _ => panic!("there is a chunk"),
    }
    assert!(matches!(stream.poll_read_chunk(&cx), Poll::Ready(Ok(None))));
    stream.handle_event(StreamEvent::PeerSendShutdown);
    assert!(matches!(stream.poll_read_chunk(&cx), Poll::Ready(Ok(None))));
}

#[test]
fn the_end_follows_a_last_chunk_that_is_held() {
    let mut stream = Stream::from_handle(StreamType::Unidirectional);
    let waker = task();
    let cx = Context::from_waker(&waker);
    receive(&mut stream, 0, &[b"hello world"], false);
    receive(&mut stream, 11, &[b"hello world"], true);
    let mut held = Vec::new();
    for offset in [0, 11] {
        match stream.poll_read_chunk(&cx) {
            Poll::Ready(Ok(Some(chunk))) => {
                assert_eq!(chunk.range(), offset..offset + 11);
                assert_eq!(chunk.chunk(), b"hello world");
                held.push(chunk);
            }
            _ => panic!("there is a chunk"),
        }
    }
    for _ in 0..2 {
        assert!(matches!(stream.poll_read_chunk(&cx), Poll::Ready(Ok(None))));
    }
    let mut buf = [0u8; 4];
    assert_eq!(stream.poll_read(&cx, &mut buf).0, Poll::Ready(Ok(0)));
    assert_eq!(stream.read_complete(&held[1]), 0);
    assert_eq!(stream.read_complete(&held[0]), 22);
}

#[test]
fn reading_can_be_aborted_after_the_end() {
    let waker = task();
    let cx = Context::from_waker(&waker);
    let ended = || {
        let mut stream = Stream::from_handle(StreamType::Unidirectional);
        receive(&mut stream, 0, &[b"x"], true);
        assert!(matches!(stream.poll_read_chunk(&cx), Poll::Ready(Ok(Some(_)))));
        assert_eq!(stream.read_gate(), ReadGate::End);
        stream
    };
    let mut stream = ended();
    assert_eq!(stream.abort_read(4), (Ok(()), Some(StreamShutdown::abort_receive(4))));
    assert_eq!(stream.abort_read(4), (Err(ReadError::Closed), None));
    assert!(matches!(stream.poll_read_chunk(&cx), Poll::Ready(Ok(None))));

    let mut stream = ended();
    let (answer, shutdown, woken) = stream.poll_abort_read(&cx, 5);
    assert_eq!(answer, Poll::Ready(Ok(())));
    assert_eq!(shutdown, Some(StreamShutdown::abort_receive(5)));
    assert!(woken.is_empty());
    let (answer, shutdown, _) = stream.poll_abort_read(&cx, 5);
    assert_eq!((answer, shutdown), (Poll::Ready(Ok(())), None));

    let mut stream = ended();
    stream.handle_event(StreamEvent::PeerSendShutdown);
    assert_eq!(stream.abort_read(4), (Err(ReadError::Closed), None));

    let mut stream = Stream::from_handle(StreamType::Unidirectional);
    receive(&mut stream, 0, &[b"x"], true);
    let mut buf = [0; 4];
    assert_eq!(stream.poll_read(&cx, &mut buf).0, Poll::Ready(Ok(1)));
    assert_eq!(stream.poll_read(&cx, &mut buf).0, Poll::Ready(Ok(0)));
    assert_eq!(stream.abort_read(6), (Ok(()), Some(StreamShutdown::abort_receive(6))));
}

#[test]
fn a_lost_connection_is_told_in_place_of_the_end() {
    let mut stream = Stream::from_handle(StreamType::Unidirectional);
    let waker = task();
    let cx = Context::from_waker(&waker);
    receive(&mut stream, 0, &[b"x"], true);
    assert!(matches!(stream.poll_read_chunk(&cx), Poll::Ready(Ok(Some(_)))));
    stream.handle_event(StreamEvent::ShutdownComplete {
        lost: Some(ConnectionShutdown {
            by_app: true,
            closed_remotely: false,
            error_code: 3,
            close_status: success(),
        }),
    });
    assert!(matches!(
        stream.poll_read_chunk(&cx),
        Poll::Ready(Err(ReadError::ConnectionLost(ConnectionError::ShutdownByLocal)))
    ));
}

#[test]
fn the_end_follows_the_read_that_takes_it() {
    let mut stream = Stream::from_handle(StreamType::Unidirectional);
    let waker = task();
    let cx = Context::from_waker(&waker);
    receive(&mut stream, 0, &[b"hello world"], true);
    let mut buf = [0u8; 1024];
    let (answer, done) = stream.poll_read(&cx, &mut buf);
    assert_eq!(answer, Poll::Ready(Ok(11)));
    assert_eq!(&buf[..11], b"hello world");
    assert_eq!(done.len(), 1);
    assert_eq!(stream.poll_read(&cx, &mut buf).0, Poll::Ready(Ok(0)));
    assert!(matches!(stream.poll_read_chunk(&cx), Poll::Ready(Ok(None))));

    // A read that just fits has not seen the end yet.
    let mut stream = Stream::from_handle(StreamType::Unidirectional);
    receive(&mut stream, 0, &[b"hello world"], true);
    let mut exact = [0u8; 11];
    let (answer, done) = stream.poll_read(&cx, &mut exact);
    assert_eq!(answer, Poll::Ready(Ok(11)));
    assert!(done.is_empty());
    let (answer, done) = stream.poll_read(&cx, &mut exact);
    assert_eq!(answer, Poll::Ready(Ok(0)));
    assert_eq!(done.len(), 1);
    assert_eq!(stream.poll_read(&cx, &mut exact).0, Poll::Ready(Ok(0)));
}

#[test]
fn read_errors_tell_why() {
    let waker = task();
    let cx = Context::from_waker(&waker);
    let mut buf = [0u8; 1];

    let mut stream = started(StreamType::Unidirectional);
    assert_eq!(stream.poll_read(&cx, &mut buf).0, Poll::Ready(Err(ReadError::Closed)));

    let mut stream = Stream::from_handle(StreamType::Bidirectional);
    stream.handle_event(StreamEvent::PeerSendAborted { error_code: 9 });
    assert_eq!(stream.poll_read(&cx, &mut buf).0, Poll::Ready(Err(ReadError::Reset(9))));
    assert!(matches!(stream.poll_read_chunk(&cx), Poll::Ready(Err(ReadError::Reset(9)))));

    stream.handle_event(StreamEvent::ShutdownComplete {
        lost: Some(ConnectionShutdown {
            by_app: false,
            closed_remotely: true,
            error_code: 3,
            close_status: failure(110, StatusCode::ConnectionTimeout),
        }),
    });
    let error = ConnectionError::ShutdownByTransport(
        failure(110, StatusCode::ConnectionTimeout),
        3,
    );
    assert_eq!(
        stream.poll_read(&cx, &mut buf).0,
        Poll::Ready(Err(ReadError::ConnectionLost(error)))
    );
    assert_eq!(
        stream.poll_write(&cx, b"x", false).0,
        Poll::Ready(Err(WriteError::ConnectionLost(error)))
    );

    let mut stream = Stream::from_handle(StreamType::Bidirectional);
    stream.handle_event(StreamEvent::ShutdownComplete {
        lost: Some(ConnectionShutdown {
            by_app: true,
            closed_remotely: false,
            error_code: 3,
            close_status: success(),
        }),
    });
    assert_eq!(
        stream.poll_read(&cx, &mut buf).0,
        Poll::Ready(Err(ReadError::ConnectionLost(ConnectionError::ShutdownByLocal)))
    );
}

#[test]
fn writes_are_sent_whole() {
    let mut stream = started(StreamType::Bidirectional);
    let waker = task();
    let cx = Context::from_waker(&waker);
    let (answer, send) = stream.poll_write(&cx, b"hello world", false);
    assert_eq!(answer, Poll::Ready(Ok(11)));
    let send = send.unwrap();
    assert_eq!((bytes_of(&send), send.fin), (b"hello world".to_vec(), false));

    let (answer, send) = stream.poll_write_chunk(&cx, &Bytes::from("chunk"), false);
    assert_eq!(answer, Poll::Ready(Ok(5)));
    assert_eq!(send.unwrap().buffer.get_buffers(), vec![&b"chunk"[..]]);

    let chunks = [Bytes::from("a"), Bytes::from("bc"), Bytes::new()];
    let (answer, send) = stream.poll_write_chunks(&cx, &chunks, true);
    assert_eq!(answer, Poll::Ready(Ok(3)));
    let send = send.unwrap();
    assert_eq!(send.buffer.get_buffers(), vec![&b"a"[..], &b"bc"[..], &b""[..]]);
    assert!(send.fin);
}

#[test]
fn no_write_follows_the_end() {
    let waker = task();
    let cx = Context::from_waker(&waker);
    let chunk = Bytes::from("hello world");

    let mut stream = started(StreamType::Unidirectional);
    assert_eq!(stream.poll_write(&cx, b"hello world", false).0, Poll::Ready(Ok(11)));
    assert_eq!(stream.poll_write(&cx, b"hello world", true).0, Poll::Ready(Ok(11)));
    let (answer, send) = stream.poll_write(&cx, b"hello world", true);
    assert_eq!(answer, Poll::Ready(Err(WriteError::Finished)));
    assert!(send.is_none());

    let mut stream = started(StreamType::Unidirectional);
    assert_eq!(stream.poll_write_chunk(&cx, &chunk, true).0, Poll::Ready(Ok(11)));
    assert_eq!(
        stream.poll_write_chunk(&cx, &chunk, true).0,
        Poll::Ready(Err(WriteError::Finished))
    );

    let mut stream = started(StreamType::Unidirectional);
    assert_eq!(
        stream.poll_write_chunks(&cx, &[chunk.clone()], true).0,
        Poll::Ready(Ok(11))
    );
    assert_eq!(
        stream.poll_write_chunks(&cx, &[chunk], true).0,
        Poll::Ready(Err(WriteError::Finished))
    );
    let (answer, shutdown) = stream.poll_abort_write(&cx, 5);
    assert_eq!(answer, Poll::Pending);
    assert_eq!(shutdown, Some(StreamShutdown::abort_send(5)), "it can still be reset");
}

#[test]
fn a_buffer_that_comes_back_is_used_again() {
    let mut stream = started(StreamType::Bidirectional);
    let waker = task();
    let cx = Context::from_waker(&waker);
    let (_, send) = stream.poll_write_chunk(&cx, &Bytes::from("first"), false);
    let reply = stream.handle_event(StreamEvent::SendComplete { buffer: send.unwrap().buffer });
    assert_eq!(reply.status, StatusCode::Success);
    assert!(reply.woken.is_empty());
    let (_, send) = stream.poll_write(&cx, b"second", false);
    assert_eq!(send.unwrap().buffer.get_buffers(), vec![&b"second"[..]]);
}

#[test]
fn finishing_is_asked_for_once() {
    let mut stream = started(StreamType::Bidirectional);
    let waker = task();
    let cx = Context::from_waker(&waker);
    let (answer, shutdown) = stream.poll_finish_write(&cx);
    assert_eq!((answer, shutdown), (Poll::Pending, Some(StreamShutdown::graceful())));
    let (answer, shutdown) = stream.poll_finish_write(&cx);
    assert_eq!((answer, shutdown), (Poll::Pending, None));
    assert_eq!(
        stream.poll_write(&cx, b"hello world", true).0,
        Poll::Ready(Err(WriteError::Finished))
    );
    assert_eq!(stream.abort_write(0), (Err(WriteError::Closed), None));
    let reply = stream.handle_event(StreamEvent::SendShutdownComplete);
    assert_eq!(reply.woken.len(), 1);
    assert_eq!(stream.poll_finish_write(&cx), (Poll::Ready(Ok(())), None));
    assert_eq!(
        stream.poll_write(&cx, b"hello world", true).0,
        Poll::Ready(Err(WriteError::Finished))
    );
}

#[test]
fn aborting_a_write_resets_the_stream() {
    let mut stream = started(StreamType::Bidirectional);
    let waker = task();
    let cx = Context::from_waker(&waker);
    let (answer, shutdown) = stream.poll_abort_write(&cx, 42);
    assert_eq!((answer, shutdown), (Poll::Pending, Some(StreamShutdown::abort_send(42))));
    assert_eq!(
        stream.poll_write(&cx, b"hello world", false).0,
        Poll::Ready(Err(WriteError::Finished))
    );
    stream.handle_event(StreamEvent::SendShutdownComplete);
    assert_eq!(stream.poll_abort_write(&cx, 42), (Poll::Ready(Ok(())), None));

    let mut stream = started(StreamType::Bidirectional);
    assert_eq!(
        stream.abort_write(1),
        (Ok(()), Some(StreamShutdown::abort_send(1)))
    );
    let mut stream = Stream::open(StreamType::Bidirectional);
    assert_eq!(
        stream.poll_finish_write(&cx),
        (Poll::Ready(Err(WriteError::Closed)), None)
    );
}

#[test]
fn a_peer_that_stops_is_told_to_writers() {
    let mut stream = started(StreamType::Bidirectional);
    let waker = task();
    let cx = Context::from_waker(&waker);
    let _ = stream.poll_finish_write(&cx);
    let reply = stream.handle_event(StreamEvent::PeerReceiveAborted { error_code: 0 });
    assert_eq!(reply.woken.len(), 1);
    assert_eq!(
        stream.poll_write(&cx, b"x", true).0,
        Poll::Ready(Err(WriteError::Stopped(0)))
    );
    assert_eq!(
        stream.poll_finish_write(&cx).0,
        Poll::Ready(Err(WriteError::Stopped(0)))
    );
}

#[test]
fn aborting_a_read_ends_reading() {
    let mut stream = Stream::from_handle(StreamType::Bidirectional);
    let waker = task();
    let cx = Context::from_waker(&waker);
    let mut buf = [0u8; 1];
    assert!(stream.poll_read(&cx, &mut buf).0.is_pending());
    let (answer, shutdown, woken) = stream.poll_abort_read(&cx, 6);
    assert_eq!(answer, Poll::Ready(Ok(())));
    assert_eq!(shutdown, Some(StreamShutdown::abort_receive(6)));
    assert_eq!(woken.len(), 1);
    assert_eq!(stream.poll_read(&cx, &mut buf).0, Poll::Ready(Ok(0)));
    let (answer, shutdown, woken) = stream.poll_abort_read(&cx, 6);
    assert_eq!((answer, shutdown, woken.len()), (Poll::Ready(Ok(())), None, 0));

    let mut stream = Stream::from_handle(StreamType::Bidirectional);
    assert_eq!(
        stream.abort_read(2),
        (Ok(()), Some(StreamShutdown::abort_receive(2)))
    );
    assert_eq!(stream.abort_read(2), (Err(ReadError::Closed), None));
}

fn segment(offset: usize, length: usize) -> StreamRecvBuffer {
    StreamRecvBuffer::new(offset, vec![vec![0u8; length]], false)
}

#[test]
fn msquic_is_told_of_what_is_done_from_the_start_on() {
    let mut stream = Stream::from_handle(StreamType::Bidirectional);
    assert_eq!(stream.read_complete(&segment(4, 4)), 0, "there is a gap before it");
    assert_eq!(stream.read_complete(&segment(12, 2)), 0);
    assert_eq!(stream.read_complete(&segment(0, 4)), 8, "the gap is closed");
    assert_eq!(stream.read_complete(&segment(0, 4)), 0, "nothing is told twice");
    assert_eq!(stream.read_complete(&segment(8, 0)), 0);
    assert_eq!(stream.read_complete(&segment(8, 3)), 3);
    assert_eq!(stream.read_complete(&segment(11, 1)), 3);
    assert_eq!(stream.read_complete(&segment(14, 1)), 1);
}

#[test]
fn the_number_is_asked_for_until_it_is_known() {
    let mut stream = Stream::from_handle(StreamType::Bidirectional);
    assert_eq!(stream.known_id(), None);
    assert_eq!(stream.id(None), None);
    assert_eq!(stream.id(Some(12)), Some(12));
    assert_eq!(stream.id(Some(13)), Some(12));
    assert_eq!(stream.known_id(), Some(12));
}

#[test]
fn splitting_gives_the_halves_of_this_side() {
    let (read, write) = Stream::open(StreamType::Unidirectional).split("h");
    assert!(read.is_none());
    assert_eq!(write.unwrap().0, "h");
    let (read, write) = Stream::from_handle(StreamType::Unidirectional).split("h");
    assert_eq!(read.unwrap().0, "h");
    assert!(write.is_none());
    let (read, write) = Stream::from_handle(StreamType::Bidirectional).split("h");
    assert_eq!((read.unwrap().0, write.unwrap().0), ("h", "h"));
}

#[test]
fn dropping_gives_a_running_stream_up() {
    assert_eq!(Stream::open(StreamType::Bidirectional).close(), None);
    assert_eq!(
        started(StreamType::Bidirectional).close(),
        Some(StreamShutdown::abort_all())
    );
    let mut stream = started(StreamType::Bidirectional);
    receive(&mut stream, 0, &[b"x"], false);
    stream.handle_event(StreamEvent::ShutdownComplete { lost: None });
    assert_eq!(stream.close(), None);
}

#[test]
fn other_events_change_nothing() {
    let mut stream = started(StreamType::Bidirectional);
    for event in [StreamEvent::IdealSendBufferSize, StreamEvent::Other] {
        let reply = stream.handle_event(event);
        assert_eq!(reply.status, StatusCode::Success);
        assert!(reply.woken.is_empty());
    }
    assert_eq!(stream.write_gate(), WriteGate::Open);
}

#[test]
fn errors_have_an_io_kind() {
    let closed = ConnectionError::ConnectionClosed;
    let local = ConnectionError::ShutdownByLocal;
    assert_eq!(ReadError::Closed.io_kind(), IoErrorKind::NotConnected);
    assert_eq!(ReadError::Reset(1).io_kind(), IoErrorKind::ConnectionReset);
    assert_eq!(ReadError::ConnectionLost(closed).io_kind(), IoErrorKind::NotConnected);
    assert_eq!(ReadError::ConnectionLost(local).io_kind(), IoErrorKind::ConnectionAborted);
    assert_eq!(WriteError::Closed.io_kind(), IoErrorKind::NotConnected);
    assert_eq!(WriteError::Finished.io_kind(), IoErrorKind::NotConnected);
    assert_eq!(WriteError::Stopped(1).io_kind(), IoErrorKind::ConnectionReset);
    assert_eq!(WriteError::ConnectionLost(closed).io_kind(), IoErrorKind::NotConnected);
    assert_eq!(WriteError::ConnectionLost(local).io_kind(), IoErrorKind::ConnectionAborted);
}

#[test]
fn statuses_follow_the_end_of_the_stream() {
    assert!(matches!(ReadStatus::from_parts(Some(1), true), ReadStatus::Finished(Some(1))));
    assert!(matches!(ReadStatus::from_parts(Some(1), false), ReadStatus::Blocked(Some(1))));
    assert!(matches!(WriteStatus::from_parts(None::<u8>, true), WriteStatus::Finished(None)));
    assert!(matches!(WriteStatus::from_parts(Some(1), false), WriteStatus::Blocked(Some(1))));
}
