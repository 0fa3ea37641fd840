//! The smaller set of connections, streams and listeners.
use std::sync::Arc;
use std::task::{Context, Poll, Wake, Waker};

use bytes::Bytes;

use msquic_async::minimal::connection::{
    peer_stream_type, Connection, ConnectionError, Gate, NativeEvent, OpenOutboundStream, OpenStep,
};
use msquic_async::minimal::listener::{ListenError, Listener, ListenerEvent};
use msquic_async::minimal::stream::{
    ConnectionShutdown, ReadError, ReadGate, StartError, Stream, StreamEvent, WriteError,
    WriteGate, STATUS_ABORTED, STATUS_INVALID_STATE, STATUS_STREAM_LIMIT_REACHED,
};
use msquic_async::status::{Status, StatusCode};
use msquic_async::stream::{IoErrorKind, StreamShutdown, StreamStart, StreamType};

struct NoopWake;

impl Wake for NoopWake {
    fn wake(self: Arc<Self>) {}
}

fn task() -> Waker {
    Waker::from(Arc::new(NoopWake))
}

fn success() -> Status {
    Status { raw: 0, ok: true, code: Some(StatusCode::Success) }
}

fn failure(raw: u32) -> Status {
    Status { raw, ok: false, code: None }
}

fn receive(stream: &mut Stream, data: &[&[u8]], fin: bool) -> (StatusCode, Vec<Waker>) {
    stream.handle_event(StreamEvent::Receive {
        buffers: data.iter().map(|piece| piece.to_vec()).collect(),
        fin,
    })
}

fn failed_start(raw: u32, lost: Option<ConnectionShutdown>) -> Result<(), StartError> {
    let mut stream = Stream::open(StreamType::Bidirectional);
    let waker = task();
    let cx = Context::from_waker(&waker);
    assert_eq!(
        stream.poll_start(&cx, true),
        (Poll::Pending, Some(StreamStart { fail_blocked: true }))
    );
    assert_eq!(stream.poll_start(&cx, true), (Poll::Pending, None));
    let (status, woken) = stream.handle_event(StreamEvent::StartComplete {
        status: failure(raw),
        peer_accepted: false,
    });
    assert_eq!((status, woken.len()), (StatusCode::Success, 2), "one entry per poll");
    stream.handle_event(StreamEvent::ShutdownComplete { lost });
    match stream.poll_start(&cx, true) {
        (Poll::Ready(result), None) => result,
        other => panic!("the start is over: {other:?}"),
    }
}

#[test]
fn minimal_starts_fail_for_a_reason() {
    assert_eq!(
        failed_start(STATUS_STREAM_LIMIT_REACHED, None),
        Err(StartError::LimitReached)
    );
    for raw in [STATUS_ABORTED, STATUS_INVALID_STATE] {
        assert_eq!(failed_start(raw, None), Err(StartError::ConnectionClosed));
        for (by_app, closed_remotely, error) in [
            (true, true, ConnectionError::ShutdownByPeer(5)),
            (true, false, ConnectionError::ShutdownByLocal),
            (false, true, ConnectionError::ShutdownByTransport(9, 5)),
            (false, false, ConnectionError::ShutdownByTransport(9, 5)),
        ] {
            let lost =
                ConnectionShutdown { by_app, closed_remotely, error_code: 5, close_status: 9 };
            assert_eq!(failed_start(raw, Some(lost)), Err(StartError::ConnectionLost(error)));
        }
    }
    assert_eq!(failed_start(77, None), Err(StartError::Unknown(77)));
}

#[test]
fn minimal_streams_start() {
    let mut stream = Stream::open(StreamType::Unidirectional);
    let waker = task();
    let cx = Context::from_waker(&waker);
    assert_eq!((stream.read_gate(), stream.write_gate()), (ReadGate::Closed, WriteGate::Closed));
    let _ = stream.poll_start(&cx, false);
    assert_eq!(stream.write_gate(), WriteGate::Starting);
    let (_, woken) = stream
        .handle_event(StreamEvent::StartComplete { status: success(), peer_accepted: false });
    assert!(woken.is_empty());
    let (_, woken) = stream.handle_event(StreamEvent::PeerAccepted);
    assert_eq!(woken.len(), 1);
    assert_eq!((stream.read_gate(), stream.write_gate()), (ReadGate::Closed, WriteGate::Open));
    assert_eq!(stream.poll_start(&cx, false), (Poll::Ready(Ok(())), None));
}

#[test]
fn minimal_reads_return_data_in_order() {
    let mut stream = Stream::from_handle(StreamType::Bidirectional);
    let waker = task();
    let cx = Context::from_waker(&waker);
    let mut buf = [0u8; 8];
    assert!(stream.poll_read(&cx, &mut buf).0.is_pending());
    assert!(stream.poll_read(&cx, &mut buf).0.is_pending());
    let (status, woken) = receive(&mut stream, &[b"hello ", b"wo"], false);
    assert_eq!((status, woken.len()), (StatusCode::Pending, 2));
    receive(&mut stream, &[b"rld"], true);
    let (answer, lengths) = stream.poll_read(&cx, &mut buf);
    assert_eq!((answer, &buf[..]), (Poll::Ready(Ok(8)), &b"hello wo"[..]));
    assert!(lengths.is_empty());
    let (answer, lengths) = stream.poll_read(&cx, &mut buf);
    assert_eq!((answer, &buf[..3]), (Poll::Ready(Ok(3)), &b"rld"[..]));
    assert_eq!(lengths, vec![8, 3]);
    stream.handle_event(StreamEvent::PeerSendShutdown);
    assert_eq!(stream.poll_read(&cx, &mut buf).0, Poll::Ready(Ok(0)));
}

#[test]
fn minimal_received_data_is_dropped_with_the_stream() {
    let mut stream = Stream::from_handle(StreamType::Bidirectional);
    receive(&mut stream, &[b"abc", b"d"], false);
    receive(&mut stream, &[b"ef"], false);
    assert_eq!(stream.close(), Some(StreamShutdown::abort_all()));
    assert!(!stream.is_shut_down());
    stream.handle_event(StreamEvent::ShutdownComplete { lost: None });
    assert!(stream.is_shut_down());
    assert_eq!(stream.close(), None);
    assert_eq!(stream.drop_received(), vec![4, 2]);
    assert!(stream.drop_received().is_empty());
}

#[test]
fn minimal_read_errors_tell_why() {
    let waker = task();
    let cx = Context::from_waker(&waker);
    let mut buf = [0u8; 1];
    let mut stream = Stream::open(StreamType::Bidirectional);
    assert_eq!(stream.poll_read(&cx, &mut buf).0, Poll::Ready(Err(ReadError::Closed)));
    let mut stream = Stream::from_handle(StreamType::Bidirectional);
    stream.handle_event(StreamEvent::PeerSendAborted { error_code: 9 });
    assert_eq!(stream.poll_read(&cx, &mut buf).0, Poll::Ready(Err(ReadError::Reset(9))));
    let lost =
        ConnectionShutdown { by_app: true, closed_remotely: true, error_code: 1, close_status: 0 };
    stream.handle_event(StreamEvent::ShutdownComplete { lost: Some(lost) });
    let error = ConnectionError::ShutdownByPeer(1);
    assert_eq!(
        stream.poll_read(&cx, &mut buf).0,
        Poll::Ready(Err(ReadError::ConnectionLost(error)))
    );
    assert_eq!(
        stream.poll_write(&cx, b"x", false).0,
        Poll::Ready(Err(WriteError::ConnectionLost(error)))
    );
}

#[test]
fn minimal_writes_are_sent_whole() {
    let mut stream = Stream::from_handle(StreamType::Bidirectional);
    let waker = task();
    let cx = Context::from_waker(&waker);
    let (answer, send) = stream.poll_write(&cx, b"hello", false);
    assert_eq!(answer, Poll::Ready(Ok(5)));
    let send = send.unwrap();
    assert_eq!((send.buffer.get_buffers(), send.fin), (vec![&b"hello"[..]], false));
    stream.handle_event(StreamEvent::SendComplete { buffer: send.buffer });

    let (answer, send) = stream.zerocopy_write(&cx, &Bytes::from("zero"), false);
    assert_eq!(answer, Poll::Ready(Ok(4)));
    assert_eq!(send.unwrap().buffer.get_buffers(), vec![&b"zero"[..]]);

    let bufs = [Bytes::from("co"), Bytes::from("py")];
    let (answer, send) = stream.zerocopy_write_vectored(&cx, &bufs, true);
    assert_eq!(answer, Poll::Ready(Ok(4)));
    let send = send.unwrap();
    assert_eq!(send.buffer.get_buffers(), vec![&b"co"[..], &b"py"[..]]);
    assert!(send.fin);
}

#[test]
fn minimal_streams_end_or_are_reset() {
    let waker = task();
    let cx = Context::from_waker(&waker);
    let mut stream = Stream::from_handle(StreamType::Bidirectional);
    assert_eq!(
        stream.poll_finish_write(&cx),
        (Poll::Pending, Some(StreamShutdown::graceful()))
    );
    assert_eq!(stream.poll_finish_write(&cx), (Poll::Pending, None));
    assert_eq!(
        stream.poll_write(&cx, b"x", false).0,
        Poll::Ready(Err(WriteError::Finished))
    );
    let (_, woken) = stream.handle_event(StreamEvent::SendShutdownComplete);
    assert_eq!(woken.len(), 2);
    assert_eq!(stream.poll_finish_write(&cx), (Poll::Ready(Ok(())), None));

    let mut stream = Stream::from_handle(StreamType::Bidirectional);
    assert_eq!(
        stream.poll_abort_write(&cx, 3),
        (Poll::Pending, Some(StreamShutdown::abort_send(3)))
    );
    stream.handle_event(StreamEvent::PeerReceiveAborted { error_code: 4 });
    assert_eq!(
        stream.poll_abort_write(&cx, 3),
        (Poll::Ready(Err(WriteError::Stopped(4))), None)
    );

    let mut buf = [0u8; 1];
    let mut stream = Stream::from_handle(StreamType::Bidirectional);
    assert!(stream.poll_read(&cx, &mut buf).0.is_pending());
    let (answer, shutdown, woken) = stream.poll_abort_read(&cx, 5);
    assert_eq!(answer, Poll::Ready(Ok(())));
    assert_eq!(shutdown, Some(StreamShutdown::abort_receive(5)));
    assert_eq!(woken.len(), 1);

    let mut stream = Stream::open(StreamType::Bidirectional);
    assert_eq!(
        stream.poll_finish_write(&cx),
        (Poll::Ready(Err(WriteError::Closed)), None)
    );
    for event in [StreamEvent::IdealSendBufferSize, StreamEvent::Other] {
        let (status, woken) = stream.handle_event(event);
        assert_eq!((status, woken.len()), (StatusCode::Success, 0));
    }
}

#[test]
fn minimal_errors_have_an_io_kind() {
    let closed = ConnectionError::ConnectionClosed;
    let local = ConnectionError::ShutdownByLocal;
    assert_eq!(ReadError::Closed.io_kind(), IoErrorKind::NotConnected);
    assert_eq!(ReadError::Reset(1).io_kind(), IoErrorKind::ConnectionReset);
    assert_eq!(ReadError::ConnectionLost(closed).io_kind(), IoErrorKind::NotConnected);
    assert_eq!(ReadError::ConnectionLost(local).io_kind(), IoErrorKind::ConnectionAborted);
    assert_eq!(WriteError::Closed.io_kind(), IoErrorKind::NotConnected);
    assert_eq!(WriteError::Finished.io_kind(), IoErrorKind::NotConnected);
    assert_eq!(WriteError::Stopped(1).io_kind(), IoErrorKind::ConnectionReset);
    assert_eq!(WriteError::ConnectionLost(closed).io_kind(), IoErrorKind::NotConnected);
    assert_eq!(WriteError::ConnectionLost(local).io_kind(), IoErrorKind::ConnectionAborted);
}

#[test]
fn minimal_connections_start() {
    let waker = task();
    let cx = Context::from_waker(&waker);
    let mut conn: Connection<u8> = Connection::new();
    assert_eq!(conn.gate(), Gate::NotStarted);
    assert_eq!(conn.poll_start(&cx), (Poll::Pending, true));
    assert_eq!(conn.poll_start(&cx), (Poll::Pending, false));
    assert_eq!(conn.handle_event(NativeEvent::Connected).len(), 2);
    assert_eq!(conn.poll_start(&cx), (Poll::Ready(Ok(())), false));
    conn.handle_event(NativeEvent::ShutdownInitiatedByTransport { status: 1, error_code: 2 });
    assert_eq!(
        conn.poll_start(&cx),
        (Poll::Ready(Err(ConnectionError::ShutdownByTransport(1, 2))), false)
    );

    let mut conn: Connection<u8> = Connection::from_handle();
    assert_eq!(conn.gate(), Gate::Open);
    assert_eq!(conn.poll_shutdown(&cx, 3), (Poll::Pending, Some(3)));
    assert_eq!(conn.gate(), Gate::Gone(None));
    assert_eq!(
        conn.poll_start(&cx),
        (Poll::Ready(Err(ConnectionError::ConnectionClosed)), false)
    );
}

#[test]
fn minimal_streams_are_accepted_in_order() {
    let waker = task();
    let cx = Context::from_waker(&waker);
    let mut conn: Connection<u8> = Connection::new();
    assert_eq!(
        conn.poll_accept_inbound_stream(&cx),
        Poll::Ready(Err(StartError::ConnectionClosed))
    );
    let mut conn: Connection<u8> = Connection::from_handle();
    assert!(conn.poll_accept_inbound_stream(&cx).is_pending());
    assert_eq!(conn.handle_event(NativeEvent::PeerStreamStarted { stream: 1 }).len(), 1);
    assert!(conn.handle_event(NativeEvent::PeerStreamStarted { stream: 2 }).is_empty());
    assert!(conn.handle_event(NativeEvent::StreamsAvailable).is_empty());
    assert!(conn.handle_event(NativeEvent::Other).is_empty());
    assert_eq!(conn.poll_accept_inbound_stream(&cx), Poll::Ready(Ok(1)));
    assert_eq!(conn.poll_accept_inbound_stream(&cx), Poll::Ready(Ok(2)));
    assert!(conn.poll_accept_inbound_stream(&cx).is_pending());
    let woken = conn.handle_event(NativeEvent::ShutdownInitiatedByPeer { error_code: 4 });
    assert_eq!(woken.len(), 1);
    assert_eq!(
        conn.poll_accept_inbound_stream(&cx),
        Poll::Ready(Err(StartError::ConnectionLost(ConnectionError::ShutdownByPeer(4))))
    );
}

#[test]
fn minimal_connections_shut_down() {
    let waker = task();
    let cx = Context::from_waker(&waker);
    let mut conn: Connection<u8> = Connection::new();
    assert_eq!(conn.close(), Some(0));
    assert_eq!(
        conn.poll_shutdown(&cx, 3),
        (Poll::Ready(Err(ConnectionError::ConnectionNotStarted)), None)
    );
    let _ = conn.poll_start(&cx);
    assert_eq!(conn.poll_shutdown(&cx, 3), (Poll::Pending, None));
    conn.handle_event(NativeEvent::Connected);
    assert_eq!(conn.poll_shutdown(&cx, 3), (Poll::Pending, Some(3)));
    assert_eq!(conn.poll_shutdown(&cx, 3), (Poll::Pending, None));
    assert_eq!(conn.close(), None);
    assert_eq!(conn.handle_event(NativeEvent::ShutdownComplete).len(), 2);
    assert_eq!(conn.poll_shutdown(&cx, 3), (Poll::Ready(Ok(())), None));

    let mut conn: Connection<u8> = Connection::from_handle();
    conn.handle_event(NativeEvent::ShutdownInitiatedByPeer { error_code: 4 });
    conn.handle_event(NativeEvent::ShutdownComplete);
    assert_eq!(
        conn.poll_shutdown(&cx, 3),
        (Poll::Ready(Err(ConnectionError::ShutdownByPeer(4))), None)
    );
}

#[test]
fn minimal_streams_are_opened_then_started() {
    let waker = task();
    let cx = Context::from_waker(&waker);
    let mut conn: Connection<u8> = Connection::new();
    let mut open = OpenOutboundStream::new(StreamType::Bidirectional, false);
    assert_eq!(
        open.poll_step(&mut conn, &cx),
        OpenStep::Fail(StartError::ConnectionClosed)
    );
    let _ = conn.poll_start(&cx);
    assert_eq!(open.poll_step(&mut conn, &cx), OpenStep::Wait);
    conn.handle_event(NativeEvent::Connected);
    assert_eq!(open.poll_step(&mut conn, &cx), OpenStep::Open(StreamType::Bidirectional));
    open.opened(6);
    assert!(open.is_live());
    assert_eq!(open.poll_step(&mut conn, &cx), OpenStep::Start);
    assert_eq!(open.started(Poll::Pending), Poll::Pending);
    assert_eq!(open.started(Poll::Ready(Ok(()))), Poll::Ready(Ok(6)));
    assert!(!open.is_live());
    conn.handle_event(NativeEvent::ShutdownInitiatedByPeer { error_code: 4 });
    assert_eq!(
        open.poll_step(&mut conn, &cx),
        OpenStep::Fail(StartError::ConnectionLost(ConnectionError::ShutdownByPeer(4)))
    );
    assert_eq!(peer_stream_type(true), StreamType::Unidirectional);
    assert_eq!(peer_stream_type(false), StreamType::Bidirectional);
}

#[test]
fn minimal_listeners_accept_and_stop() {
    let waker = task();
    let cx = Context::from_waker(&waker);
    let mut listener: Listener<u8> = Listener::new();
    assert_eq!(listener.poll_accept(&cx), Poll::Ready(Err(ListenError::NotStarted)));
    assert_eq!(listener.poll_stop(&cx), (Poll::Ready(Err(ListenError::NotStarted)), false));
    assert_eq!(listener.start(), Ok(()));
    assert_eq!(listener.start(), Err(ListenError::AlreadyStarted));
    assert!(listener.poll_accept(&cx).is_pending());
    assert!(listener.poll_accept(&cx).is_pending());
    assert_eq!(
        listener.handle_event(ListenerEvent::NewConnection { connection: 1 }).len(),
        2
    );
    assert!(listener.handle_event(ListenerEvent::NewConnection { connection: 2 }).is_empty());
    assert!(listener.handle_event(ListenerEvent::Other).is_empty());
    assert_eq!(listener.poll_accept(&cx), Poll::Ready(Ok(1)));
    assert_eq!(listener.poll_stop(&cx), (Poll::Pending, true));
    assert_eq!(listener.poll_stop(&cx), (Poll::Pending, false));
    assert_eq!(listener.handle_event(ListenerEvent::StopComplete).len(), 2);
    assert_eq!(listener.poll_stop(&cx), (Poll::Ready(Ok(())), false));
    assert_eq!(listener.poll_accept(&cx), Poll::Ready(Ok(2)));
    assert_eq!(listener.poll_accept(&cx), Poll::Ready(Err(ListenError::Finished)));
    assert_eq!(listener.start(), Ok(()));
}
