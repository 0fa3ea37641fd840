//! What HTTP/3 needs of connections and streams.
use std::sync::Arc;
use std::task::{Context, Poll, Wake, Waker};

use bytes::Bytes;

use msquic_async::buffer::Chunks;
use msquic_async::connection::{
    Connection, ConnectionError, DgramReceiveError, DgramSendError, NativeEvent,
};
use msquic_async::http3::{
    bidi_halves, convert_connection_error, convert_dgram_recv_error, convert_dgram_send_error,
    convert_read_error_to_stream_error, convert_start_error, convert_write_error_to_stream_error,
    is_convertible, opened_bidi, opened_send, poll_accept_bidi, poll_accept_recv,
    poll_incoming_datagram, send_half, stream_id, Cause, ConnectionErrorIncoming, RecvStream,
    SendDatagramErrorIncoming, SendDatagramHandler, SendStream, StreamErrorIncoming,
    MAX_STREAM_NUMBER,
};
use msquic_async::keylog::{TlsSecrets, TlsSecretsSet};
use msquic_async::status::{Status, StatusCode};
use msquic_async::stream::{
    ReadError, StartError, Stream, StreamEvent, StreamShutdown, StreamType, WriteError,
};

type Conn = Connection<&'static str, u8, u8>;

struct NoopWake;

impl Wake for NoopWake {
    fn wake(self: Arc<Self>) {}
}

fn task() -> Waker {
    Waker::from(Arc::new(NoopWake))
}

fn success() -> Status {
    Status { raw: 0, ok: true, code: Some(StatusCode::Success) }
}

fn failure(code: StatusCode) -> Status {
    Status { raw: 1, ok: false, code: Some(code) }
}

fn connected() -> Conn {
    let mut conn = Conn::from_raw(None, None);
    let secrets = TlsSecrets {
        is_set: TlsSecretsSet {
            client_random: false,
            client_early_traffic_secret: false,
            client_handshake_traffic_secret: false,
            server_handshake_traffic_secret: false,
            client_traffic_secret_0: false,
            server_traffic_secret_0: false,
        },
        secret_length: 0,
        client_random: [0; 32],
        client_early_traffic_secret: [0; 64],
        client_handshake_traffic_secret: [0; 64],
        server_handshake_traffic_secret: [0; 64],
        client_traffic_secret_0: [0; 64],
        server_traffic_secret_0: [0; 64],
    };
    conn.dispatch_event(NativeEvent::Connected { secrets: &secrets });
    conn
}

#[test]
fn connection_errors_are_told_to_http3() {
    assert!(matches!(
        convert_connection_error(ConnectionError::ShutdownByPeer(0x100)),
        ConnectionErrorIncoming::ApplicationClose { error_code: 0x100 }
    ));
    for code in [StatusCode::ConnectionTimeout, StatusCode::ConnectionIdle] {
        let error = ConnectionError::ShutdownByTransport(failure(code), 0);
        assert!(matches!(convert_connection_error(error), ConnectionErrorIncoming::Timeout));
    }
    for error in [
        ConnectionError::ShutdownByTransport(failure(StatusCode::Aborted), 3),
        ConnectionError::ShutdownByLocal,
        ConnectionError::ConnectionClosed,
        ConnectionError::OtherError(failure(StatusCode::Other)),
    ] {
        assert!(is_convertible(&error));
        match convert_connection_error(error) {
            ConnectionErrorIncoming::Undefined(cause) => {
                assert_eq!(cause, Cause::Connection(error));
            }
            other => panic!("there is no name for it: {other:?}"),
        }
    }
    let unknown = Status { raw: 9, ok: false, code: None };
    assert!(!is_convertible(&ConnectionError::ShutdownByTransport(unknown, 0)));
}

#[test]
fn stream_errors_are_told_to_http3() {
    assert!(matches!(
        convert_start_error(StartError::ConnectionLost(ConnectionError::ShutdownByPeer(1))),
        ConnectionErrorIncoming::ApplicationClose { error_code: 1 }
    ));
    assert!(matches!(
        convert_start_error(StartError::LimitReached),
        ConnectionErrorIncoming::Undefined(Cause::Start(StartError::LimitReached))
    ));
    assert!(matches!(
        convert_read_error_to_stream_error(ReadError::Reset(5)),
        StreamErrorIncoming::StreamTerminated { error_code: 5 }
    ));
    assert!(matches!(
        convert_read_error_to_stream_error(ReadError::Closed),
        StreamErrorIncoming::Unknown(Cause::Read(ReadError::Closed))
    ));
    assert!(matches!(
        convert_read_error_to_stream_error(ReadError::ConnectionLost(
            ConnectionError::ShutdownByPeer(6)
        )),
        StreamErrorIncoming::ConnectionErrorIncoming {
            connection_error: ConnectionErrorIncoming::ApplicationClose { error_code: 6 }
        }
    ));
    assert!(matches!(
        convert_write_error_to_stream_error(WriteError::Stopped(7)),
        StreamErrorIncoming::StreamTerminated { error_code: 7 }
    ));
    assert!(matches!(
        convert_write_error_to_stream_error(WriteError::Finished),
        StreamErrorIncoming::Unknown(Cause::Write(WriteError::Finished))
    ));
    assert!(matches!(
        convert_write_error_to_stream_error(WriteError::ConnectionLost(
            ConnectionError::ShutdownByPeer(8)
        )),
        StreamErrorIncoming::ConnectionErrorIncoming {
            connection_error: ConnectionErrorIncoming::ApplicationClose { error_code: 8 }
        }
    ));
}

#[test]
fn datagram_errors_are_told_to_http3() {
    assert!(matches!(
        convert_dgram_send_error(DgramSendError::Denied),
        SendDatagramErrorIncoming::NotAvailable
    ));
    assert!(matches!(
        convert_dgram_send_error(DgramSendError::TooBig),
        SendDatagramErrorIncoming::TooLarge
    ));
    assert!(matches!(
        convert_dgram_send_error(DgramSendError::ConnectionLost(
            ConnectionError::ShutdownByPeer(2)
        )),
        SendDatagramErrorIncoming::ConnectionError(ConnectionErrorIncoming::ApplicationClose {
            error_code: 2
        })
    ));
    assert!(matches!(
        convert_dgram_send_error(DgramSendError::ConnectionNotStarted),
        SendDatagramErrorIncoming::ConnectionError(ConnectionErrorIncoming::Undefined(
            Cause::DgramSend(DgramSendError::ConnectionNotStarted)
        ))
    ));
    assert!(matches!(
        convert_dgram_recv_error(DgramReceiveError::ConnectionLost(
            ConnectionError::ShutdownByPeer(2)
        )),
        ConnectionErrorIncoming::ApplicationClose { error_code: 2 }
    ));
    assert!(matches!(
        convert_dgram_recv_error(DgramReceiveError::ConnectionNotStarted),
        ConnectionErrorIncoming::Undefined(Cause::DgramReceive(
            DgramReceiveError::ConnectionNotStarted
        ))
    ));
}

#[test]
fn stream_numbers_are_kept() {
    for number in [0, 4, 1 << 40, MAX_STREAM_NUMBER] {
        assert_eq!(stream_id(number).into_inner(), number);
    }
}

#[test]
fn halves_lead_to_the_same_stream() {
    let (read, write) = bidi_halves("h", false);
    assert_eq!((read.0, write.0), ("h", "h"));
    assert_eq!(send_half("u").0, "u");
    assert!(matches!(opened_bidi(Ok("s")), Ok((read, write)) if read.0 == "s" && write.0 == "s"));
    assert!(matches!(opened_send(Ok("s")), Ok(write) if write.0 == "s"));
    let lost = StartError::ConnectionLost(ConnectionError::ShutdownByPeer(3));
    assert!(matches!(
        opened_bidi::<&str>(Err(lost)),
        Err(StreamErrorIncoming::ConnectionErrorIncoming {
            connection_error: ConnectionErrorIncoming::ApplicationClose { error_code: 3 }
        })
    ));
    assert!(matches!(
        opened_send::<&str>(Err(StartError::LimitReached)),
        Err(StreamErrorIncoming::ConnectionErrorIncoming {
            connection_error: ConnectionErrorIncoming::Undefined(Cause::Start(
                StartError::LimitReached
            ))
        })
    ));
}

#[test]
fn streams_of_the_peer_are_accepted() {
    let waker = task();
    let cx = Context::from_waker(&waker);
    let mut conn = connected();
    assert!(poll_accept_bidi(&mut conn, &cx).is_pending());
    assert!(poll_accept_recv(&mut conn, &cx).is_pending());
    conn.dispatch_event(NativeEvent::PeerStreamStarted { stream: "b", unidirectional: false });
    conn.dispatch_event(NativeEvent::PeerStreamStarted { stream: "u", unidirectional: true });
    assert!(matches!(
        poll_accept_bidi(&mut conn, &cx),
        Poll::Ready(Ok((read, write))) if read.0 == "b" && write.0 == "b"
    ));
    assert!(matches!(
        poll_accept_recv(&mut conn, &cx),
        Poll::Ready(Ok(read)) if read.0 == "u"
    ));
    conn.dispatch_event(NativeEvent::ShutdownInitiatedByPeer { error_code: 4 });
    assert!(matches!(
        poll_accept_bidi(&mut conn, &cx),
        Poll::Ready(Err(ConnectionErrorIncoming::ApplicationClose { error_code: 4 }))
    ));
    assert!(matches!(
        poll_accept_recv(&mut conn, &cx),
        Poll::Ready(Err(ConnectionErrorIncoming::ApplicationClose { error_code: 4 }))
    ));
}

#[test]
fn http3_datagrams_go_through() {
    let waker = task();
    let cx = Context::from_waker(&waker);
    let mut conn = connected();
    let mut handler = SendDatagramHandler::new(7);
    assert_eq!(handler.conn, 7);
    assert!(matches!(
        handler.send_datagram(&mut conn, &Bytes::from("x")),
        Err(SendDatagramErrorIncoming::NotAvailable)
    ));
    conn.dispatch_event(NativeEvent::DatagramStateChanged {
        send_enabled: true,
        max_send_length: 5,
    });
    assert!(matches!(
        handler.send_datagram(&mut conn, &Bytes::from("sixsix")),
        Err(SendDatagramErrorIncoming::TooLarge)
    ));
    match handler.send_datagram(&mut conn, &Bytes::from("hello")) {
        Ok(buffer) => assert_eq!(buffer.get_buffers(), vec![&b"hello"[..]]),
        Err(error) => panic!("it fits: {error:?}"),
    }
    assert!(poll_incoming_datagram(&mut conn, &cx).is_pending());
    conn.dispatch_event(NativeEvent::DatagramReceived { buffer: b"world" });
    assert!(matches!(
        poll_incoming_datagram(&mut conn, &cx),
        Poll::Ready(Ok(datagram)) if datagram == Bytes::from("world")
    ));
    conn.dispatch_event(NativeEvent::ShutdownInitiatedByPeer { error_code: 4 });
    assert!(matches!(
        poll_incoming_datagram(&mut conn, &cx),
        Poll::Ready(Err(ConnectionErrorIncoming::ApplicationClose { error_code: 4 }))
    ));
    assert!(matches!(
        handler.send_datagram(&mut conn, &Bytes::from("hello")),
        Err(SendDatagramErrorIncoming::ConnectionError(
            ConnectionErrorIncoming::ApplicationClose { error_code: 4 }
        ))
    ));
}

fn receive(stream: &mut Stream, absolute_offset: u64, data: &[u8], fin: bool) {
    let buffers = if data.is_empty() { Vec::new() } else { vec![data.to_vec()] };
    stream.handle_event(StreamEvent::Receive { absolute_offset, buffers, fin });
}

#[test]
fn data_is_received_without_its_end() {
    let waker = task();
    let cx = Context::from_waker(&waker);
    let mut stream = Stream::from_handle(StreamType::Bidirectional);
    let mut recv = RecvStream::new();
    assert!(recv.poll_data(&mut stream, &cx).is_pending());
    assert!(recv.reading);
    receive(&mut stream, 0, b"abc", false);
    receive(&mut stream, 3, b"", false);
    receive(&mut stream, 3, b"", true);
    match recv.poll_data(&mut stream, &cx) {
        Poll::Ready(Ok(Some(chunk))) => assert_eq!(chunk.chunk(), b"abc"),
        _ => panic!("there is data"),
    }
    assert!(!recv.reading);
    assert!(
        matches!(recv.poll_data(&mut stream, &cx), Poll::Ready(Ok(Some(chunk))) if chunk.is_empty())
    );
    assert!(matches!(recv.poll_data(&mut stream, &cx), Poll::Ready(Ok(None))));
    stream.handle_event(StreamEvent::PeerSendAborted { error_code: 3 });
    assert!(matches!(
        recv.poll_data(&mut stream, &cx),
        Poll::Ready(Err(StreamErrorIncoming::StreamTerminated { error_code: 3 }))
    ));
    assert_eq!(recv.stop_sending(&mut stream, 1), None);
    let mut stream = Stream::from_handle(StreamType::Bidirectional);
    assert_eq!(
        recv.stop_sending(&mut stream, 1),
        Some(StreamShutdown::abort_receive(1))
    );
}

#[test]
fn the_end_follows_the_last_data() {
    let waker = task();
    let cx = Context::from_waker(&waker);
    let mut stream = Stream::from_handle(StreamType::Unidirectional);
    let mut recv = RecvStream::new();
    receive(&mut stream, 0, b"abc", true);
    let held = match recv.poll_data(&mut stream, &cx) {
        Poll::Ready(Ok(Some(chunk))) => chunk,
        _ => panic!("there is data"),
    };
    assert!(matches!(recv.poll_data(&mut stream, &cx), Poll::Ready(Ok(None))));
    assert!(!recv.reading);
    assert_eq!(held.chunk(), b"abc");
    assert_eq!(
        recv.stop_sending(&mut stream, 2),
        Some(StreamShutdown::abort_receive(2))
    );
    assert_eq!(recv.stop_sending(&mut stream, 2), None);
}

#[test]
fn data_is_sent_part_by_part() {
    let waker = task();
    let cx = Context::from_waker(&waker);
    let mut stream = Stream::from_handle(StreamType::Bidirectional);
    let mut send = SendStream::new();
    let (answer, sends) = send.poll_ready(&mut stream, &cx);
    assert!(matches!(answer, Poll::Ready(Ok(()))) && sends.is_empty());
    let data = Chunks::new(vec![b"head".to_vec(), Vec::new(), b"body".to_vec()]);
    assert!(send.send_data(data).is_ok());
    assert!(send.is_writing());
    match send.send_data(Chunks::new(Vec::new())) {
        Err(StreamErrorIncoming::ConnectionErrorIncoming {
            connection_error: ConnectionErrorIncoming::InternalError(text),
        }) => assert_eq!(text, "internal error in the http stack"),
        _ => panic!("the first data is not written yet"),
    }
    let (answer, sends) = send.poll_ready(&mut stream, &cx);
    assert!(matches!(answer, Poll::Ready(Ok(()))));
    let sent: Vec<Vec<u8>> =
        sends.iter().map(|send| send.buffer.get_buffers().concat()).collect();
    assert_eq!(sent, vec![b"head".to_vec(), b"body".to_vec()]);
    assert!(sends.iter().all(|send| !send.fin));
    assert!(!send.is_writing());
}

#[test]
fn sending_waits_for_the_start() {
    let waker = task();
    let cx = Context::from_waker(&waker);
    let mut stream = Stream::open(StreamType::Unidirectional);
    let _ = stream.poll_start(&cx, false);
    let mut send = SendStream::new();
    assert!(send.send_data(Chunks::new(vec![b"data".to_vec()])).is_ok());
    let (answer, sends) = send.poll_ready(&mut stream, &cx);
    assert!(answer.is_pending() && sends.is_empty());
    assert!(send.is_blocked() && send.is_writing());
    stream.handle_event(StreamEvent::StartComplete {
        status: success(),
        id: 2,
        peer_accepted: true,
    });
    let (answer, sends) = send.poll_ready(&mut stream, &cx);
    assert!(matches!(answer, Poll::Ready(Ok(()))));
    assert_eq!(sends.len(), 1);
    assert!(!send.is_blocked());
}

#[test]
fn data_that_cannot_be_sent_stays() {
    let waker = task();
    let cx = Context::from_waker(&waker);
    let mut stream = Stream::from_handle(StreamType::Bidirectional);
    stream.handle_event(StreamEvent::PeerReceiveAborted { error_code: 6 });
    let mut send = SendStream::new();
    assert!(send.send_data(Chunks::new(vec![b"data".to_vec()])).is_ok());
    let (answer, sends) = send.poll_ready(&mut stream, &cx);
    assert!(matches!(
        answer,
        Poll::Ready(Err(StreamErrorIncoming::StreamTerminated { error_code: 6 }))
    ));
    assert!(sends.is_empty() && send.is_writing() && !send.is_blocked());
}

#[test]
fn http3_streams_end_or_are_reset() {
    let waker = task();
    let cx = Context::from_waker(&waker);
    let mut stream = Stream::from_handle(StreamType::Bidirectional);
    let mut send = SendStream::new();
    let (answer, shutdown) = send.poll_finish(&mut stream, &cx);
    assert!(answer.is_pending());
    assert_eq!(shutdown, Some(StreamShutdown::graceful()));
    assert_eq!(send.reset(&mut stream, 4), None);
    stream.handle_event(StreamEvent::SendShutdownComplete);
    let (answer, shutdown) = send.poll_finish(&mut stream, &cx);
    assert!(matches!(answer, Poll::Ready(Ok(()))) && shutdown.is_none());

    let mut stream = Stream::from_handle(StreamType::Bidirectional);
    assert_eq!(send.reset(&mut stream, 4), Some(StreamShutdown::abort_send(4)));
}

#[test]
fn unframed_data_is_sent_at_once() {
    let waker = task();
    let cx = Context::from_waker(&waker);
    let mut stream = Stream::from_handle(StreamType::Bidirectional);
    let mut send = SendStream::new();
    let (answer, sent) = send.poll_send(&mut stream, &cx, b"raw");
    assert!(matches!(answer, Poll::Ready(Ok(3))));
    assert_eq!(sent.unwrap().buffer.get_buffers(), vec![&b"raw"[..]]);
    let mut stream = Stream::from_handle(StreamType::Unidirectional);
    let (answer, sent) = send.poll_send(&mut stream, &cx, b"raw");
    assert!(matches!(
        answer,
        Poll::Ready(Err(StreamErrorIncoming::Unknown(Cause::Write(WriteError::Closed))))
    ));
    assert!(sent.is_none());
}
