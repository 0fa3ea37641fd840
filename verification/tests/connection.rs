//! Connections.
use std::sync::Arc;
use std::task::{Context, Poll, Wake, Waker};

use bytes::Bytes;

use msquic_async::connection::{
    Address, Connection, ConnectionError, ConnectionEvent, ConnectionReply, DatagramSendState,
    DgramReceiveError, DgramSendError, EventError, EventFailure, Gate, NativeEvent,
    OpenOutboundStream, OpenStep, PathStatisticsQuery, PathStatisticsStep, ShutdownError,
    StartError,
};
use msquic_async::keylog::{TlsSecrets, TlsSecretsSet};
use msquic_async::status::{Status, StatusCode};
use msquic_async::stream::{StartError as StreamStartError, StreamType};

type Conn = Connection<&'static str, u8, &'static str>;

struct NoopWake;

impl Wake for NoopWake {
    fn wake(self: Arc<Self>) {}
}

fn task() -> Waker {
    Waker::from(Arc::new(NoopWake))
}

fn failure() -> Status {
    Status { raw: 1, ok: false, code: Some(StatusCode::InvalidState) }
}

fn secrets() -> TlsSecrets {
    TlsSecrets {
        is_set: TlsSecretsSet {
            client_random: true,
            client_early_traffic_secret: false,
            client_handshake_traffic_secret: false,
            server_handshake_traffic_secret: false,
            client_traffic_secret_0: true,
            server_traffic_secret_0: false,
        },
        secret_length: 1,
        client_random: [0x11; 32],
        client_early_traffic_secret: [0; 64],
        client_handshake_traffic_secret: [0; 64],
        server_handshake_traffic_secret: [0; 64],
        client_traffic_secret_0: [0x5c; 64],
        server_traffic_secret_0: [0; 64],
    }
}

fn event(conn: &mut Conn, event: NativeEvent<'_, &'static str>) -> ConnectionReply<&'static str> {
    let reply = conn.dispatch_event(event);
    assert_eq!(reply.result, Ok(()));
    reply
}

fn connect(conn: &mut Conn) -> ConnectionReply<&'static str> {
    event(conn, NativeEvent::Connected { secrets: &secrets() })
}

fn connected() -> Conn {
    let mut conn = Conn::from_raw(None, None);
    connect(&mut conn);
    conn
}

fn with_datagrams(max_send_length: u16) -> Conn {
    let mut conn = connected();
    event(&mut conn, NativeEvent::DatagramStateChanged { send_enabled: true, max_send_length });
    conn
}

fn v4(port: u16) -> Address {
    Address::V4 { ipv4: 0x7f000001, port }
}

#[test]
fn starting_asks_msquic_and_waits() {
    let mut conn = Conn::new();
    let waker = task();
    let cx = Context::from_waker(&waker);
    assert_eq!(conn.gate(), Gate::NotStarted);
    assert!(conn.must_start());
    assert_eq!(
        conn.poll_start(&cx, Err(failure())),
        Poll::Ready(Err(StartError::OtherError(failure())))
    );
    assert!(conn.must_start(), "a start that failed can be tried again");
    assert_eq!(conn.poll_start(&cx, Ok(())), Poll::Pending);
    assert!(!conn.must_start());
    assert_eq!(conn.poll_start(&cx, Err(failure())), Poll::Pending);
    let reply = connect(&mut conn);
    assert_eq!(reply.woken.len(), 1);
    assert_eq!(conn.poll_start(&cx, Err(failure())), Poll::Ready(Ok(())));
}

#[test]
fn a_lost_connection_fails_the_start() {
    let mut conn = Conn::new();
    let waker = task();
    let cx = Context::from_waker(&waker);
    assert_eq!(conn.poll_start(&cx, Ok(())), Poll::Pending);
    let reply = event(
        &mut conn,
        NativeEvent::ShutdownInitiatedByTransport { status: failure(), error_code: 2 },
    );
    assert_eq!(reply.woken.len(), 1);
    assert_eq!(
        conn.poll_start(&cx, Ok(())),
        Poll::Ready(Err(StartError::ConnectionLost(ConnectionError::ShutdownByTransport(
            failure(),
            2
        ))))
    );
}

#[test]
fn waiting_for_the_start_starts_nothing() {
    let mut conn = Conn::new();
    let waker = task();
    let cx = Context::from_waker(&waker);
    assert_eq!(
        conn.poll_wait_start(&cx),
        Poll::Ready(Err(StartError::ConnectionNotStarted))
    );
    let mut conn = Conn::from_raw(None, None);
    assert_eq!(conn.poll_wait_start(&cx), Poll::Pending);
    assert_eq!(connect(&mut conn).woken.len(), 1);
    assert_eq!(conn.poll_wait_start(&cx), Poll::Ready(Ok(())));
    event(&mut conn, NativeEvent::ShutdownInitiatedByPeer { error_code: 4 });
    assert_eq!(
        conn.poll_wait_start(&cx),
        Poll::Ready(Err(StartError::ConnectionLost(ConnectionError::ShutdownByPeer(4))))
    );
}

#[test]
fn streams_are_accepted_in_order() {
    let mut conn = Conn::new();
    let waker = task();
    let cx = Context::from_waker(&waker);
    assert_eq!(
        conn.poll_accept_inbound_stream(&cx),
        Poll::Ready(Err(StreamStartError::ConnectionNotStarted))
    );
    assert!(matches!(
        conn.poll_accept_inbound_uni_stream(&cx),
        Poll::Ready(Err(StreamStartError::ConnectionNotStarted))
    ));
    let mut conn = Conn::from_raw(None, None);
    assert!(conn.poll_accept_inbound_stream(&cx).is_pending());
    assert!(conn.poll_accept_inbound_uni_stream(&cx).is_pending());
    assert_eq!(connect(&mut conn).woken.len(), 1);
    assert!(conn.poll_accept_inbound_stream(&cx).is_pending());
    assert!(conn.poll_accept_inbound_uni_stream(&cx).is_pending());

    let reply =
        event(&mut conn, NativeEvent::PeerStreamStarted { stream: "a", unidirectional: false });
    assert_eq!(reply.woken.len(), 1);
    let reply =
        event(&mut conn, NativeEvent::PeerStreamStarted { stream: "u", unidirectional: true });
    assert_eq!(reply.woken.len(), 1);
    event(&mut conn, NativeEvent::PeerStreamStarted { stream: "b", unidirectional: false });
    assert_eq!(conn.poll_accept_inbound_stream(&cx), Poll::Ready(Ok("a")));
    assert_eq!(conn.poll_accept_inbound_stream(&cx), Poll::Ready(Ok("b")));
    match conn.poll_accept_inbound_uni_stream(&cx) {
        Poll::Ready(Ok(stream)) => assert_eq!(stream.0, "u"),
        _ => panic!("there is a stream"),
    }
    assert!(conn.poll_accept_inbound_stream(&cx).is_pending());

    let reply = event(&mut conn, NativeEvent::ShutdownInitiatedByPeer { error_code: 1 });
    assert_eq!(reply.woken.len(), 1);
    let lost = StreamStartError::ConnectionLost(ConnectionError::ShutdownByPeer(1));
    assert_eq!(conn.poll_accept_inbound_stream(&cx), Poll::Ready(Err(lost)));
    assert!(matches!(
        conn.poll_accept_inbound_uni_stream(&cx),
        Poll::Ready(Err(StreamStartError::ConnectionLost(ConnectionError::ShutdownByPeer(1))))
    ));
}

#[test]
fn datagrams_are_received_in_order() {
    let waker = task();
    let cx = Context::from_waker(&waker);
    assert_eq!(
        Conn::new().poll_receive_datagram(&cx),
        Poll::Ready(Err(DgramReceiveError::ConnectionNotStarted))
    );
    let mut conn = Conn::from_raw(None, None);
    assert!(conn.poll_receive_datagram(&cx).is_pending());
    assert_eq!(connect(&mut conn).woken.len(), 1);
    assert!(conn.poll_receive_datagram(&cx).is_pending());
    let reply = event(&mut conn, NativeEvent::DatagramReceived { buffer: b"hello world" });
    assert_eq!(reply.woken.len(), 1);
    event(&mut conn, NativeEvent::DatagramReceived { buffer: b"" });
    assert_eq!(
        conn.poll_receive_datagram(&cx),
        Poll::Ready(Ok(Bytes::from("hello world")))
    );
    assert_eq!(conn.poll_receive_datagram(&cx), Poll::Ready(Ok(Bytes::new())));
    assert!(conn.poll_receive_datagram(&cx).is_pending());
}

#[test]
fn nothing_is_received_after_the_peer_shut_down() {
    let waker = task();
    let cx = Context::from_waker(&waker);
    let mut conn = connected();
    assert!(conn.poll_receive_datagram(&cx).is_pending());
    let reply = event(&mut conn, NativeEvent::ShutdownInitiatedByPeer { error_code: 0 });
    assert_eq!(reply.woken.len(), 1);
    assert_eq!(
        conn.poll_receive_datagram(&cx),
        Poll::Ready(Err(DgramReceiveError::ConnectionLost(ConnectionError::ShutdownByPeer(0))))
    );
}

#[test]
fn nothing_is_received_after_a_local_shutdown() {
    let waker = task();
    let cx = Context::from_waker(&waker);
    let mut conn = connected();
    assert_eq!(conn.shutdown(0), (Ok(()), Some(0)));
    assert_eq!(
        conn.poll_receive_datagram(&cx),
        Poll::Ready(Err(DgramReceiveError::ConnectionLost(ConnectionError::ShutdownByLocal)))
    );
}

fn send_error(conn: &mut Conn, datagram: &'static str) -> Option<DgramSendError> {
    conn.send_datagram(&Bytes::from(datagram)).err()
}

#[test]
fn datagrams_are_sent_as_they_are() {
    let mut conn = with_datagrams(11);
    let waker = task();
    let cx = Context::from_waker(&waker);
    let buffer = match conn.send_datagram(&Bytes::from("hello world")) {
        Ok(buffer) => buffer,
        Err(error) => panic!("the datagram can be sent: {error:?}"),
    };
    assert_eq!(buffer.get_buffers(), vec![&b"hello world"[..]]);
    event(
        &mut conn,
        NativeEvent::DatagramSendStateChanged {
            state: DatagramSendState::Sent,
            returned: Some(buffer),
        },
    );
    match conn.poll_send_datagram(&cx, &Bytes::from("again")) {
        Poll::Ready(Ok(buffer)) => assert_eq!(buffer.get_buffers(), vec![&b"again"[..]]),
        _ => panic!("the datagram can be sent"),
    }
    event(
        &mut conn,
        NativeEvent::DatagramSendStateChanged {
            state: DatagramSendState::Acknowledged,
            returned: None,
        },
    );
}

#[test]
fn buffers_come_back_when_sent_or_canceled() {
    for state in [DatagramSendState::Sent, DatagramSendState::Canceled] {
        assert!(state.returns_buffer());
    }
    for state in [
        DatagramSendState::Unknown,
        DatagramSendState::LostSuspect,
        DatagramSendState::LostDiscarded,
        DatagramSendState::Acknowledged,
        DatagramSendState::AcknowledgedSpurious,
    ] {
        assert!(!state.returns_buffer());
    }
}

#[test]
fn datagrams_that_cannot_be_sent_are_refused() {
    let waker = task();
    let cx = Context::from_waker(&waker);
    let mut conn = Conn::new();
    assert_eq!(send_error(&mut conn, "x"), Some(DgramSendError::ConnectionNotStarted));
    assert!(matches!(
        conn.poll_send_datagram(&cx, &Bytes::from("x")),
        Poll::Ready(Err(DgramSendError::ConnectionNotStarted))
    ));
    let mut conn = Conn::from_raw(None, None);
    assert_eq!(send_error(&mut conn, "x"), Some(DgramSendError::ConnectionNotStarted));
    assert!(conn.poll_send_datagram(&cx, &Bytes::from("x")).is_pending());
    assert_eq!(connect(&mut conn).woken.len(), 1);
    assert_eq!(send_error(&mut conn, "x"), Some(DgramSendError::Denied));
    let mut conn = with_datagrams(3);
    assert_eq!(send_error(&mut conn, "four"), Some(DgramSendError::TooBig));
    assert_eq!(send_error(&mut conn, "abc"), None);
    event(&mut conn, NativeEvent::ShutdownInitiatedByPeer { error_code: 8 });
    assert_eq!(
        send_error(&mut conn, "abc"),
        Some(DgramSendError::ConnectionLost(ConnectionError::ShutdownByPeer(8)))
    );
}

#[test]
fn a_failed_send_gives_its_buffer_back() {
    let mut conn = with_datagrams(100);
    let buffer = conn.send_datagram(&Bytes::from("first")).ok().unwrap();
    assert_eq!(
        conn.send_datagram_failed(buffer, failure()),
        Err(DgramSendError::OtherError(failure()))
    );
    let buffer = conn.send_datagram(&Bytes::from("second")).ok().unwrap();
    assert_eq!(buffer.get_buffers(), vec![&b"second"[..]]);
}

#[test]
fn shutting_down_is_asked_for_once() {
    let waker = task();
    let cx = Context::from_waker(&waker);
    let mut conn = Conn::new();
    assert_eq!(conn.shutdown(1), (Err(ShutdownError::ConnectionNotStarted), None));
    assert_eq!(
        conn.poll_shutdown(&cx, 1),
        (Poll::Ready(Err(ShutdownError::ConnectionNotStarted)), None)
    );
    let mut conn = Conn::from_raw(None, None);
    assert_eq!(conn.shutdown(1), (Err(ShutdownError::ConnectionNotStarted), None));
    assert_eq!(conn.poll_shutdown(&cx, 1), (Poll::Pending, None));
    assert_eq!(connect(&mut conn).woken.len(), 1);
    assert_eq!(conn.poll_shutdown(&cx, 1), (Poll::Pending, Some(1)));
    assert_eq!(conn.poll_shutdown(&cx, 1), (Poll::Pending, None));
    assert_eq!(conn.shutdown(2), (Ok(()), None));
    let reply = event(&mut conn, NativeEvent::ShutdownComplete);
    assert_eq!(reply.woken.len(), 1);
    assert_eq!(conn.poll_shutdown(&cx, 1), (Poll::Ready(Ok(())), None));
}

#[test]
fn a_shutdown_by_the_peer_is_told() {
    let waker = task();
    let cx = Context::from_waker(&waker);
    let mut conn = connected();
    event(&mut conn, NativeEvent::ShutdownInitiatedByPeer { error_code: 3 });
    assert_eq!(conn.poll_shutdown(&cx, 1), (Poll::Pending, None));
    event(&mut conn, NativeEvent::ShutdownComplete);
    assert_eq!(
        conn.poll_shutdown(&cx, 1),
        (
            Poll::Ready(Err(ShutdownError::ConnectionLost(ConnectionError::ShutdownByPeer(3)))),
            None
        )
    );
    let mut conn = connected();
    event(&mut conn, NativeEvent::ShutdownComplete);
    assert_eq!(conn.gate(), Gate::Lost(ConnectionError::ShutdownByLocal));
}

#[test]
fn events_are_polled_in_order() {
    let waker = task();
    let cx = Context::from_waker(&waker);
    assert_eq!(
        Conn::new().poll_event(&cx),
        Poll::Ready(Err(EventError::ConnectionNotStarted))
    );
    let mut conn = Conn::from_raw(None, None);
    assert!(conn.poll_event(&cx).is_pending());
    assert_eq!(connect(&mut conn).woken.len(), 1);
    assert!(conn.poll_event(&cx).is_pending());
    let reply =
        event(&mut conn, NativeEvent::ResumptionTicketReceived { resumption_ticket: b"ticket" });
    assert_eq!(reply.woken.len(), 1);
    event(
        &mut conn,
        NativeEvent::NotifyObservedAddress {
            local_address: Some(v4(1)),
            observed_address: Some(v4(2)),
        },
    );
    event(
        &mut conn,
        NativeEvent::NotifyRemoteAddressAdded { address: Some(v4(3)), sequence_number: 5 },
    );
    event(&mut conn, NativeEvent::NotifyRemoteAddressRemoved { sequence_number: 6 });
    event(
        &mut conn,
        NativeEvent::PathValidated { local_address: Some(v4(4)), remote_address: Some(v4(5)) },
    );
    event(
        &mut conn,
        NativeEvent::PathAdded {
            local_address: Some(v4(6)),
            peer_address: Some(v4(7)),
            path_id: 1,
        },
    );
    event(
        &mut conn,
        NativeEvent::PathRemoved {
            local_address: Some(v4(6)),
            peer_address: Some(v4(7)),
            path_id: 2,
        },
    );
    event(
        &mut conn,
        NativeEvent::PathStatusChanged {
            local_address: Some(v4(8)),
            peer_address: Some(v4(9)),
            path_id: 3,
            is_active: true,
        },
    );
    event(&mut conn, NativeEvent::ShutdownInitiatedByPeer { error_code: 0 });
    let expected = vec![
        ConnectionEvent::ResumptionTicketReceived { resumption_ticket: b"ticket".to_vec() },
        ConnectionEvent::NotifyObservedAddress { local_address: v4(1), observed_address: v4(2) },
        ConnectionEvent::NotifyRemoteAddressAdded { address: v4(3), sequence_number: 5 },
        ConnectionEvent::NotifyRemoteAddressRemoved { sequence_number: 6 },
        ConnectionEvent::PathValidated { local_address: v4(4), remote_address: v4(5) },
        ConnectionEvent::PathAdded { local_address: v4(6), peer_address: v4(7), path_id: 1 },
        ConnectionEvent::PathRemoved { local_address: v4(6), peer_address: v4(7), path_id: 2 },
        ConnectionEvent::PathStatusChanged {
            local_address: v4(8),
            peer_address: v4(9),
            path_id: 3,
            is_active: true,
        },
    ];
    for wanted in expected {
        assert_eq!(conn.poll_event(&cx), Poll::Ready(Ok(wanted)));
    }
    assert!(conn.poll_event(&cx).is_pending());
    let reply = event(&mut conn, NativeEvent::ShutdownComplete);
    assert_eq!(reply.woken.len(), 1);
    assert_eq!(
        conn.poll_event(&cx),
        Poll::Ready(Err(EventError::ConnectionLost(ConnectionError::ShutdownByPeer(0))))
    );
}

#[test]
fn events_about_other_addresses_are_not_queued() {
    let waker = task();
    let cx = Context::from_waker(&waker);
    let mut conn = connected();
    assert!(conn.poll_event(&cx).is_pending());
    for silent in [
        NativeEvent::NotifyObservedAddress { local_address: None, observed_address: Some(v4(1)) },
        NativeEvent::NotifyRemoteAddressAdded { address: None, sequence_number: 1 },
        NativeEvent::PathValidated { local_address: Some(v4(1)), remote_address: None },
        NativeEvent::PathAdded { local_address: None, peer_address: None, path_id: 1 },
        NativeEvent::PathRemoved {
            local_address: Some(v4(1)),
            peer_address: None,
            path_id: 1,
        },
        NativeEvent::PathStatusChanged {
            local_address: None,
            peer_address: Some(v4(1)),
            path_id: 1,
            is_active: false,
        },
        NativeEvent::StreamsAvailable,
        NativeEvent::Other,
    ] {
        assert!(event(&mut conn, silent).woken.is_empty());
    }
    assert!(conn.poll_event(&cx).is_pending());
}

#[test]
fn datagram_states_are_coalesced() {
    let waker = task();
    let cx = Context::from_waker(&waker);
    let mut conn = connected();
    event(&mut conn, NativeEvent::NotifyRemoteAddressRemoved { sequence_number: 1 });
    for max_send_length in [1200, 1300, 1400] {
        event(
            &mut conn,
            NativeEvent::DatagramStateChanged { send_enabled: true, max_send_length },
        );
        event(
            &mut conn,
            NativeEvent::NotifyRemoteAddressRemoved { sequence_number: u64::from(max_send_length) },
        );
    }
    let mut polled = Vec::new();
    while let Poll::Ready(Ok(event)) = conn.poll_event(&cx) {
        polled.push(event);
    }
    assert_eq!(
        polled,
        vec![
            ConnectionEvent::NotifyRemoteAddressRemoved { sequence_number: 1 },
            ConnectionEvent::DatagramStateChanged { send_enabled: true, max_send_length: 1400 },
            ConnectionEvent::NotifyRemoteAddressRemoved { sequence_number: 1200 },
            ConnectionEvent::NotifyRemoteAddressRemoved { sequence_number: 1300 },
            ConnectionEvent::NotifyRemoteAddressRemoved { sequence_number: 1400 },
        ]
    );
}

#[test]
fn the_key_log_is_written_once_connected() {
    let mut conn = Conn::new();
    assert!(conn.needs_tls_secrets());
    assert_eq!(
        conn.set_sslkeylog_file("log", Some((1, Err(failure())))),
        Err(ConnectionError::OtherError(failure()))
    );
    assert!(!conn.needs_tls_secrets(), "the secrets are set up, if not registered");
    assert_eq!(conn.set_sslkeylog_file("log", None), Ok(()));
    assert_eq!(
        conn.set_sslkeylog_file("other", None),
        Err(ConnectionError::SslKeyLogFileAlreadySet)
    );
    let log = connect(&mut conn).key_log.expect("both are set");
    assert_eq!(log.file, "log");
    assert_eq!(log.lines, vec![format!("CLIENT_TRAFFIC_SECRET_0 {} 5c", "11".repeat(32))]);
    assert!(connect(&mut conn).key_log.is_none(), "the file was handed out");

    let mut conn = Conn::from_raw(Some(1), None);
    assert!(connect(&mut conn).key_log.is_none());
    let mut conn = Conn::from_raw(None, Some("log"));
    assert!(connect(&mut conn).key_log.is_none());
    let mut conn = Conn::from_raw(Some(1), Some("log"));
    assert!(connect(&mut conn).key_log.is_some());
}

#[test]
fn certificates_get_the_verdict_of_the_application() {
    let mut conn = Conn::new();
    for verdict in [None, Some(Ok(()))] {
        let reply = conn.dispatch_event(NativeEvent::PeerCertificateReceived { verdict });
        assert_eq!(reply.result, Ok(()));
    }
    let reply =
        conn.dispatch_event(NativeEvent::PeerCertificateReceived { verdict: Some(Err(failure())) });
    assert_eq!(reply.result, Err(EventFailure::Rejected(failure())));
}

#[test]
fn resumption_tickets_need_a_connection_that_is_up() {
    assert_eq!(
        Conn::new().send_resumption_ticket(),
        Err(ConnectionError::ConnectionNotStarted)
    );
    assert_eq!(
        Conn::from_raw(None, None).send_resumption_ticket(),
        Err(ConnectionError::ConnectionNotStarted)
    );
    let mut conn = connected();
    assert_eq!(conn.send_resumption_ticket(), Ok(()));
    event(&mut conn, NativeEvent::ShutdownInitiatedByPeer { error_code: 2 });
    assert_eq!(conn.send_resumption_ticket(), Err(ConnectionError::ShutdownByPeer(2)));
}

#[test]
fn one_outbound_stream_is_opened_over_all_polls() {
    let waker = task();
    let cx = Context::from_waker(&waker);
    let mut conn = Conn::from_raw(None, None);
    let mut open = OpenOutboundStream::new(StreamType::Bidirectional, true);
    let mut opened = Vec::new();
    let mut handed_out = None;
    for round in 0..6 {
        if round == 2 {
            connect(&mut conn);
        }
        loop {
            match open.poll_step(&mut conn, &cx) {
                OpenStep::Wait => {
                    assert!(round < 2);
                    break;
                }
                OpenStep::Fail(_) => panic!("the connection is not lost"),
                OpenStep::Open(stream_type) => {
                    opened.push(stream_type);
                    assert_eq!(open.opened(Ok("s")), None);
                }
                OpenStep::Start => {
                    assert!(open.fail_on_blocked);
                    let started = if round < 5 { Poll::Pending } else { Poll::Ready(Ok(())) };
                    if let Poll::Ready(stream) = open.started(started) {
                        handed_out = Some(stream);
                    }
                    break;
                }
            }
        }
    }
    assert_eq!(opened, vec![StreamType::Bidirectional]);
    assert_eq!(handed_out, Some(Ok("s")));
}

#[test]
fn outbound_streams_are_opened_then_started() {
    let waker = task();
    let cx = Context::from_waker(&waker);
    let mut conn = Conn::new();
    let mut open = OpenOutboundStream::new(StreamType::Unidirectional, true);
    assert!(open.fail_on_blocked);
    assert_eq!(
        open.poll_step(&mut conn, &cx),
        OpenStep::Fail(StreamStartError::ConnectionNotStarted)
    );
    let mut conn = Conn::from_raw(None, None);
    assert_eq!(open.poll_step(&mut conn, &cx), OpenStep::Wait);
    assert_eq!(connect(&mut conn).woken.len(), 1);
    assert_eq!(open.poll_step(&mut conn, &cx), OpenStep::Open(StreamType::Unidirectional));
    assert!(!open.is_live());
    assert_eq!(open.opened(Ok("s")), None);
    assert!(open.is_live());
    assert_eq!(open.started(Poll::Pending), Poll::Pending);
    assert_eq!(open.poll_step(&mut conn, &cx), OpenStep::Start);
    assert_eq!(
        open.started(Poll::Ready(Err(StreamStartError::LimitReached))),
        Poll::Ready(Err(StreamStartError::LimitReached))
    );
    assert_eq!(open.started(Poll::Ready(Ok(()))), Poll::Ready(Ok("s")));
    assert!(!open.is_live());

    let mut open: OpenOutboundStream<&'static str> =
        OpenOutboundStream::new(StreamType::Bidirectional, false);
    assert_eq!(open.poll_step(&mut conn, &cx), OpenStep::Open(StreamType::Bidirectional));
    assert_eq!(
        open.opened(Err(StreamStartError::Unknown(5))),
        Some(StreamStartError::Unknown(5))
    );
    event(&mut conn, NativeEvent::ShutdownInitiatedByPeer { error_code: 2 });
    assert_eq!(
        open.poll_step(&mut conn, &cx),
        OpenStep::Fail(StreamStartError::ConnectionLost(ConnectionError::ShutdownByPeer(2)))
    );
}

#[test]
fn path_statistics_are_queried_until_they_fit() {
    let mut query = PathStatisticsQuery::new(10);
    assert_eq!((query.room(), query.capacity_bytes()), (4, 40));
    assert_eq!(query.answered(Ok(()), 20), PathStatisticsStep::Done(2));

    let mut query = PathStatisticsQuery::new(10);
    assert_eq!(query.answered(Err(failure()), 65), PathStatisticsStep::Retry);
    assert_eq!((query.room(), query.capacity_bytes()), (6, 60));
    assert_eq!(query.answered(Ok(()), 1000), PathStatisticsStep::Done(6));

    let mut query = PathStatisticsQuery::new(10);
    assert_eq!(
        query.answered(Err(failure()), 40),
        PathStatisticsStep::Fail(ConnectionError::OtherError(failure()))
    );

    let mut query = PathStatisticsQuery::new(10);
    for length in [50, 60, 70] {
        assert_eq!(query.answered(Err(failure()), length), PathStatisticsStep::Retry);
    }
    assert_eq!(
        query.answered(Err(failure()), 80),
        PathStatisticsStep::Fail(ConnectionError::OtherError(failure()))
    );
}
