//! What connections promise.
use std::task::{Context, Poll};

use bytes::Bytes;

use vstd::prelude::*;

use crate::buffer::{bytes_data, WriteBuffer};
use crate::connection::{
    the_latest_datagram_state_is_queued, Connection, ConnectionError, ConnectionEvent,
    ConnectionReply, ConnectionState, ConnectionView, DatagramSendState, DgramReceiveError,
    DgramSendError, EventError, EventFailure, EventView, Gate, NativeEvent, ShutdownError,
    StartError,
};
use crate::keylog::{texts_of, TlsSecrets};
use crate::laws::stream::joined;
use crate::laws::{listed, registered_is_listed};
use crate::status::Status;
use crate::stream::{ReadStream, StartError as StreamStartError};

verus! {

/// Why a connection was lost does not change: an error that is known stays when the shutdown is
/// complete, whatever it is, and that this side shut the connection down is told only where no
/// other reason is known. Whoever accepts or shuts down next is told that reason.
pub proof fn the_reason_of_a_loss_stays<S: Clone, T, F>(
    connection: &mut Connection<S, T, F>,
    reply: ConnectionReply<F>,
    accepting: &mut Connection<S, T, F>,
    cx: &Context<'_>,
    accepted: Poll<Result<S, StreamStartError>>,
    closing: &mut Connection<S, T, F>,
    error_code: u64,
    closed: (Poll<Result<(), ShutdownError>>, Option<u64>),
    receiving: &mut Connection<S, T, F>,
    received: Poll<Result<Bytes, DgramReceiveError>>,
    polling: &mut Connection<S, T, F>,
    polled: Poll<Result<ConnectionEvent, EventError>>,
)
    requires
        call_ensures(
            Connection::<S, T, F>::dispatch_event,
            (connection, NativeEvent::ShutdownComplete),
            reply,
        ),
        *old(accepting) == *final(connection),
        call_ensures(
            Connection::<S, T, F>::poll_accept_inbound_stream,
            (accepting, cx),
            accepted,
        ),
        *old(closing) == *final(connection),
        call_ensures(Connection::<S, T, F>::poll_shutdown, (closing, cx, error_code), closed),
        *old(receiving) == *final(connection),
        call_ensures(Connection::<S, T, F>::poll_receive_datagram, (receiving, cx), received),
        *old(polling) == *final(connection),
        call_ensures(Connection::<S, T, F>::poll_event, (polling, cx), polled),
    ensures
        ({
            let error = match old(connection)@.error {
                Some(error) => error,
                None => ConnectionError::ShutdownByLocal,
            };
            &&& final(connection)@.error == Some(error)
            &&& accepted == Poll::Ready(
                Err::<S, StreamStartError>(StreamStartError::ConnectionLost(error)),
            )
            &&& received == Poll::Ready(
                Err::<Bytes, DgramReceiveError>(DgramReceiveError::ConnectionLost(error)),
            )
            &&& polled == Poll::Ready(
                Err::<ConnectionEvent, EventError>(EventError::ConnectionLost(error)),
            )
            &&& closed.1 is None
            &&& error == ConnectionError::ShutdownByLocal ==> closed.0 == Poll::Ready(
                Ok::<(), ShutdownError>(()),
            )
            &&& error != ConnectionError::ShutdownByLocal ==> closed.0 == Poll::Ready(
                Err::<(), ShutdownError>(ShutdownError::ConnectionLost(error)),
            )
        }),
{
}

/// A connection that the transport or the peer shuts down tells so at once to everybody who uses
/// it, with the status and the error code that came with it.
pub proof fn a_shutdown_is_told<S: Clone, T, F>(
    connection: &mut Connection<S, T, F>,
    event: NativeEvent<'_, S>,
    error: ConnectionError,
    reply: ConnectionReply<F>,
    accepting: &mut Connection<S, T, F>,
    cx: &Context<'_>,
    accepted: Poll<Result<S, StreamStartError>>,
    accepting_uni: &mut Connection<S, T, F>,
    accepted_uni: Poll<Result<ReadStream<S>, StreamStartError>>,
    receiving: &mut Connection<S, T, F>,
    received: Poll<Result<Bytes, DgramReceiveError>>,
    sending: &mut Connection<S, T, F>,
    datagram: &Bytes,
    sent: Result<WriteBuffer, DgramSendError>,
    starting: &mut Connection<S, T, F>,
    started: Poll<Result<(), StartError>>,
)
    requires
        match event {
            NativeEvent::ShutdownInitiatedByTransport { status, error_code } => error
                == ConnectionError::ShutdownByTransport(status, error_code),
            NativeEvent::ShutdownInitiatedByPeer { error_code } => error
                == ConnectionError::ShutdownByPeer(error_code),
            _ => false,
        },
        call_ensures(Connection::<S, T, F>::dispatch_event, (connection, event), reply),
        *old(accepting) == *final(connection),
        call_ensures(
            Connection::<S, T, F>::poll_accept_inbound_stream,
            (accepting, cx),
            accepted,
        ),
        *old(accepting_uni) == *final(connection),
        call_ensures(
            Connection::<S, T, F>::poll_accept_inbound_uni_stream,
            (accepting_uni, cx),
            accepted_uni,
        ),
        *old(receiving) == *final(connection),
        call_ensures(Connection::<S, T, F>::poll_receive_datagram, (receiving, cx), received),
        *old(sending) == *final(connection),
        call_ensures(Connection::<S, T, F>::send_datagram, (sending, datagram), sent),
        *old(starting) == *final(connection),
        call_ensures(Connection::<S, T, F>::poll_wait_start, (starting, cx), started),
    ensures
        accepted == Poll::Ready(
            Err::<S, StreamStartError>(StreamStartError::ConnectionLost(error)),
        ),
        accepted_uni == Poll::Ready(
            Err::<ReadStream<S>, StreamStartError>(StreamStartError::ConnectionLost(error)),
        ),
        received == Poll::Ready(
            Err::<Bytes, DgramReceiveError>(DgramReceiveError::ConnectionLost(error)),
        ),
        sent == Err::<WriteBuffer, DgramSendError>(DgramSendError::ConnectionLost(error)),
        started == Poll::Ready(Err::<(), StartError>(StartError::ConnectionLost(error))),
{
}

/// No stream of the peer is lost: a stream that the peer opens comes last of those of its kind that
/// wait to be accepted, MsQuic is told that it was taken, and nothing else that MsQuic tells
/// changes which streams wait.
pub proof fn no_inbound_stream_is_lost<S: Clone, T, F>(
    connection: &mut Connection<S, T, F>,
    event: NativeEvent<'_, S>,
    reply: ConnectionReply<F>,
)
    requires
        call_ensures(Connection::<S, T, F>::dispatch_event, (connection, event), reply),
    ensures
        ({
            let before = old(connection)@;
            let after = final(connection)@;
            match event {
                NativeEvent::PeerStreamStarted { stream, unidirectional } => {
                    &&& reply.result is Ok
                    &&& unidirectional ==> {
                        &&& after.inbound_uni_streams == before.inbound_uni_streams.push(
                            ReadStream(stream),
                        )
                        &&& after.inbound_streams == before.inbound_streams
                    }
                    &&& !unidirectional ==> {
                        &&& after.inbound_streams == before.inbound_streams.push(stream)
                        &&& after.inbound_uni_streams == before.inbound_uni_streams
                    }
                },
                _ => {
                    &&& after.inbound_streams == before.inbound_streams
                    &&& after.inbound_uni_streams == before.inbound_uni_streams
                },
            }
        }),
{
}

/// Streams are accepted in the order in which the peer opened them, each once: what is handed out
/// is the first that waits, and the others stay in their order. Whoever finds none waits for one.
pub proof fn streams_are_accepted_in_order<S, T, F>(
    connection: &mut Connection<S, T, F>,
    cx: &Context<'_>,
    accepted: Poll<Result<S, StreamStartError>>,
)
    requires
        old(connection)@.state == ConnectionState::Connected,
        call_ensures(
            Connection::<S, T, F>::poll_accept_inbound_stream,
            (connection, cx),
            accepted,
        ),
    ensures
        ({
            let before = old(connection)@;
            let after = final(connection)@;
            &&& before.inbound_streams.len() > 0 ==> {
                &&& accepted matches Poll::Ready(Ok(stream))
                &&& before.inbound_streams == seq![stream] + after.inbound_streams
                &&& after == (ConnectionView { inbound_streams: after.inbound_streams, ..before })
            }
            &&& before.inbound_streams.len() == 0 ==> {
                &&& accepted is Pending
                &&& listed(before.inbound_stream_waiters, *cx, after.inbound_stream_waiters)
                &&& after == (ConnectionView {
                    inbound_stream_waiters: after.inbound_stream_waiters,
                    ..before
                })
            }
        }),
{
    let before = old(connection)@;
    let after = final(connection)@;
    if before.inbound_streams.len() > 0 {
        assert(before.inbound_streams =~= seq![before.inbound_streams[0]]
            + before.inbound_streams.drop_first());
    } else {
        registered_is_listed(before.inbound_stream_waiters, *cx, after.inbound_stream_waiters);
    }
}

/// Unidirectional streams are accepted in the order in which the peer opened them too.
pub proof fn uni_streams_are_accepted_in_order<S, T, F>(
    connection: &mut Connection<S, T, F>,
    cx: &Context<'_>,
    accepted: Poll<Result<ReadStream<S>, StreamStartError>>,
)
    requires
        old(connection)@.state == ConnectionState::Connected,
        call_ensures(
            Connection::<S, T, F>::poll_accept_inbound_uni_stream,
            (connection, cx),
            accepted,
        ),
    ensures
        ({
            let before = old(connection)@;
            let after = final(connection)@;
            &&& before.inbound_uni_streams.len() > 0 ==> {
                &&& accepted matches Poll::Ready(Ok(stream))
                &&& before.inbound_uni_streams == seq![stream] + after.inbound_uni_streams
                &&& after == (ConnectionView {
                    inbound_uni_streams: after.inbound_uni_streams,
                    ..before
                })
            }
            &&& before.inbound_uni_streams.len() == 0 ==> {
                &&& accepted is Pending
                &&& listed(
                    before.inbound_uni_stream_waiters,
                    *cx,
                    after.inbound_uni_stream_waiters,
                )
                &&& after == (ConnectionView {
                    inbound_uni_stream_waiters: after.inbound_uni_stream_waiters,
                    ..before
                })
            }
        }),
{
    let before = old(connection)@;
    let after = final(connection)@;
    if before.inbound_uni_streams.len() > 0 {
        assert(before.inbound_uni_streams =~= seq![before.inbound_uni_streams[0]]
            + before.inbound_uni_streams.drop_first());
    } else {
        registered_is_listed(
            before.inbound_uni_stream_waiters,
            *cx,
            after.inbound_uni_stream_waiters,
        );
    }
}

/// What is received is what arrived: a datagram that arrives comes last of those that wait to be
/// received, with all of its bytes and no others, and nothing else that MsQuic tells changes
/// which datagrams wait.
pub proof fn no_datagram_is_lost_or_cut<S: Clone, T, F>(
    connection: &mut Connection<S, T, F>,
    event: NativeEvent<'_, S>,
    reply: ConnectionReply<F>,
)
    requires
        call_ensures(Connection::<S, T, F>::dispatch_event, (connection, event), reply),
    ensures
        match event {
            NativeEvent::DatagramReceived { buffer } => final(connection)@.recv_buffers == old(
                connection,
            )@.recv_buffers.push(buffer@),
            _ => final(connection)@.recv_buffers == old(connection)@.recv_buffers,
        },
{
}

/// Datagrams are received in the order in which they arrived, each once and whole.
pub proof fn datagrams_are_received_in_order<S, T, F>(
    connection: &mut Connection<S, T, F>,
    cx: &Context<'_>,
    received: Poll<Result<Bytes, DgramReceiveError>>,
)
    requires
        old(connection)@.state == ConnectionState::Connected,
        call_ensures(Connection::<S, T, F>::poll_receive_datagram, (connection, cx), received),
    ensures
        ({
            let before = old(connection)@;
            let after = final(connection)@;
            &&& before.recv_buffers.len() > 0 ==> {
                &&& received matches Poll::Ready(Ok(datagram))
                &&& before.recv_buffers == seq![bytes_data(datagram)] + after.recv_buffers
                &&& after == (ConnectionView { recv_buffers: after.recv_buffers, ..before })
            }
            &&& before.recv_buffers.len() == 0 ==> {
                &&& received is Pending
                &&& listed(before.recv_waiters, *cx, after.recv_waiters)
                &&& after == (ConnectionView { recv_waiters: after.recv_waiters, ..before })
            }
        }),
{
    let before = old(connection)@;
    let after = final(connection)@;
    if before.recv_buffers.len() > 0 {
        assert(before.recv_buffers =~= seq![before.recv_buffers[0]]
            + before.recv_buffers.drop_first());
    } else {
        registered_is_listed(before.recv_waiters, *cx, after.recv_waiters);
    }
}

/// A datagram that arrives at a connection with none waiting is the next that is received, byte by
/// byte.
pub proof fn a_datagram_arrives_whole<S: Clone, T, F>(
    connection: &mut Connection<S, T, F>,
    buffer: &[u8],
    reply: ConnectionReply<F>,
    receiving: &mut Connection<S, T, F>,
    cx: &Context<'_>,
    received: Poll<Result<Bytes, DgramReceiveError>>,
)
    requires
        old(connection)@.state == ConnectionState::Connected,
        old(connection)@.recv_buffers.len() == 0,
        call_ensures(
            Connection::<S, T, F>::dispatch_event,
            (connection, NativeEvent::DatagramReceived { buffer }),
            reply,
        ),
        *old(receiving) == *final(connection),
        call_ensures(Connection::<S, T, F>::poll_receive_datagram, (receiving, cx), received),
    ensures
        received matches Poll::Ready(Ok(datagram)) && bytes_data(datagram) == buffer@,
        reply.woken@ == old(connection)@.recv_waiters,
{
}

/// An event changes what it tells of, and nothing else: the connection is up, going away or gone
/// by the events that say so, the reason of that is the one that was told, what may be sent as a
/// datagram is what was told last, and a buffer that MsQuic is done with is kept.
pub proof fn an_event_changes_what_it_tells<S: Clone, T, F>(
    connection: &mut Connection<S, T, F>,
    event: NativeEvent<'_, S>,
    reply: ConnectionReply<F>,
)
    requires
        call_ensures(Connection::<S, T, F>::dispatch_event, (connection, event), reply),
    ensures
        ({
            let before = old(connection)@;
            let after = final(connection)@;
            &&& match event {
                NativeEvent::Connected { .. } => {
                    &&& after.state == ConnectionState::Connected
                    &&& after.error == before.error
                },
                NativeEvent::ShutdownInitiatedByTransport { status, error_code } => {
                    &&& after.state == ConnectionState::Shutdown
                    &&& after.error == Some(
                        ConnectionError::ShutdownByTransport(status, error_code),
                    )
                },
                NativeEvent::ShutdownInitiatedByPeer { error_code } => {
                    &&& after.state == ConnectionState::Shutdown
                    &&& after.error == Some(ConnectionError::ShutdownByPeer(error_code))
                },
                NativeEvent::ShutdownComplete => {
                    &&& after.state == ConnectionState::ShutdownComplete
                    &&& after.error is Some
                    &&& before.error is Some ==> after.error == before.error
                },
                _ => after.state == before.state && after.error == before.error,
            }
            &&& match event {
                NativeEvent::DatagramStateChanged { send_enabled, max_send_length } => {
                    &&& after.dgram_send_enabled == send_enabled
                    &&& after.dgram_max_send_length == max_send_length
                },
                _ => {
                    &&& after.dgram_send_enabled == before.dgram_send_enabled
                    &&& after.dgram_max_send_length == before.dgram_max_send_length
                },
            }
            &&& match event {
                NativeEvent::DatagramSendStateChanged { state, .. } => after.write_pool
                    == before.write_pool + if state == DatagramSendState::Sent || state
                    == DatagramSendState::Canceled {
                    1nat
                } else {
                    0nat
                },
                _ => after.write_pool == before.write_pool,
            }
            &&& if event is Connected {
                &&& after.sslkeylog_file is None
                &&& before.sslkeylog_file is Some ==> after.tls_secrets == before.tls_secrets
                &&& before.sslkeylog_file is None ==> after.tls_secrets is None
            } else {
                &&& after.sslkeylog_file == before.sslkeylog_file
                &&& after.tls_secrets == before.tls_secrets
            }
        }),
        match event {
            NativeEvent::PeerCertificateReceived { verdict: Some(Err(status)) } => reply.result
                == Err::<(), EventFailure>(EventFailure::Rejected(status)),
            _ => reply.result == Ok::<(), EventFailure>(()),
        },
{
}

/// What the application is told of is what MsQuic told, in the same order: each event that tells of
/// addresses, paths or tickets is queued once and last, with the values that it came with, unless
/// an address in it is none of a socket. Nothing else is queued but changes of the datagram state.
pub proof fn what_happens_is_queued_in_order<S: Clone, T, F>(
    connection: &mut Connection<S, T, F>,
    event: NativeEvent<'_, S>,
    reply: ConnectionReply<F>,
)
    requires
        !(event is DatagramStateChanged),
        call_ensures(Connection::<S, T, F>::dispatch_event, (connection, event), reply),
    ensures
        ({
            let before = old(connection)@.events;
            let after = final(connection)@.events;
            let told = match event {
                NativeEvent::ResumptionTicketReceived { resumption_ticket } => Some(
                    EventView::ResumptionTicketReceived { resumption_ticket: resumption_ticket@ },
                ),
                NativeEvent::NotifyObservedAddress {
                    local_address: Some(local_address),
                    observed_address: Some(observed_address),
                } => Some(
                    EventView::NotifyObservedAddress { local_address, observed_address },
                ),
                NativeEvent::NotifyRemoteAddressAdded {
                    address: Some(address),
                    sequence_number,
                } => Some(EventView::NotifyRemoteAddressAdded { address, sequence_number }),
                NativeEvent::PathValidated {
                    local_address: Some(local_address),
                    remote_address: Some(remote_address),
                } => Some(EventView::PathValidated { local_address, remote_address }),
                NativeEvent::NotifyRemoteAddressRemoved { sequence_number } => Some(
                    EventView::NotifyRemoteAddressRemoved { sequence_number },
                ),
                NativeEvent::PathAdded {
                    local_address: Some(local_address),
                    peer_address: Some(peer_address),
                    path_id,
                } => Some(EventView::PathAdded { local_address, peer_address, path_id }),
                NativeEvent::PathRemoved {
                    local_address: Some(local_address),
                    peer_address: Some(peer_address),
                    path_id,
                } => Some(EventView::PathRemoved { local_address, peer_address, path_id }),
                NativeEvent::PathStatusChanged {
                    local_address: Some(local_address),
                    peer_address: Some(peer_address),
                    path_id,
                    is_active,
                } => Some(
                    EventView::PathStatusChanged {
                        local_address,
                        peer_address,
                        path_id,
                        is_active,
                    },
                ),
                _ => None,
            };
            &&& told matches Some(told) ==> {
                &&& after == before.push(told)
                &&& reply.woken@ == old(connection)@.event_waiters
                &&& final(connection)@.event_waiters.len() == 0
            }
            &&& told is None ==> after == before
        }),
{
}

/// The application finds the datagram state once among the events, with the latest values, and
/// the other events as they were.
pub proof fn the_datagram_state_is_told_once<S: Clone, T, F>(
    connection: &mut Connection<S, T, F>,
    send_enabled: bool,
    max_send_length: u16,
    reply: ConnectionReply<F>,
)
    requires
        old(connection).well_formed(),
        call_ensures(
            Connection::<S, T, F>::dispatch_event,
            (connection, NativeEvent::DatagramStateChanged { send_enabled, max_send_length }),
            reply,
        ),
    ensures
        ({
            let before = old(connection)@.events;
            let after = final(connection)@.events;
            let state = EventView::DatagramStateChanged { send_enabled, max_send_length };
            &&& reply.woken@ == old(connection)@.event_waiters
            &&& final(connection)@.event_waiters.len() == 0
            &&& before.len() <= after.len() <= before.len() + 1
            &&& forall|i: int|
                0 <= i < before.len() ==> #[trigger] after[i] == if before[i]
                    is DatagramStateChanged {
                    state
                } else {
                    before[i]
                }
            &&& after.len() > before.len() ==> after.last() == state
            &&& after.len() == before.len() <==> exists|i: int|
                0 <= i < before.len() && #[trigger] before[i] is DatagramStateChanged
            &&& exists|i: int| 0 <= i < after.len() && #[trigger] after[i] == state
        }),
{
    old(connection).well_formed_view();
    the_latest_datagram_state_is_queued(old(connection)@, send_enabled, max_send_length);
}

/// Events are handed out in the order in which they were queued, each once, as long as the
/// connection is up or going away.
pub proof fn events_are_polled_in_order<S, T, F>(
    connection: &mut Connection<S, T, F>,
    cx: &Context<'_>,
    polled: Poll<Result<ConnectionEvent, EventError>>,
)
    requires
        call_ensures(Connection::<S, T, F>::poll_event, (connection, cx), polled),
    ensures
        ({
            let before = old(connection)@;
            let after = final(connection)@;
            match before.state {
                ConnectionState::Open => {
                    &&& polled == Poll::Ready(
                        Err::<ConnectionEvent, EventError>(EventError::ConnectionNotStarted),
                    )
                    &&& after == before
                },
                ConnectionState::Connecting => {
                    &&& polled is Pending
                    &&& listed(before.start_waiters, *cx, after.start_waiters)
                    &&& after == (ConnectionView { start_waiters: after.start_waiters, ..before })
                },
                ConnectionState::Connected | ConnectionState::Shutdown => {
                    &&& before.events.len() > 0 ==> {
                        &&& polled matches Poll::Ready(Ok(event))
                        &&& before.events == seq![event@] + after.events
                        &&& after == (ConnectionView { events: after.events, ..before })
                    }
                    &&& before.events.len() == 0 ==> {
                        &&& polled is Pending
                        &&& listed(before.event_waiters, *cx, after.event_waiters)
                        &&& after == (ConnectionView {
                            event_waiters: after.event_waiters,
                            ..before
                        })
                    }
                },
                ConnectionState::ShutdownComplete => {
                    &&& before.error matches Some(error) ==> polled == Poll::Ready(
                        Err::<ConnectionEvent, EventError>(EventError::ConnectionLost(error)),
                    )
                    &&& after == before
                },
            }
        }),
{
    let before = old(connection)@;
    let after = final(connection)@;
    match before.state {
        ConnectionState::Connecting => {
            registered_is_listed(before.start_waiters, *cx, after.start_waiters);
        },
        ConnectionState::Connected | ConnectionState::Shutdown => {
            if before.events.len() > 0 {
                assert(before.events =~= seq![before.events[0]] + before.events.drop_first());
            } else {
                registered_is_listed(before.event_waiters, *cx, after.event_waiters);
            }
        },
        _ => {},
    }
}

/// An event that was queued can be told apart from every other: what is polled says what was
/// queued, field by field.
pub proof fn an_event_says_what_was_queued(event: ConnectionEvent)
    ensures
        match event {
            ConnectionEvent::NotifyObservedAddress { local_address, observed_address } => event@
                == (EventView::NotifyObservedAddress { local_address, observed_address }),
            ConnectionEvent::NotifyRemoteAddressAdded { address, sequence_number } => event@
                == (EventView::NotifyRemoteAddressAdded { address, sequence_number }),
            ConnectionEvent::PathValidated { local_address, remote_address } => event@
                == (EventView::PathValidated { local_address, remote_address }),
            ConnectionEvent::NotifyRemoteAddressRemoved { sequence_number } => event@
                == (EventView::NotifyRemoteAddressRemoved { sequence_number }),
            ConnectionEvent::ResumptionTicketReceived { resumption_ticket } => event@
                == (EventView::ResumptionTicketReceived { resumption_ticket: resumption_ticket@ }),
            ConnectionEvent::PathAdded { local_address, peer_address, path_id } => event@
                == (EventView::PathAdded { local_address, peer_address, path_id }),
            ConnectionEvent::PathRemoved { local_address, peer_address, path_id } => event@
                == (EventView::PathRemoved { local_address, peer_address, path_id }),
            ConnectionEvent::PathStatusChanged {
                local_address,
                peer_address,
                path_id,
                is_active,
            } => event@ == (EventView::PathStatusChanged {
                local_address,
                peer_address,
                path_id,
                is_active,
            }),
            ConnectionEvent::DatagramStateChanged { send_enabled, max_send_length } => event@
                == (EventView::DatagramStateChanged { send_enabled, max_send_length }),
        },
{
}

/// Those who wait are woken by what they wait for, all of them and nobody else; who is not woken
/// goes on waiting.
pub proof fn those_who_wait_are_woken<S: Clone, T, F>(
    connection: &mut Connection<S, T, F>,
    event: NativeEvent<'_, S>,
    reply: ConnectionReply<F>,
)
    requires
        call_ensures(Connection::<S, T, F>::dispatch_event, (connection, event), reply),
    ensures
        ({
            let before = old(connection)@;
            let after = final(connection)@;
            let going = event is ShutdownInitiatedByTransport || event is ShutdownInitiatedByPeer;
            let gone = event is ShutdownComplete;
            let queued = event is DatagramStateChanged || after.events != before.events;
            let stream = event matches NativeEvent::PeerStreamStarted { unidirectional, .. }
                && !unidirectional;
            let uni_stream = event matches NativeEvent::PeerStreamStarted { unidirectional, .. }
                && unidirectional;
            &&& if event is Connected || going || gone {
                after.start_waiters.len() == 0
            } else {
                after.start_waiters == before.start_waiters
            }
            &&& if stream || going || gone {
                after.inbound_stream_waiters.len() == 0
            } else {
                after.inbound_stream_waiters == before.inbound_stream_waiters
            }
            &&& if uni_stream {
                after.inbound_uni_stream_waiters.len() == 0
            } else {
                after.inbound_uni_stream_waiters == before.inbound_uni_stream_waiters
            }
            &&& if event is DatagramReceived || going || gone {
                after.recv_waiters.len() == 0
            } else {
                after.recv_waiters == before.recv_waiters
            }
            &&& if gone {
                after.shutdown_waiters.len() == 0
            } else {
                after.shutdown_waiters == before.shutdown_waiters
            }
            &&& if queued || gone {
                after.event_waiters.len() == 0
            } else {
                after.event_waiters == before.event_waiters
            }
            &&& reply.woken@ == if event is Connected {
                before.start_waiters
            } else if going {
                before.start_waiters + before.inbound_stream_waiters + before.recv_waiters
            } else if gone {
                before.start_waiters + before.inbound_stream_waiters + before.recv_waiters
                    + before.shutdown_waiters + before.event_waiters
            } else if stream {
                before.inbound_stream_waiters
            } else if uni_stream {
                before.inbound_uni_stream_waiters
            } else if event is DatagramReceived {
                before.recv_waiters
            } else if queued {
                before.event_waiters
            } else {
                Seq::empty()
            }
        }),
{
    let before = old(connection)@.events;
    let after = final(connection)@.events;
    if after.len() == before.len() + 1 {
        assert(after != before);
    }
}

/// The secrets of a connection are logged when it is up, to the file that was set and once; the
/// lines are those that the secrets make.
pub proof fn secrets_are_logged_once<S: Clone, T, F>(
    connection: &mut Connection<S, T, F>,
    event: NativeEvent<'_, S>,
    reply: ConnectionReply<F>,
    secrets: &TlsSecrets,
    lines: Vec<String>,
)
    requires
        call_ensures(Connection::<S, T, F>::dispatch_event, (connection, event), reply),
        call_ensures(TlsSecrets::key_log_lines, (secrets,), lines),
        event matches NativeEvent::Connected { secrets: told } ==> told == secrets,
    ensures
        reply.key_log is Some <==> event is Connected && old(connection)@.tls_secrets is Some
            && old(connection)@.sslkeylog_file is Some,
        reply.key_log matches Some(log) ==> {
            &&& old(connection)@.sslkeylog_file == Some(log.file)
            &&& log.lines@.len() == lines@.len()
            &&& forall|i: int| 0 <= i < lines@.len() ==> (#[trigger] log.lines@[i])@ == lines@[i]@
            &&& final(connection)@.sslkeylog_file is None
        },
{
    if let Some(log) = reply.key_log {
        assert(texts_of(log.lines@).len() == texts_of(lines@).len());
        assert forall|i: int| 0 <= i < lines@.len() implies (#[trigger] log.lines@[i])@
            == lines@[i]@ by {
            assert(texts_of(log.lines@)[i] == texts_of(lines@)[i]);
        }
    }
}

/// A connection that cannot be used yet, or no more, tells everybody so who wants something of it:
/// before it is started by an error, while it starts by a wait for that, and once it is going away
/// by the reason.
pub proof fn users_are_told_why<S, T, F>(
    connection: &mut Connection<S, T, F>,
    cx: &Context<'_>,
    accepted: Poll<Result<S, StreamStartError>>,
    accepting_uni: &mut Connection<S, T, F>,
    accepted_uni: Poll<Result<ReadStream<S>, StreamStartError>>,
    receiving: &mut Connection<S, T, F>,
    received: Poll<Result<Bytes, DgramReceiveError>>,
    sending: &mut Connection<S, T, F>,
    datagram: &Bytes,
    sent: Poll<Result<WriteBuffer, DgramSendError>>,
    sending_now: &mut Connection<S, T, F>,
    sent_now: Result<WriteBuffer, DgramSendError>,
)
    requires
        old(connection)@.state != ConnectionState::Connected,
        call_ensures(
            Connection::<S, T, F>::poll_accept_inbound_stream,
            (connection, cx),
            accepted,
        ),
        *old(accepting_uni) == *old(connection),
        call_ensures(
            Connection::<S, T, F>::poll_accept_inbound_uni_stream,
            (accepting_uni, cx),
            accepted_uni,
        ),
        *old(receiving) == *old(connection),
        call_ensures(Connection::<S, T, F>::poll_receive_datagram, (receiving, cx), received),
        *old(sending) == *old(connection),
        call_ensures(Connection::<S, T, F>::poll_send_datagram, (sending, cx, datagram), sent),
        *old(sending_now) == *old(connection),
        call_ensures(Connection::<S, T, F>::send_datagram, (sending_now, datagram), sent_now),
    ensures
        final(sending_now)@ == old(connection)@,
        match old(connection)@.state {
            ConnectionState::Open => {
                &&& accepted == Poll::Ready(
                    Err::<S, StreamStartError>(StreamStartError::ConnectionNotStarted),
                )
                &&& accepted_uni == Poll::Ready(
                    Err::<ReadStream<S>, StreamStartError>(StreamStartError::ConnectionNotStarted),
                )
                &&& received == Poll::Ready(
                    Err::<Bytes, DgramReceiveError>(DgramReceiveError::ConnectionNotStarted),
                )
                &&& sent == Poll::Ready(
                    Err::<WriteBuffer, DgramSendError>(DgramSendError::ConnectionNotStarted),
                )
                &&& sent_now == Err::<WriteBuffer, DgramSendError>(
                    DgramSendError::ConnectionNotStarted,
                )
                &&& final(connection)@ == old(connection)@
                &&& final(accepting_uni)@ == old(connection)@
                &&& final(receiving)@ == old(connection)@
                &&& final(sending)@ == old(connection)@
            },
            ConnectionState::Connecting => {
                &&& accepted is Pending
                &&& accepted_uni is Pending
                &&& received is Pending
                &&& sent is Pending
                &&& sent_now == Err::<WriteBuffer, DgramSendError>(
                    DgramSendError::ConnectionNotStarted,
                )
                &&& waits_for_the_start(old(connection)@, *cx, final(connection)@)
                &&& waits_for_the_start(old(connection)@, *cx, final(accepting_uni)@)
                &&& waits_for_the_start(old(connection)@, *cx, final(receiving)@)
                &&& waits_for_the_start(old(connection)@, *cx, final(sending)@)
            },
            _ => {
                &&& old(connection)@.error matches Some(error) ==> {
                    &&& accepted == Poll::Ready(
                        Err::<S, StreamStartError>(StreamStartError::ConnectionLost(error)),
                    )
                    &&& accepted_uni == Poll::Ready(
                        Err::<ReadStream<S>, StreamStartError>(
                            StreamStartError::ConnectionLost(error),
                        ),
                    )
                    &&& received == Poll::Ready(
                        Err::<Bytes, DgramReceiveError>(DgramReceiveError::ConnectionLost(error)),
                    )
                    &&& sent == Poll::Ready(
                        Err::<WriteBuffer, DgramSendError>(DgramSendError::ConnectionLost(error)),
                    )
                    &&& sent_now == Err::<WriteBuffer, DgramSendError>(
                        DgramSendError::ConnectionLost(error),
                    )
                }
                &&& final(connection)@ == old(connection)@
                &&& final(accepting_uni)@ == old(connection)@
                &&& final(receiving)@ == old(connection)@
                &&& final(sending)@ == old(connection)@
            },
        },
{
    if old(connection)@.state == ConnectionState::Connecting {
        let before = old(connection)@.start_waiters;
        registered_is_listed(before, *cx, final(connection)@.start_waiters);
        registered_is_listed(before, *cx, final(accepting_uni)@.start_waiters);
        registered_is_listed(before, *cx, final(receiving)@.start_waiters);
        registered_is_listed(before, *cx, final(sending)@.start_waiters);
    }
}

/// The task of `cx` waits for the connection to start, and nothing else changed.
pub open spec fn waits_for_the_start<S, T, F>(
    before: ConnectionView<S, T, F>,
    cx: Context<'_>,
    after: ConnectionView<S, T, F>,
) -> bool {
    &&& listed(before.start_waiters, cx, after.start_waiters)
    &&& after == (ConnectionView { start_waiters: after.start_waiters, ..before })
}

/// The task of `cx` waits for the connection to be shut down, and nothing else changed.
pub open spec fn waits_for_the_end<S, T, F>(
    before: ConnectionView<S, T, F>,
    cx: Context<'_>,
    after: ConnectionView<S, T, F>,
) -> bool {
    &&& listed(before.shutdown_waiters, cx, after.shutdown_waiters)
    &&& after == (ConnectionView { shutdown_waiters: after.shutdown_waiters, ..before })
}

/// A connection that is up sends a datagram whole or not at all: not where the peer takes none, not
/// where it is longer than was told last, and everywhere else. What MsQuic is handed is exactly
/// the datagram.
pub proof fn a_datagram_is_sent_whole<S, T, F>(
    connection: &mut Connection<S, T, F>,
    cx: &Context<'_>,
    datagram: &Bytes,
    sent: Poll<Result<WriteBuffer, DgramSendError>>,
    sending_now: &mut Connection<S, T, F>,
    sent_now: Result<WriteBuffer, DgramSendError>,
    buffer: WriteBuffer,
    parts: Vec<&[u8]>,
)
    requires
        old(connection)@.state == ConnectionState::Connected,
        call_ensures(Connection::<S, T, F>::poll_send_datagram, (connection, cx, datagram), sent),
        *old(sending_now) == *old(connection),
        call_ensures(Connection::<S, T, F>::send_datagram, (sending_now, datagram), sent_now),
        sent_now matches Ok(taken) ==> taken == buffer,
        call_ensures(WriteBuffer::get_buffers, (&buffer,), parts),
    ensures
        ({
            let before = old(connection)@;
            let too_big = bytes_data(*datagram).len() > before.dgram_max_send_length;
            let after = final(connection)@;
            let takes = before.dgram_send_enabled && !too_big;
            &&& sent_now == Err::<WriteBuffer, DgramSendError>(DgramSendError::Denied)
                <==> !before.dgram_send_enabled
            &&& sent_now == Err::<WriteBuffer, DgramSendError>(DgramSendError::TooBig)
                <==> before.dgram_send_enabled && too_big
            &&& sent_now is Ok <==> takes
            &&& sent matches Poll::Ready(outcome)
            &&& !takes ==> outcome == sent_now && after == before && final(sending_now)@ == before
            &&& takes ==> {
                &&& outcome matches Ok(polled)
                &&& polled@ == buffer@
                &&& joined(parts@) == bytes_data(*datagram)
                &&& after == final(sending_now)@
                &&& before.write_pool == 0 ==> after.write_pool == 0
                &&& before.write_pool > 0 ==> after.write_pool == before.write_pool - 1
                &&& after == (ConnectionView { write_pool: after.write_pool, ..before })
            }
        }),
{
    seq![bytes_data(*datagram)].lemma_flatten_one_element();
}

/// A datagram that MsQuic refuses is reported with its status, and its buffer is kept.
pub proof fn a_refused_datagram_is_reported<S, T, F>(
    connection: &mut Connection<S, T, F>,
    buffer: WriteBuffer,
    status: Status,
    answer: Result<(), DgramSendError>,
)
    requires
        call_ensures(
            Connection::<S, T, F>::send_datagram_failed,
            (connection, buffer, status),
            answer,
        ),
    ensures
        answer == Err::<(), DgramSendError>(DgramSendError::OtherError(status)),
        final(connection)@ == (ConnectionView {
            write_pool: old(connection)@.write_pool + 1,
            ..old(connection)@
        }),
{
}

/// A connection is started once, where MsQuic takes the start; whoever waits for the start is told
/// once it is over: of success where the connection is up, else of the reason.
pub proof fn a_connection_is_started_once<S, T, F>(
    connection: &mut Connection<S, T, F>,
    cx: &Context<'_>,
    native: Result<(), Status>,
    started: Poll<Result<(), StartError>>,
    must: bool,
    waiting: &mut Connection<S, T, F>,
    waited: Poll<Result<(), StartError>>,
)
    requires
        call_ensures(Connection::<S, T, F>::must_start, (&*old(connection),), must),
        call_ensures(Connection::<S, T, F>::poll_start, (connection, cx, native), started),
        *old(waiting) == *old(connection),
        call_ensures(Connection::<S, T, F>::poll_wait_start, (waiting, cx), waited),
    ensures
        ({
            let before = old(connection)@;
            let after = final(connection)@;
            &&& must <==> before.state == ConnectionState::Open
            &&& match before.state {
                ConnectionState::Open => {
                    &&& native is Ok ==> {
                        &&& started is Pending
                        &&& waits_for_the_start(
                            ConnectionView { state: ConnectionState::Connecting, ..before },
                            *cx,
                            after,
                        )
                    }
                    &&& native matches Err(status) ==> {
                        &&& started == Poll::Ready(
                            Err::<(), StartError>(StartError::OtherError(status)),
                        )
                        &&& after == before
                    }
                    &&& waited == Poll::Ready(
                        Err::<(), StartError>(StartError::ConnectionNotStarted),
                    )
                    &&& final(waiting)@ == before
                },
                ConnectionState::Connecting => {
                    &&& started is Pending
                    &&& waits_for_the_start(before, *cx, after)
                    &&& waited is Pending
                    &&& waits_for_the_start(before, *cx, final(waiting)@)
                },
                ConnectionState::Connected => {
                    &&& started == Poll::Ready(Ok::<(), StartError>(()))
                    &&& after == before
                    &&& waited == started
                    &&& final(waiting)@ == before
                },
                _ => {
                    &&& before.error matches Some(error) ==> started == Poll::Ready(
                        Err::<(), StartError>(StartError::ConnectionLost(error)),
                    )
                    &&& after == before
                    &&& waited == started
                    &&& final(waiting)@ == before
                },
            }
        }),
{
    let before = old(connection)@;
    if before.state == ConnectionState::Open && native is Ok {
        registered_is_listed(before.start_waiters, *cx, final(connection)@.start_waiters);
    } else if before.state == ConnectionState::Connecting {
        registered_is_listed(before.start_waiters, *cx, final(connection)@.start_waiters);
        registered_is_listed(before.start_waiters, *cx, final(waiting)@.start_waiters);
    }
}

/// A connection that comes up tells so to all who wait for the start: they are woken, and whoever
/// asks next is told of success.
pub proof fn a_start_is_told<S: Clone, T, F>(
    connection: &mut Connection<S, T, F>,
    secrets: &TlsSecrets,
    reply: ConnectionReply<F>,
    waiting: &mut Connection<S, T, F>,
    cx: &Context<'_>,
    waited: Poll<Result<(), StartError>>,
)
    requires
        call_ensures(
            Connection::<S, T, F>::dispatch_event,
            (connection, NativeEvent::Connected { secrets }),
            reply,
        ),
        *old(waiting) == *final(connection),
        call_ensures(Connection::<S, T, F>::poll_wait_start, (waiting, cx), waited),
    ensures
        reply.woken@ == old(connection)@.start_waiters,
        waited == Poll::Ready(Ok::<(), StartError>(())),
{
}

/// A connection is shut down by this side once, with the error code of the first who asks, and only
/// where it is up; its users are then told that this side did so. Whoever waits for the shutdown
/// is told once it is complete: of success where this side asked for it, else of the reason.
pub proof fn a_connection_is_shut_down_once<S, T, F>(
    connection: &mut Connection<S, T, F>,
    cx: &Context<'_>,
    error_code: u64,
    polled: (Poll<Result<(), ShutdownError>>, Option<u64>),
    closing: &mut Connection<S, T, F>,
    closed: (Result<(), ShutdownError>, Option<u64>),
)
    requires
        call_ensures(Connection::<S, T, F>::poll_shutdown, (connection, cx, error_code), polled),
        *old(closing) == *old(connection),
        call_ensures(Connection::<S, T, F>::shutdown, (closing, error_code), closed),
    ensures
        ({
            let before = old(connection)@;
            let after = final(connection)@;
            let going = ConnectionView {
                state: ConnectionState::Shutdown,
                error: Some(ConnectionError::ShutdownByLocal),
                ..before
            };
            &&& polled.1 == closed.1
            &&& match before.state {
                ConnectionState::Open => {
                    &&& polled.0 == Poll::Ready(
                        Err::<(), ShutdownError>(ShutdownError::ConnectionNotStarted),
                    )
                    &&& polled.1 is None
                    &&& after == before
                    &&& closed.0 == Err::<(), ShutdownError>(ShutdownError::ConnectionNotStarted)
                    &&& final(closing)@ == before
                },
                ConnectionState::Connecting => {
                    &&& polled.0 is Pending
                    &&& polled.1 is None
                    &&& waits_for_the_start(before, *cx, after)
                    &&& closed.0 == Err::<(), ShutdownError>(ShutdownError::ConnectionNotStarted)
                    &&& final(closing)@ == before
                },
                ConnectionState::Connected => {
                    &&& polled.0 is Pending
                    &&& polled.1 == Some(error_code)
                    &&& waits_for_the_end(going, *cx, after)
                    &&& closed.0 is Ok
                    &&& final(closing)@ == going
                },
                ConnectionState::Shutdown => {
                    &&& polled.0 is Pending
                    &&& polled.1 is None
                    &&& waits_for_the_end(before, *cx, after)
                    &&& closed.0 is Ok
                    &&& final(closing)@ == before
                },
                ConnectionState::ShutdownComplete => {
                    &&& before.error matches Some(error) ==> polled.0 == Poll::Ready(
                        if error == ConnectionError::ShutdownByLocal {
                            Ok::<(), ShutdownError>(())
                        } else {
                            Err(ShutdownError::ConnectionLost(error))
                        },
                    )
                    &&& polled.1 is None
                    &&& after == before
                    &&& closed.0 is Ok
                    &&& final(closing)@ == before
                },
            }
        }),
{
    let before = old(connection)@;
    match before.state {
        ConnectionState::Connecting => {
            registered_is_listed(before.start_waiters, *cx, final(connection)@.start_waiters);
        },
        ConnectionState::Connected | ConnectionState::Shutdown => {
            registered_is_listed(
                before.shutdown_waiters,
                *cx,
                final(connection)@.shutdown_waiters,
            );
        },
        _ => {},
    }
}

/// A key log file is set once, and is kept only where MsQuic fills in the secrets; a second one is
/// refused.
pub proof fn a_key_log_file_is_set_once<S, T, F>(
    connection: &mut Connection<S, T, F>,
    file: F,
    fresh: Option<(T, Result<(), Status>)>,
    needs: bool,
    answer: Result<(), ConnectionError>,
)
    requires
        call_ensures(Connection::<S, T, F>::needs_tls_secrets, (&*old(connection),), needs),
        needs ==> fresh is Some,
        call_ensures(Connection::<S, T, F>::set_sslkeylog_file, (connection, file, fresh), answer),
    ensures
        ({
            let before = old(connection)@;
            let after = final(connection)@;
            &&& needs <==> before.sslkeylog_file is None && before.tls_secrets is None
            &&& before.sslkeylog_file is Some ==> {
                &&& answer == Err::<(), ConnectionError>(ConnectionError::SslKeyLogFileAlreadySet)
                &&& after == before
            }
            &&& before.sslkeylog_file is None && !needs ==> {
                &&& answer is Ok
                &&& after == (ConnectionView { sslkeylog_file: Some(file), ..before })
            }
            &&& needs ==> (fresh matches Some((secrets, told)) ==> {
                &&& after.tls_secrets == Some(secrets)
                &&& told is Ok ==> answer is Ok && after.sslkeylog_file == Some(file)
                &&& told matches Err(status) ==> answer == Err::<(), ConnectionError>(
                    ConnectionError::OtherError(status),
                ) && after.sslkeylog_file is None
                &&& after == (ConnectionView {
                    sslkeylog_file: after.sslkeylog_file,
                    tls_secrets: after.tls_secrets,
                    ..before
                })
            })
        }),
{
}

/// A resumption ticket can be sent exactly while the connection is up, and whoever asks is told
/// what the connection is otherwise.
pub proof fn tickets_are_sent_while_up<S, T, F>(
    connection: &Connection<S, T, F>,
    answer: Result<(), ConnectionError>,
    gate: Gate,
)
    requires
        call_ensures(Connection::<S, T, F>::send_resumption_ticket, (connection,), answer),
        call_ensures(Connection::<S, T, F>::gate, (connection,), gate),
    ensures
        answer is Ok <==> connection@.state == ConnectionState::Connected,
        gate == Gate::Open <==> connection@.state == ConnectionState::Connected,
        gate == Gate::NotStarted <==> connection@.state == ConnectionState::Open,
        gate == Gate::Starting <==> connection@.state == ConnectionState::Connecting,
        connection@.state == ConnectionState::Open || connection@.state
            == ConnectionState::Connecting ==> answer == Err::<(), ConnectionError>(
            ConnectionError::ConnectionNotStarted,
        ),
        connection@.state == ConnectionState::Shutdown || connection@.state
            == ConnectionState::ShutdownComplete ==> (connection@.error matches Some(error)
            ==> answer == Err::<(), ConnectionError>(error) && gate == Gate::Lost(error)),
{
}

/// A connection starts with nothing queued, nobody waiting and nothing gone wrong: one that this
/// side opens is not started, and of one that a peer opened the handshake is under way.
pub proof fn a_new_connection_is_blank<S, T, F>(
    opened: Connection<S, T, F>,
    secrets: Option<T>,
    file: Option<F>,
    inbound: Connection<S, T, F>,
)
    requires
        call_ensures(Connection::<S, T, F>::new, (), opened),
        call_ensures(Connection::<S, T, F>::from_raw, (secrets, file), inbound),
    ensures
        opened.well_formed(),
        inbound.well_formed(),
        opened@.state == ConnectionState::Open,
        opened@.sslkeylog_file is None,
        opened@.tls_secrets is None,
        nothing_happened(opened@),
        inbound@.state == ConnectionState::Connecting,
        inbound@.sslkeylog_file == file,
        inbound@.tls_secrets == secrets,
        nothing_happened(inbound@),
{
}

/// Nothing was queued, waited for or gone wrong, and no datagram can be sent yet.
pub open spec fn nothing_happened<S, T, F>(connection: ConnectionView<S, T, F>) -> bool {
    &&& connection.error is None
    &&& connection.start_waiters.len() == 0
    &&& connection.inbound_stream_waiters.len() == 0
    &&& connection.inbound_uni_stream_waiters.len() == 0
    &&& connection.inbound_streams.len() == 0
    &&& connection.inbound_uni_streams.len() == 0
    &&& connection.recv_buffers.len() == 0
    &&& connection.recv_waiters.len() == 0
    &&& connection.write_pool == 0
    &&& !connection.dgram_send_enabled
    &&& connection.dgram_max_send_length == 0
    &&& connection.shutdown_waiters.len() == 0
    &&& connection.events.len() == 0
    &&& connection.event_waiters.len() == 0
}

/// MsQuic is done with the buffer of a datagram once the datagram is sent or will not be.
pub proof fn buffers_come_back_when_sent(state: DatagramSendState, done: bool)
    requires
        call_ensures(DatagramSendState::returns_buffer, (state,), done),
    ensures
        done <==> state == DatagramSendState::Sent || state == DatagramSendState::Canceled,
{
}

/// A connection that comes up serves its users: a stream that the peer then opens is the one that
/// is accepted, and a datagram that arrives is the one that is received.
pub proof fn a_connection_that_is_up_serves<S: Clone, T, F>(
    secrets: Option<T>,
    file: Option<F>,
    fresh: Connection<S, T, F>,
    connection: &mut Connection<S, T, F>,
    told: &TlsSecrets,
    connected: ConnectionReply<F>,
    streaming: &mut Connection<S, T, F>,
    stream: S,
    unidirectional: bool,
    stream_reply: ConnectionReply<F>,
    accepting: &mut Connection<S, T, F>,
    cx: &Context<'_>,
    accepted: Poll<Result<S, StreamStartError>>,
    accepting_uni: &mut Connection<S, T, F>,
    accepted_uni: Poll<Result<ReadStream<S>, StreamStartError>>,
    arriving: &mut Connection<S, T, F>,
    buffer: &[u8],
    datagram_reply: ConnectionReply<F>,
    receiving: &mut Connection<S, T, F>,
    received: Poll<Result<Bytes, DgramReceiveError>>,
)
    requires
        call_ensures(Connection::<S, T, F>::from_raw, (secrets, file), fresh),
        *old(connection) == fresh,
        call_ensures(
            Connection::<S, T, F>::dispatch_event,
            (connection, NativeEvent::Connected { secrets: told }),
            connected,
        ),
        *old(streaming) == *final(connection),
        call_ensures(
            Connection::<S, T, F>::dispatch_event,
            (streaming, NativeEvent::PeerStreamStarted { stream, unidirectional }),
            stream_reply,
        ),
        *old(accepting) == *final(streaming),
        call_ensures(
            Connection::<S, T, F>::poll_accept_inbound_stream,
            (accepting, cx),
            accepted,
        ),
        *old(accepting_uni) == *final(streaming),
        call_ensures(
            Connection::<S, T, F>::poll_accept_inbound_uni_stream,
            (accepting_uni, cx),
            accepted_uni,
        ),
        *old(arriving) == *final(connection),
        call_ensures(
            Connection::<S, T, F>::dispatch_event,
            (arriving, NativeEvent::DatagramReceived { buffer }),
            datagram_reply,
        ),
        *old(receiving) == *final(arriving),
        call_ensures(Connection::<S, T, F>::poll_receive_datagram, (receiving, cx), received),
    ensures
        stream_reply.result is Ok,
        !unidirectional ==> accepted == Poll::Ready(Ok::<S, StreamStartError>(stream))
            && accepted_uni is Pending,
        unidirectional ==> accepted_uni == Poll::Ready(
            Ok::<ReadStream<S>, StreamStartError>(ReadStream(stream)),
        ) && accepted is Pending,
        received matches Poll::Ready(Ok(datagram)) && bytes_data(datagram) == buffer@,
{
}

/// Two streams of one kind are accepted one after the other, in the order in which the peer opened
/// them.
pub proof fn the_second_stream_follows_the_first<S: Clone, T, F>(
    connection: &mut Connection<S, T, F>,
    first: S,
    first_reply: ConnectionReply<F>,
    later: &mut Connection<S, T, F>,
    second: S,
    second_reply: ConnectionReply<F>,
    accepting: &mut Connection<S, T, F>,
    cx: &Context<'_>,
    accepted: Poll<Result<ReadStream<S>, StreamStartError>>,
    again: &mut Connection<S, T, F>,
    accepted_again: Poll<Result<ReadStream<S>, StreamStartError>>,
)
    requires
        old(connection)@.state == ConnectionState::Connected,
        old(connection)@.inbound_uni_streams.len() == 0,
        call_ensures(
            Connection::<S, T, F>::dispatch_event,
            (connection, NativeEvent::PeerStreamStarted { stream: first, unidirectional: true }),
            first_reply,
        ),
        *old(later) == *final(connection),
        call_ensures(
            Connection::<S, T, F>::dispatch_event,
            (later, NativeEvent::PeerStreamStarted { stream: second, unidirectional: true }),
            second_reply,
        ),
        *old(accepting) == *final(later),
        call_ensures(
            Connection::<S, T, F>::poll_accept_inbound_uni_stream,
            (accepting, cx),
            accepted,
        ),
        *old(again) == *final(accepting),
        call_ensures(
            Connection::<S, T, F>::poll_accept_inbound_uni_stream,
            (again, cx),
            accepted_again,
        ),
    ensures
        first_reply.result is Ok,
        second_reply.result is Ok,
        accepted == Poll::Ready(Ok::<ReadStream<S>, StreamStartError>(ReadStream(first))),
        accepted_again == Poll::Ready(Ok::<ReadStream<S>, StreamStartError>(ReadStream(second))),
{
}

/// The reason that MsQuic tells when a connection goes away is the one that its users are told,
/// also once the shutdown is complete.
pub proof fn the_reason_is_told_to_the_end<S: Clone, T, F>(
    connection: &mut Connection<S, T, F>,
    status: Status,
    error_code: u64,
    going: ConnectionReply<F>,
    later: &mut Connection<S, T, F>,
    gone: ConnectionReply<F>,
    accepting: &mut Connection<S, T, F>,
    cx: &Context<'_>,
    accepted: Poll<Result<S, StreamStartError>>,
    closing: &mut Connection<S, T, F>,
    code: u64,
    closed: (Poll<Result<(), ShutdownError>>, Option<u64>),
)
    requires
        call_ensures(
            Connection::<S, T, F>::dispatch_event,
            (connection, NativeEvent::ShutdownInitiatedByTransport { status, error_code }),
            going,
        ),
        *old(later) == *final(connection),
        call_ensures(
            Connection::<S, T, F>::dispatch_event,
            (later, NativeEvent::ShutdownComplete),
            gone,
        ),
        *old(accepting) == *final(later),
        call_ensures(
            Connection::<S, T, F>::poll_accept_inbound_stream,
            (accepting, cx),
            accepted,
        ),
        *old(closing) == *final(later),
        call_ensures(Connection::<S, T, F>::poll_shutdown, (closing, cx, code), closed),
    ensures
        accepted == Poll::Ready(
            Err::<S, StreamStartError>(
                StreamStartError::ConnectionLost(
                    ConnectionError::ShutdownByTransport(status, error_code),
                ),
            ),
        ),
        closed.0 == Poll::Ready(
            Err::<(), ShutdownError>(
                ShutdownError::ConnectionLost(
                    ConnectionError::ShutdownByTransport(status, error_code),
                ),
            ),
        ),
{
}

/// What MsQuic told last of datagrams is what counts: a datagram is taken exactly where it said
/// that the peer takes them, and up to the length that it said.
pub proof fn datagrams_are_held_to_what_was_told_last<S: Clone, T, F>(
    connection: &mut Connection<S, T, F>,
    send_enabled: bool,
    max_send_length: u16,
    reply: ConnectionReply<F>,
    sending: &mut Connection<S, T, F>,
    datagram: &Bytes,
    sent: Result<WriteBuffer, DgramSendError>,
)
    requires
        old(connection)@.state == ConnectionState::Connected,
        call_ensures(
            Connection::<S, T, F>::dispatch_event,
            (connection, NativeEvent::DatagramStateChanged { send_enabled, max_send_length }),
            reply,
        ),
        *old(sending) == *final(connection),
        call_ensures(Connection::<S, T, F>::send_datagram, (sending, datagram), sent),
    ensures
        sent is Ok <==> send_enabled && bytes_data(*datagram).len() <= max_send_length,
        !send_enabled ==> sent == Err::<WriteBuffer, DgramSendError>(DgramSendError::Denied),
        send_enabled && sent is Err ==> sent == Err::<WriteBuffer, DgramSendError>(
            DgramSendError::TooBig,
        ),
{
}

} // verus!
