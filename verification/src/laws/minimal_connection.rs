//! What the connections of the minimal API promise.
use std::task::{Context, Poll, Waker};

use vstd::prelude::*;

use crate::connection::ConnectionState;
use crate::laws::{appended_is_listed, listed};
use crate::minimal::connection::{
    peer_stream_type, Connection, ConnectionError, ConnectionView, Gate, NativeEvent,
    OpenOutboundStream, OpenStep,
};
use crate::minimal::stream::StartError;
use crate::stream::StreamType;

verus! {

/// Why a connection was lost does not change: what is known when the shutdown is complete is what
/// was known before it. Whoever shuts down next is told that reason, or of success where nothing
/// but this side ended the connection.
pub proof fn the_reason_of_a_loss_stays<S>(
    connection: &mut Connection<S>,
    woken: Vec<Waker>,
    closing: &mut Connection<S>,
    cx: &Context<'_>,
    error_code: u64,
    closed: (Poll<Result<(), ConnectionError>>, Option<u64>),
    accepting: &mut Connection<S>,
    accepted: Poll<Result<S, StartError>>,
)
    requires
        call_ensures(
            Connection::<S>::handle_event,
            (connection, NativeEvent::ShutdownComplete),
            woken,
        ),
        *old(closing) == *final(connection),
        call_ensures(Connection::<S>::poll_shutdown, (closing, cx, error_code), closed),
        *old(accepting) == *final(connection),
        call_ensures(Connection::<S>::poll_accept_inbound_stream, (accepting, cx), accepted),
    ensures
        final(connection)@.error == old(connection)@.error,
        closed.1 is None,
        match old(connection)@.error {
            Some(error) => {
                &&& closed.0 == Poll::Ready(Err::<(), ConnectionError>(error))
                &&& accepted == Poll::Ready(
                    Err::<S, StartError>(StartError::ConnectionLost(error)),
                )
            },
            None => {
                &&& closed.0 == Poll::Ready(Ok::<(), ConnectionError>(()))
                &&& accepted == Poll::Ready(Err::<S, StartError>(StartError::ConnectionClosed))
            },
        },
{
}

/// A connection that the transport or the peer shuts down tells so at once to everybody who uses
/// it, with the status and the error code that came with it.
pub proof fn a_shutdown_is_told<S>(
    connection: &mut Connection<S>,
    event: NativeEvent<S>,
    error: ConnectionError,
    woken: Vec<Waker>,
    accepting: &mut Connection<S>,
    cx: &Context<'_>,
    accepted: Poll<Result<S, StartError>>,
    starting: &mut Connection<S>,
    started: (Poll<Result<(), ConnectionError>>, bool),
)
    requires
        match event {
            NativeEvent::ShutdownInitiatedByTransport { status, error_code } => error
                == ConnectionError::ShutdownByTransport(status, error_code),
            NativeEvent::ShutdownInitiatedByPeer { error_code } => error
                == ConnectionError::ShutdownByPeer(error_code),
            _ => false,
        },
        call_ensures(Connection::<S>::handle_event, (connection, event), woken),
        *old(accepting) == *final(connection),
        call_ensures(Connection::<S>::poll_accept_inbound_stream, (accepting, cx), accepted),
        *old(starting) == *final(connection),
        call_ensures(Connection::<S>::poll_start, (starting, cx), started),
    ensures
        accepted == Poll::Ready(Err::<S, StartError>(StartError::ConnectionLost(error))),
        started.0 == Poll::Ready(Err::<(), ConnectionError>(error)),
        !started.1,
{
}

/// An event changes what it tells of, and nothing else. No stream of the peer is lost: one that it
/// opens comes last of those that wait to be accepted. Those who wait are woken by what they wait
/// for, all of them and nobody else.
pub proof fn an_event_changes_what_it_tells<S>(
    connection: &mut Connection<S>,
    event: NativeEvent<S>,
    woken: Vec<Waker>,
)
    requires
        call_ensures(Connection::<S>::handle_event, (connection, event), woken),
    ensures
        ({
            let before = old(connection)@;
            let after = final(connection)@;
            let going = event is ShutdownInitiatedByTransport || event is ShutdownInitiatedByPeer;
            let gone = event is ShutdownComplete;
            &&& after.state == if event is Connected {
                ConnectionState::Connected
            } else if going {
                ConnectionState::Shutdown
            } else if gone {
                ConnectionState::ShutdownComplete
            } else {
                before.state
            }
            &&& match event {
                NativeEvent::ShutdownInitiatedByTransport { status, error_code } => after.error
                    == Some(ConnectionError::ShutdownByTransport(status, error_code)),
                NativeEvent::ShutdownInitiatedByPeer { error_code } => after.error == Some(
                    ConnectionError::ShutdownByPeer(error_code),
                ),
                _ => after.error == before.error,
            }
            &&& match event {
                NativeEvent::PeerStreamStarted { stream } => after.inbound_streams
                    == before.inbound_streams.push(stream),
                _ => after.inbound_streams == before.inbound_streams,
            }
            &&& if event is Connected || going || gone {
                after.start_waiters.len() == 0
            } else {
                after.start_waiters == before.start_waiters
            }
            &&& if event is PeerStreamStarted || going || gone {
                after.inbound_stream_waiters.len() == 0
            } else {
                after.inbound_stream_waiters == before.inbound_stream_waiters
            }
            &&& if gone {
                after.shutdown_waiters.len() == 0
            } else {
                after.shutdown_waiters == before.shutdown_waiters
            }
            &&& woken@ == if event is Connected {
                before.start_waiters
            } else if going {
                before.start_waiters + before.inbound_stream_waiters
            } else if gone {
                before.start_waiters + before.inbound_stream_waiters + before.shutdown_waiters
            } else if event is PeerStreamStarted {
                before.inbound_stream_waiters
            } else {
                Seq::empty()
            }
        }),
{
}

/// The task of `cx` waits for the connection to start, and nothing else changed.
pub open spec fn waits_for_the_start<S>(
    before: ConnectionView<S>,
    cx: Context<'_>,
    after: ConnectionView<S>,
) -> bool {
    &&& listed(before.start_waiters, cx, after.start_waiters)
    &&& after == (ConnectionView { start_waiters: after.start_waiters, ..before })
}

/// Streams are accepted in the order in which the peer opened them, each once, while the connection
/// is up. Whoever finds none waits for one; a connection that cannot be used tells why.
pub proof fn streams_are_accepted_in_order<S>(
    connection: &mut Connection<S>,
    cx: &Context<'_>,
    accepted: Poll<Result<S, StartError>>,
)
    requires
        call_ensures(Connection::<S>::poll_accept_inbound_stream, (connection, cx), accepted),
    ensures
        ({
            let before = old(connection)@;
            let after = final(connection)@;
            match before.state {
                ConnectionState::Open => {
                    &&& accepted == Poll::Ready(Err::<S, StartError>(StartError::ConnectionClosed))
                    &&& after == before
                },
                ConnectionState::Connecting => {
                    &&& accepted is Pending
                    &&& waits_for_the_start(before, *cx, after)
                },
                ConnectionState::Connected => {
                    &&& before.inbound_streams.len() > 0 ==> {
                        &&& accepted matches Poll::Ready(Ok(stream))
                        &&& before.inbound_streams == seq![stream] + after.inbound_streams
                        &&& after == (ConnectionView {
                            inbound_streams: after.inbound_streams,
                            ..before
                        })
                    }
                    &&& before.inbound_streams.len() == 0 ==> {
                        &&& accepted is Pending
                        &&& listed(
                            before.inbound_stream_waiters,
                            *cx,
                            after.inbound_stream_waiters,
                        )
                        &&& after == (ConnectionView {
                            inbound_stream_waiters: after.inbound_stream_waiters,
                            ..before
                        })
                    }
                },
                _ => {
                    &&& before.error matches Some(error) ==> accepted == Poll::Ready(
                        Err::<S, StartError>(StartError::ConnectionLost(error)),
                    )
                    &&& before.error is None ==> accepted == Poll::Ready(
                        Err::<S, StartError>(StartError::ConnectionClosed),
                    )
                    &&& after == before
                },
            }
        }),
{
    let before = old(connection)@;
    let after = final(connection)@;
    if before.state == ConnectionState::Connecting {
        appended_is_listed(before.start_waiters, *cx, after.start_waiters);
    } else if before.state == ConnectionState::Connected {
        if before.inbound_streams.len() > 0 {
            assert(before.inbound_streams =~= seq![before.inbound_streams[0]]
                + before.inbound_streams.drop_first());
        } else {
            appended_is_listed(
                before.inbound_stream_waiters,
                *cx,
                after.inbound_stream_waiters,
            );
        }
    }
}

/// A connection is started once; whoever waits for the start is told once it is over: of success
/// where the connection is up, else of the reason.
pub proof fn a_connection_is_started_once<S>(
    connection: &mut Connection<S>,
    cx: &Context<'_>,
    started: (Poll<Result<(), ConnectionError>>, bool),
    gate: Gate,
)
    requires
        call_ensures(Connection::<S>::gate, (&*old(connection),), gate),
        call_ensures(Connection::<S>::poll_start, (connection, cx), started),
    ensures
        ({
            let before = old(connection)@;
            let after = final(connection)@;
            &&& started.1 <==> before.state == ConnectionState::Open
            &&& match before.state {
                ConnectionState::Open | ConnectionState::Connecting => {
                    &&& started.0 is Pending
                    &&& waits_for_the_start(
                        ConnectionView { state: ConnectionState::Connecting, ..before },
                        *cx,
                        after,
                    )
                    &&& gate == if before.state == ConnectionState::Open {
                        Gate::NotStarted
                    } else {
                        Gate::Starting
                    }
                },
                ConnectionState::Connected => {
                    &&& started.0 == Poll::Ready(Ok::<(), ConnectionError>(()))
                    &&& after == before
                    &&& gate == Gate::Open
                },
                _ => {
                    &&& started.0 == Poll::Ready(
                        Err::<(), ConnectionError>(
                            match before.error {
                                Some(error) => error,
                                None => ConnectionError::ConnectionClosed,
                            },
                        ),
                    )
                    &&& after == before
                    &&& gate == Gate::Gone(before.error)
                },
            }
        }),
{
    if !(old(connection)@.state == ConnectionState::Connected) && started.0 is Pending {
        appended_is_listed(
            old(connection)@.start_waiters,
            *cx,
            final(connection)@.start_waiters,
        );
    }
}

/// A connection is shut down by this side once, with the error code of the first who asks, and only
/// where it is up. Whoever waits for the shutdown is told once it is complete.
pub proof fn a_connection_is_shut_down_once<S>(
    connection: &mut Connection<S>,
    cx: &Context<'_>,
    error_code: u64,
    closed: (Poll<Result<(), ConnectionError>>, Option<u64>),
    dropped: Option<u64>,
)
    requires
        call_ensures(Connection::<S>::close, (&*old(connection),), dropped),
        call_ensures(Connection::<S>::poll_shutdown, (connection, cx, error_code), closed),
    ensures
        ({
            let before = old(connection)@;
            let after = final(connection)@;
            &&& closed.1 == if before.state == ConnectionState::Connected {
                Some(error_code)
            } else {
                None
            }
            &&& dropped == if before.state == ConnectionState::Shutdown || before.state
                == ConnectionState::ShutdownComplete {
                None
            } else {
                Some(0u64)
            }
            &&& match before.state {
                ConnectionState::Open => {
                    &&& closed.0 == Poll::Ready(
                        Err::<(), ConnectionError>(ConnectionError::ConnectionNotStarted),
                    )
                    &&& after == before
                },
                ConnectionState::Connecting => {
                    &&& closed.0 is Pending
                    &&& waits_for_the_start(before, *cx, after)
                },
                ConnectionState::Connected | ConnectionState::Shutdown => {
                    &&& closed.0 is Pending
                    &&& listed(before.shutdown_waiters, *cx, after.shutdown_waiters)
                    &&& after.state == ConnectionState::Shutdown
                    &&& after == (ConnectionView {
                        state: after.state,
                        shutdown_waiters: after.shutdown_waiters,
                        ..before
                    })
                },
                ConnectionState::ShutdownComplete => {
                    &&& before.error matches Some(error) ==> closed.0 == Poll::Ready(
                        Err::<(), ConnectionError>(error),
                    )
                    &&& before.error is None ==> closed.0 == Poll::Ready(
                        Ok::<(), ConnectionError>(()),
                    )
                    &&& after == before
                },
            }
        }),
{
    let before = old(connection)@;
    let after = final(connection)@;
    match before.state {
        ConnectionState::Connecting => {
            appended_is_listed(before.start_waiters, *cx, after.start_waiters);
        },
        ConnectionState::Connected | ConnectionState::Shutdown => {
            appended_is_listed(before.shutdown_waiters, *cx, after.shutdown_waiters);
        },
        _ => {},
    }
}

/// A connection starts with nothing queued, nobody waiting and nothing gone wrong: one that this
/// side opens is not started, and one that a peer opened is up.
pub proof fn a_new_connection_is_blank<S>(opened: Connection<S>, inbound: Connection<S>)
    requires
        call_ensures(Connection::<S>::new, (), opened),
        call_ensures(Connection::<S>::from_handle, (), inbound),
    ensures
        opened@.state == ConnectionState::Open,
        inbound@.state == ConnectionState::Connected,
        nothing_happened(opened@),
        nothing_happened(inbound@),
{
}

/// Nothing was queued, waited for or gone wrong.
pub open spec fn nothing_happened<S>(connection: ConnectionView<S>) -> bool {
    &&& connection.error is None
    &&& connection.start_waiters.len() == 0
    &&& connection.inbound_stream_waiters.len() == 0
    &&& connection.inbound_streams.len() == 0
    &&& connection.shutdown_waiters.len() == 0
}

/// The type of a stream of the peer is the one that it was opened with.
pub proof fn a_peers_stream_keeps_its_type(unidirectional: bool, stream_type: StreamType)
    requires
        call_ensures(peer_stream_type, (unidirectional,), stream_type),
    ensures
        stream_type == StreamType::Unidirectional <==> unidirectional,
{
}

/// A stream is opened only while the connection is up, and only once; before that whoever wants it
/// waits for the start, and where that is in vain is told why.
pub proof fn a_stream_is_opened_while_up<S>(
    open: &mut OpenOutboundStream<S>,
    connection: &mut Connection<S>,
    cx: &Context<'_>,
    step: OpenStep,
    live: bool,
)
    requires
        call_ensures(OpenOutboundStream::<S>::is_live, (&*old(open),), live),
        call_ensures(OpenOutboundStream::<S>::poll_step, (open, connection, cx), step),
    ensures
        live <==> old(open).stream is Some || old(open).stream_type is Some,
        final(open).fail_on_blocked == old(open).fail_on_blocked,
        final(open).stream == old(open).stream,
        match old(connection)@.state {
            ConnectionState::Open => {
                &&& step == OpenStep::Fail(StartError::ConnectionClosed)
                &&& *final(open) == *old(open)
                &&& final(connection)@ == old(connection)@
            },
            ConnectionState::Connecting => {
                &&& step == OpenStep::Wait
                &&& *final(open) == *old(open)
                &&& waits_for_the_start(old(connection)@, *cx, final(connection)@)
            },
            ConnectionState::Connected => {
                &&& old(open).stream is Some ==> step == OpenStep::Start && *final(open) == *old(
                    open,
                )
                &&& old(open).stream is None ==> (old(open).stream_type matches Some(stream_type)
                    ==> step == OpenStep::Open(stream_type) && final(open).stream_type is None)
                &&& final(connection)@ == old(connection)@
            },
            _ => {
                &&& step == OpenStep::Fail(
                    match old(connection)@.error {
                        Some(error) => StartError::ConnectionLost(error),
                        None => StartError::ConnectionClosed,
                    },
                )
                &&& *final(open) == *old(open)
                &&& final(connection)@ == old(connection)@
            },
        },
{
    if old(connection)@.state == ConnectionState::Connecting {
        appended_is_listed(
            old(connection)@.start_waiters,
            *cx,
            final(connection)@.start_waiters,
        );
    }
}

/// The stream that was opened is the one that is handed out, once it is started; an error of the
/// start is told as it is.
pub proof fn the_opened_stream_is_handed_out<S>(
    stream_type: StreamType,
    fail_on_blocked: bool,
    fresh: OpenOutboundStream<S>,
    open: &mut OpenOutboundStream<S>,
    stream: S,
    starting: &mut OpenOutboundStream<S>,
    outcome: Poll<Result<(), StartError>>,
    answer: Poll<Result<S, StartError>>,
)
    requires
        call_ensures(OpenOutboundStream::<S>::new, (stream_type, fail_on_blocked), fresh),
        call_ensures(OpenOutboundStream::<S>::opened, (open, stream), ()),
        *old(starting) == *final(open),
        call_ensures(OpenOutboundStream::<S>::started, (starting, outcome), answer),
    ensures
        fresh.stream_type == Some(stream_type),
        fresh.stream is None,
        fresh.fail_on_blocked == fail_on_blocked,
        final(open).stream == Some(stream),
        final(open).stream_type == old(open).stream_type,
        final(open).fail_on_blocked == old(open).fail_on_blocked,
        final(starting).stream_type == old(open).stream_type,
        final(starting).fail_on_blocked == old(open).fail_on_blocked,
        match outcome {
            Poll::Ready(Ok(())) => {
                &&& answer == Poll::Ready(Ok::<S, StartError>(stream))
                &&& final(starting).stream is None
            },
            Poll::Ready(Err(error)) => {
                &&& answer == Poll::Ready(Err::<S, StartError>(error))
                &&& final(starting).stream == Some(stream)
            },
            Poll::Pending => answer is Pending && final(starting).stream == Some(stream),
        },
{
}

} // verus!
