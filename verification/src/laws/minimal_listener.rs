//! What the listeners of the minimal API promise.
use std::task::{Context, Poll, Waker};

use vstd::prelude::*;

use crate::laws::{appended_is_listed, listed};
use crate::listener::ListenerState;
use crate::minimal::listener::{ListenError, Listener, ListenerEvent, ListenerView};

verus! {

/// No connection is lost: one that arrives comes last of those that wait to be accepted, and
/// nothing else that MsQuic tells changes which connections wait; stopping does not either.
pub proof fn no_connection_is_lost<C>(
    listener: &mut Listener<C>,
    event: ListenerEvent<C>,
    outcome: Vec<Waker>,
)
    requires
        call_ensures(Listener::<C>::handle_event, (listener, event), outcome),
    ensures
        match event {
            ListenerEvent::NewConnection { connection } => {
                &&& final(listener)@.new_connections == old(listener)@.new_connections.push(
                    connection,
                )
                &&& outcome@ == old(listener)@.new_connection_waiters
                &&& final(listener)@.new_connection_waiters.len() == 0
                &&& final(listener)@ == (ListenerView {
                    new_connections: final(listener)@.new_connections,
                    new_connection_waiters: final(listener)@.new_connection_waiters,
                    ..old(listener)@
                })
            },
            ListenerEvent::StopComplete => {
                &&& final(listener)@.state == ListenerState::ShutdownComplete
                &&& outcome@ == old(listener)@.new_connection_waiters + old(
                    listener,
                )@.shutdown_complete_waiters
                &&& final(listener)@.new_connection_waiters.len() == 0
                &&& final(listener)@.shutdown_complete_waiters.len() == 0
                &&& final(listener)@.new_connections == old(listener)@.new_connections
            },
            _ => outcome@.len() == 0 && final(listener)@ == old(listener)@,
        },
{
}

/// Connections are accepted in the order in which they arrived, each once, and also after the
/// listener stopped. Whoever finds none waits as long as one may come, and is told otherwise.
pub proof fn connections_are_accepted_in_order<C>(
    listener: &mut Listener<C>,
    cx: &Context<'_>,
    accepted: Poll<Result<C, ListenError>>,
)
    requires
        call_ensures(Listener::<C>::poll_accept, (listener, cx), accepted),
    ensures
        ({
            let before = old(listener)@;
            let after = final(listener)@;
            if before.new_connections.len() > 0 {
                &&& accepted matches Poll::Ready(Ok(connection))
                &&& before.new_connections == seq![connection] + after.new_connections
                &&& after == (ListenerView { new_connections: after.new_connections, ..before })
            } else {
                match before.state {
                    ListenerState::Open => {
                        &&& accepted == Poll::Ready(Err::<C, ListenError>(ListenError::NotStarted))
                        &&& after == before
                    },
                    ListenerState::StartComplete | ListenerState::Shutdown => {
                        &&& accepted is Pending
                        &&& listed(
                            before.new_connection_waiters,
                            *cx,
                            after.new_connection_waiters,
                        )
                        &&& after == (ListenerView {
                            new_connection_waiters: after.new_connection_waiters,
                            ..before
                        })
                    },
                    ListenerState::ShutdownComplete => {
                        &&& accepted == Poll::Ready(Err::<C, ListenError>(ListenError::Finished))
                        &&& after == before
                    },
                }
            }
        }),
{
    let before = old(listener)@;
    let after = final(listener)@;
    if before.new_connections.len() > 0 {
        assert(before.new_connections =~= seq![before.new_connections[0]]
            + before.new_connections.drop_first());
    } else if before.state == ListenerState::StartComplete || before.state
        == ListenerState::Shutdown {
        appended_is_listed(before.new_connection_waiters, *cx, after.new_connection_waiters);
    }
}

/// A connection that arrives while nobody was before it is the next that is accepted.
pub proof fn an_arriving_connection_is_accepted<C>(
    listener: &mut Listener<C>,
    connection: C,
    outcome: Vec<Waker>,
    accepting: &mut Listener<C>,
    cx: &Context<'_>,
    accepted: Poll<Result<C, ListenError>>,
)
    requires
        old(listener)@.new_connections.len() == 0,
        call_ensures(
            Listener::<C>::handle_event,
            (listener, ListenerEvent::NewConnection { connection }),
            outcome,
        ),
        *old(accepting) == *final(listener),
        call_ensures(Listener::<C>::poll_accept, (accepting, cx), accepted),
    ensures
        accepted == Poll::Ready(Ok::<C, ListenError>(connection)),
{
}

/// A listener is stopped once, by the first who asks of one that runs, and all who ask wait until
/// it has stopped.
pub proof fn a_listener_is_stopped_once<C>(
    listener: &mut Listener<C>,
    cx: &Context<'_>,
    stopped: (Poll<Result<(), ListenError>>, bool),
)
    requires
        call_ensures(Listener::<C>::poll_stop, (listener, cx), stopped),
    ensures
        ({
            let before = old(listener)@;
            let after = final(listener)@;
            &&& stopped.1 <==> before.state == ListenerState::StartComplete
            &&& match before.state {
                ListenerState::Open => {
                    &&& stopped.0 == Poll::Ready(Err::<(), ListenError>(ListenError::NotStarted))
                    &&& after == before
                },
                ListenerState::StartComplete | ListenerState::Shutdown => {
                    &&& stopped.0 is Pending
                    &&& listed(
                        before.shutdown_complete_waiters,
                        *cx,
                        after.shutdown_complete_waiters,
                    )
                    &&& after.state == ListenerState::Shutdown
                    &&& after == (ListenerView {
                        state: after.state,
                        shutdown_complete_waiters: after.shutdown_complete_waiters,
                        ..before
                    })
                },
                ListenerState::ShutdownComplete => {
                    &&& stopped.0 == Poll::Ready(Ok::<(), ListenError>(()))
                    &&& after == before
                },
            }
        }),
{
    let before = old(listener)@;
    let after = final(listener)@;
    if before.state == ListenerState::StartComplete || before.state == ListenerState::Shutdown {
        appended_is_listed(
            before.shutdown_complete_waiters,
            *cx,
            after.shutdown_complete_waiters,
        );
    }
}

/// A listener can be started where it was not yet or has stopped, and is refused a second start
/// while it runs. A new one is not started, and nothing waits on it.
pub proof fn a_listener_is_started_once<C>(
    listener: &mut Listener<C>,
    started: Result<(), ListenError>,
    fresh: Listener<C>,
)
    requires
        call_ensures(Listener::<C>::start, (listener,), started),
        call_ensures(Listener::<C>::new, (), fresh),
    ensures
        ({
            let can = old(listener)@.state == ListenerState::Open || old(listener)@.state
                == ListenerState::ShutdownComplete;
            &&& can ==> started is Ok
            &&& !can ==> started == Err::<(), ListenError>(ListenError::AlreadyStarted)
            &&& final(listener)@ == (ListenerView {
                state: if can {
                    ListenerState::StartComplete
                } else {
                    old(listener)@.state
                },
                ..old(listener)@
            })
        }),
        fresh@.state == ListenerState::Open,
        fresh@.new_connections.len() == 0,
        fresh@.new_connection_waiters.len() == 0,
        fresh@.shutdown_complete_waiters.len() == 0,
{
}

} // verus!
