//! Listeners.
use std::collections::VecDeque;
use std::task::{Context, Poll, Waker};

use vstd::prelude::*;

use crate::listener::ListenerState;
use crate::sync::{append_waker, appended, context_waker, drain_wakers};

verus! {

/// Errors that can occur when listening for connections.
#[derive(Clone, Copy, Debug, PartialEq, Eq, Structural)]
pub enum ListenError {
    NotStarted,
    AlreadyStarted,
    Finished,
}

/// What MsQuic tells of a listener. `C` is a handle to a connection.
pub enum ListenerEvent<C> {
    NewConnection { connection: C },
    StopComplete,
    Other,
}

/// Listener for incoming connections. `C` is a handle to a connection.
pub struct Listener<C> {
    state: ListenerState,
    new_connections: VecDeque<C>,
    new_connection_waiters: Vec<Waker>,
    shutdown_complete_waiters: Vec<Waker>,
}

/// What a [`Listener`] holds.
#[verifier::ext_equal]
#[verifier::reject_recursive_types(C)]
pub struct ListenerView<C> {
    pub state: ListenerState,
    /// Connections that nobody accepted yet.
    pub new_connections: Seq<C>,
    pub new_connection_waiters: Seq<Waker>,
    pub shutdown_complete_waiters: Seq<Waker>,
}

impl<C> View for Listener<C> {
    type V = ListenerView<C>;

    closed spec fn view(&self) -> ListenerView<C> {
        ListenerView {
            state: self.state,
            new_connections: self.new_connections@,
            new_connection_waiters: self.new_connection_waiters@,
            shutdown_complete_waiters: self.shutdown_complete_waiters@,
        }
    }
}

impl<C> ListenerView<C> {
    /// What an event makes of the listener.
    pub open spec fn after_event(self, event: ListenerEvent<C>) -> ListenerView<C> {
        match event {
            ListenerEvent::NewConnection { connection } => ListenerView {
                new_connections: self.new_connections.push(connection),
                new_connection_waiters: Seq::empty(),
                ..self
            },
            ListenerEvent::StopComplete => ListenerView {
                state: ListenerState::ShutdownComplete,
                new_connection_waiters: Seq::empty(),
                shutdown_complete_waiters: Seq::empty(),
                ..self
            },
            ListenerEvent::Other => self,
        }
    }

    /// The wakers that an event hands out.
    pub open spec fn woken_by(self, event: ListenerEvent<C>) -> Seq<Waker> {
        match event {
            ListenerEvent::NewConnection { .. } => self.new_connection_waiters,
            ListenerEvent::StopComplete => self.new_connection_waiters
                + self.shutdown_complete_waiters,
            ListenerEvent::Other => Seq::empty(),
        }
    }
}

impl<C> Listener<C> {
    /// A listener that is not started yet.
    pub fn new() -> (listener: Self)
        ensures
            listener@ == (ListenerView::<C> {
                state: ListenerState::Open,
                new_connections: Seq::empty(),
                new_connection_waiters: Seq::empty(),
                shutdown_complete_waiters: Seq::empty(),
            }),
    {
        Listener {
            state: ListenerState::Open,
            new_connections: VecDeque::new(),
            new_connection_waiters: Vec::new(),
            shutdown_complete_waiters: Vec::new(),
        }
    }

    /// Start the listener. Where that is right, start the native listener.
    pub fn start(&mut self) -> (answer: Result<(), ListenError>)
        ensures
            if old(self)@.state == ListenerState::Open || old(self)@.state
                == ListenerState::ShutdownComplete {
                &&& answer == Ok::<(), ListenError>(())
                &&& final(self)@ == (ListenerView {
                    state: ListenerState::StartComplete,
                    ..old(self)@
                })
            } else {
                &&& answer == Err::<(), ListenError>(ListenError::AlreadyStarted)
                &&& final(self)@ == old(self)@
            },
    {
        match self.state {
            ListenerState::Open | ListenerState::ShutdownComplete => {},
            ListenerState::StartComplete | ListenerState::Shutdown => {
                return Err(ListenError::AlreadyStarted);
            },
        }
        self.state = ListenerState::StartComplete;
        Ok(())
    }

    /// Accept a new connection. Those that arrived before the listener stopped can still be
    /// accepted afterwards.
    pub fn poll_accept(&mut self, cx: &Context<'_>) -> (answer: Poll<Result<C, ListenError>>)
        ensures
            if old(self)@.new_connections.len() > 0 {
                &&& answer == Poll::<Result<C, ListenError>>::Ready(
                    Ok(old(self)@.new_connections[0]),
                )
                &&& final(self)@ == (ListenerView {
                    new_connections: old(self)@.new_connections.drop_first(),
                    ..old(self)@
                })
            } else {
                match old(self)@.state {
                    ListenerState::Open => {
                        &&& answer == Poll::<Result<C, ListenError>>::Ready(
                            Err(ListenError::NotStarted),
                        )
                        &&& final(self)@ == old(self)@
                    },
                    ListenerState::StartComplete | ListenerState::Shutdown => {
                        &&& answer == Poll::<Result<C, ListenError>>::Pending
                        &&& appended(
                            old(self)@.new_connection_waiters,
                            context_waker(*cx),
                            final(self)@.new_connection_waiters,
                        )
                        &&& final(self)@ == (ListenerView {
                            new_connection_waiters: final(self)@.new_connection_waiters,
                            ..old(self)@
                        })
                    },
                    ListenerState::ShutdownComplete => {
                        &&& answer == Poll::<Result<C, ListenError>>::Ready(
                            Err(ListenError::Finished),
                        )
                        &&& final(self)@ == old(self)@
                    },
                }
            },
    {
        if let Some(connection) = self.new_connections.pop_front() {
            assert(self@.new_connections =~= old(self)@.new_connections.drop_first());
            return Poll::Ready(Ok(connection));
        }
        match self.state {
            ListenerState::Open => {
                return Poll::Ready(Err(ListenError::NotStarted));
            },
            ListenerState::StartComplete | ListenerState::Shutdown => {},
            ListenerState::ShutdownComplete => {
                return Poll::Ready(Err(ListenError::Finished));
            },
        }
        append_waker(&mut self.new_connection_waiters, cx);
        Poll::Pending
    }

    /// Stop the listener, and wait for that. The flag that comes back tells to stop the native
    /// listener.
    pub fn poll_stop(&mut self, cx: &Context<'_>) -> (answer: (
        Poll<Result<(), ListenError>>,
        bool,
    ))
        ensures
            match old(self)@.state {
                ListenerState::Open => {
                    &&& answer.0 == Poll::<Result<(), ListenError>>::Ready(
                        Err(ListenError::NotStarted),
                    )
                    &&& !answer.1
                    &&& final(self)@ == old(self)@
                },
                ListenerState::StartComplete | ListenerState::Shutdown => {
                    &&& answer.0 == Poll::<Result<(), ListenError>>::Pending
                    &&& answer.1 == (old(self)@.state == ListenerState::StartComplete)
                    &&& appended(
                        old(self)@.shutdown_complete_waiters,
                        context_waker(*cx),
                        final(self)@.shutdown_complete_waiters,
                    )
                    &&& final(self)@ == (ListenerView {
                        state: ListenerState::Shutdown,
                        shutdown_complete_waiters: final(self)@.shutdown_complete_waiters,
                        ..old(self)@
                    })
                },
                ListenerState::ShutdownComplete => {
                    &&& answer.0 == Poll::<Result<(), ListenError>>::Ready(Ok(()))
                    &&& !answer.1
                    &&& final(self)@ == old(self)@
                },
            },
    {
        let mut call_stop: bool = false;
        match self.state {
            ListenerState::Open => {
                return (Poll::Ready(Err(ListenError::NotStarted)), false);
            },
            ListenerState::StartComplete => {
                call_stop = true;
                self.state = ListenerState::Shutdown;
            },
            ListenerState::Shutdown => {},
            ListenerState::ShutdownComplete => {
                return (Poll::Ready(Ok(())), false);
            },
        }
        append_waker(&mut self.shutdown_complete_waiters, cx);
        (Poll::Pending, call_stop)
    }

    /// Take an event in. Wake the wakers that come back.
    pub fn handle_event(&mut self, event: ListenerEvent<C>) -> (woken: Vec<Waker>)
        ensures
            final(self)@ == old(self)@.after_event(event),
            woken@ == old(self)@.woken_by(event),
    {
        match event {
            ListenerEvent::NewConnection { connection } => {
                self.new_connections.push_back(connection);
                drain_wakers(&mut self.new_connection_waiters)
            },
            ListenerEvent::StopComplete => {
                self.state = ListenerState::ShutdownComplete;
                let mut woken = drain_wakers(&mut self.new_connection_waiters);
                woken.append(&mut self.shutdown_complete_waiters);
                woken
            },
            ListenerEvent::Other => Vec::new(),
        }
    }
}

/// A task that waits for a connection is woken when one arrives, and when the listener has
/// stopped; what arrived before stays to be accepted.
pub proof fn acceptors_are_woken<C>(listener: ListenerView<C>, event: ListenerEvent<C>)
    requires
        listener.after_event(event).new_connections != listener.new_connections
            || listener.after_event(event).state != listener.state,
    ensures
        listener.after_event(event).new_connection_waiters == Seq::<Waker>::empty(),
        listener.new_connection_waiters.is_prefix_of(listener.woken_by(event)),
        listener.new_connections.is_prefix_of(listener.after_event(event).new_connections),
{
    assert(listener.new_connection_waiters =~= listener.woken_by(event).take(
        listener.new_connection_waiters.len() as int,
    ));
    assert(listener.new_connections =~= listener.after_event(event).new_connections.take(
        listener.new_connections.len() as int,
    ));
}

/// A task that waits for the listener to stop is woken once it has, and finds that it has.
pub proof fn stoppers_are_woken<C>(listener: ListenerView<C>)
    ensures
        ({
            let after = listener.after_event(ListenerEvent::StopComplete);
            &&& after.state == ListenerState::ShutdownComplete
            &&& after.shutdown_complete_waiters == Seq::<Waker>::empty()
        }),
        forall|i: int|
            0 <= i < listener.shutdown_complete_waiters.len() ==> listener.woken_by(
                ListenerEvent::StopComplete,
            ).contains(#[trigger] listener.shutdown_complete_waiters[i]),
{
    let woken = listener.woken_by(ListenerEvent::StopComplete);
    assert forall|i: int| 0 <= i < listener.shutdown_complete_waiters.len() implies woken.contains(
        #[trigger] listener.shutdown_complete_waiters[i],
    ) by {
        assert(woken[listener.new_connection_waiters.len() + i]
            == listener.shutdown_complete_waiters[i]);
    }
}

} // verus!
