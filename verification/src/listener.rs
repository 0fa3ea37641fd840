//! Listeners.
use std::collections::VecDeque;
use std::task::{Context, Poll, Waker};

use vstd::prelude::*;

use crate::status::Status;
use crate::sync::{context_waker, drain_wakers, register_waker, registered};

verus! {

/// Errors that can occur when listening for connections.
#[derive(Clone, Copy, Debug, PartialEq, Eq, Structural)]
pub enum ListenError {
    NotStarted,
    AlreadyStarted,
    Finished,
    Failed,
    OtherError(Status),
}

#[derive(Clone, Copy, Debug, PartialEq, Eq, Structural)]
pub enum ListenerState {
    Open,
    StartComplete,
    Shutdown,
    ShutdownComplete,
}

/// What MsQuic tells of a listener. `C` is a handle to a connection.
pub enum ListenerEvent<C> {
    /// A peer opened a connection, which was given the listener's configuration; or the status
    /// with which that failed.
    NewConnection { connection: Result<C, Status> },
    /// The listener has stopped.
    StopComplete,
}

/// Listener for incoming connections. `C` is a handle to a connection.
///
/// The listener decides: what it asks of MsQuic comes back from its methods as values, for the
/// owner of the native handle to carry out.
pub struct Listener<C> {
    state: ListenerState,
    new_connections: VecDeque<C>,
    new_connection_waiters: Vec<Waker>,
    shutdown_complete_waiters: Vec<Waker>,
}

/// What a [`Listener`] holds.
#[verifier::ext_equal]
#[verifier::reject_recursive_types(C)]
pub struct ListenerView<C> {
    pub state: ListenerState,
    /// Connections that nobody accepted yet.
    pub new_connections: Seq<C>,
    pub new_connection_waiters: Seq<Waker>,
    pub shutdown_complete_waiters: Seq<Waker>,
}

impl<C> View for Listener<C> {
    type V = ListenerView<C>;

    closed spec fn view(&self) -> ListenerView<C> {
        ListenerView {
            state: self.state,
            new_connections: self.new_connections@,
            new_connection_waiters: self.new_connection_waiters@,
            shutdown_complete_waiters: self.shutdown_complete_waiters@,
        }
    }
}

impl<C> ListenerView<C> {
    /// The listener can be started: it was not yet, or it has stopped.
    pub open spec fn can_start(self) -> bool {
        self.state == ListenerState::Open || self.state == ListenerState::ShutdownComplete
    }

    /// What an event makes of the listener.
    pub open spec fn after_event(self, event: ListenerEvent<C>) -> ListenerView<C> {
        match event {
            ListenerEvent::NewConnection { connection: Ok(connection) } => ListenerView {
                new_connections: self.new_connections.push(connection),
                new_connection_waiters: Seq::empty(),
                ..self
            },
            ListenerEvent::NewConnection { connection: Err(_) } => self,
            ListenerEvent::StopComplete => ListenerView {
                state: ListenerState::ShutdownComplete,
                new_connection_waiters: Seq::empty(),
                shutdown_complete_waiters: Seq::empty(),
                ..self
            },
        }
    }

    /// The wakers that an event hands out.
    pub open spec fn woken_by(self, event: ListenerEvent<C>) -> Seq<Waker> {
        match event {
            ListenerEvent::NewConnection { connection: Ok(_) } => self.new_connection_waiters,
            ListenerEvent::NewConnection { connection: Err(_) } => Seq::empty(),
            ListenerEvent::StopComplete => self.new_connection_waiters
                + self.shutdown_complete_waiters,
        }
    }
}

impl<C> Listener<C> {
    /// A listener that is not started yet.
    pub fn new() -> (listener: Self)
        ensures
            listener@ == (ListenerView::<C> {
                state: ListenerState::Open,
                new_connections: Seq::empty(),
                new_connection_waiters: Seq::empty(),
                shutdown_complete_waiters: Seq::empty(),
            }),
    {
        Listener {
            state: ListenerState::Open,
            new_connections: VecDeque::new(),
            new_connection_waiters: Vec::new(),
            shutdown_complete_waiters: Vec::new(),
        }
    }

    /// Whether the native listener can be started.
    pub fn can_start(&self) -> (can: bool)
        ensures
            can == self@.can_start(),
    {
        match self.state {
            ListenerState::Open | ListenerState::ShutdownComplete => true,
            ListenerState::StartComplete | ListenerState::Shutdown => false,
        }
    }

    /// Start the listener. `started` is what came of starting the native listener, which only
    /// counts where [`Listener::can_start`].
    pub fn start(&mut self, started: Result<(), Status>) -> (answer: Result<(), ListenError>)
        ensures
            if old(self)@.can_start() {
                match started {
                    Ok(()) => {
                        &&& answer == Ok::<(), ListenError>(())
                        &&& final(self)@ == (ListenerView {
                            state: ListenerState::StartComplete,
                            ..old(self)@
                        })
                    },
                    Err(status) => {
                        &&& answer == Err::<(), ListenError>(ListenError::OtherError(status))
                        &&& final(self)@ == old(self)@
                    },
                }
            } else {
                &&& answer == Err::<(), ListenError>(ListenError::AlreadyStarted)
                &&& final(self)@ == old(self)@
            },
    {
        if !self.can_start() {
            return Err(ListenError::AlreadyStarted);
        }
        match started {
            Ok(()) => {
                self.state = ListenerState::StartComplete;
                Ok(())
            },
            Err(status) => Err(ListenError::OtherError(status)),
        }
    }

    /// Accept a new connection. Those that arrived before the listener stopped can still be
    /// accepted afterwards.
    pub fn poll_accept(&mut self, cx: &Context<'_>) -> (answer: Poll<Result<C, ListenError>>)
        ensures
            if old(self)@.new_connections.len() > 0 {
                &&& answer == Poll::<Result<C, ListenError>>::Ready(
                    Ok(old(self)@.new_connections[0]),
                )
                &&& final(self)@ == (ListenerView {
                    new_connections: old(self)@.new_connections.drop_first(),
                    ..old(self)@
                })
            } else {
                match old(self)@.state {
                    ListenerState::Open => {
                        &&& answer == Poll::<Result<C, ListenError>>::Ready(
                            Err(ListenError::NotStarted),
                        )
                        &&& final(self)@ == old(self)@
                    },
                    ListenerState::StartComplete | ListenerState::Shutdown => {
                        &&& answer == Poll::<Result<C, ListenError>>::Pending
                        &&& registered(
                            old(self)@.new_connection_waiters,
                            context_waker(*cx),
                            final(self)@.new_connection_waiters,
                        )
                        &&& final(self)@ == (ListenerView {
                            new_connection_waiters: final(self)@.new_connection_waiters,
                            ..old(self)@
                        })
                    },
                    ListenerState::ShutdownComplete => {
                        &&& answer == Poll::<Result<C, ListenError>>::Ready(
                            Err(ListenError::Finished),
                        )
                        &&& final(self)@ == old(self)@
                    },
                }
            },
    {
        if let Some(connection) = self.new_connections.pop_front() {
            assert(self@.new_connections =~= old(self)@.new_connections.drop_first());
            return Poll::Ready(Ok(connection));
        }
        match self.state {
            ListenerState::Open => {
                return Poll::Ready(Err(ListenError::NotStarted));
            },
            ListenerState::StartComplete | ListenerState::Shutdown => {},
            ListenerState::ShutdownComplete => {
                return Poll::Ready(Err(ListenError::Finished));
            },
        }
        register_waker(&mut self.new_connection_waiters, cx);
        Poll::Pending
    }

    /// Stop the listener, and wait for that. The flag that comes back tells to stop the native
    /// listener.
    pub fn poll_stop(&mut self, cx: &Context<'_>) -> (answer: (
        Poll<Result<(), ListenError>>,
        bool,
    ))
        ensures
            match old(self)@.state {
                ListenerState::Open => {
                    &&& answer.0 == Poll::<Result<(), ListenError>>::Ready(
                        Err(ListenError::NotStarted),
                    )
                    &&& !answer.1
                    &&& final(self)@ == old(self)@
                },
                ListenerState::StartComplete | ListenerState::Shutdown => {
                    &&& answer.0 == Poll::<Result<(), ListenError>>::Pending
                    &&& answer.1 == (old(self)@.state == ListenerState::StartComplete)
                    &&& registered(
                        old(self)@.shutdown_complete_waiters,
                        context_waker(*cx),
                        final(self)@.shutdown_complete_waiters,
                    )
                    &&& final(self)@ == (ListenerView {
                        state: ListenerState::Shutdown,
                        shutdown_complete_waiters: final(self)@.shutdown_complete_waiters,
                        ..old(self)@
                    })
                },
                ListenerState::ShutdownComplete => {
                    &&& answer.0 == Poll::<Result<(), ListenError>>::Ready(Ok(()))
                    &&& !answer.1
                    &&& final(self)@ == old(self)@
                },
            },
    {
        let mut call_stop: bool = false;
        match self.state {
            ListenerState::Open => {
                return (Poll::Ready(Err(ListenError::NotStarted)), false);
            },
            ListenerState::StartComplete => {
                call_stop = true;
                self.state = ListenerState::Shutdown;
            },
            ListenerState::Shutdown => {},
            ListenerState::ShutdownComplete => {
                return (Poll::Ready(Ok(())), false);
            },
        }
        register_waker(&mut self.shutdown_complete_waiters, cx);
        (Poll::Pending, call_stop)
    }

    fn handle_event_new_connection(&mut self, connection: Result<C, Status>) -> (outcome: (
        Result<(), Status>,
        Vec<Waker>,
    ))
        ensures
            final(self)@ == old(self)@.after_event(ListenerEvent::NewConnection { connection }),
            outcome.0 == match connection {
                Ok(_) => Ok::<(), Status>(()),
                Err(status) => Err(status),
            },
            outcome.1@ == old(self)@.woken_by(ListenerEvent::NewConnection { connection }),
    {
        match connection {
            Ok(connection) => {
                self.new_connections.push_back(connection);
                (Ok(()), drain_wakers(&mut self.new_connection_waiters))
            },
            Err(status) => (Err(status), Vec::new()),
        }
    }

    fn handle_event_stop_complete(&mut self) -> (woken: Vec<Waker>)
        ensures
            final(self)@ == old(self)@.after_event(ListenerEvent::StopComplete),
            woken@ == old(self)@.woken_by(ListenerEvent::StopComplete),
    {
        self.state = ListenerState::ShutdownComplete;
        let mut woken = drain_wakers(&mut self.new_connection_waiters);
        woken.append(&mut self.shutdown_complete_waiters);
        woken
    }

    /// Take an event in. Wake the wakers that come back, and answer MsQuic with the result.
    pub fn handle_event(&mut self, event: ListenerEvent<C>) -> (outcome: (
        Result<(), Status>,
        Vec<Waker>,
    ))
        ensures
            final(self)@ == old(self)@.after_event(event),
            outcome.0 == match event {
                ListenerEvent::NewConnection { connection: Err(status) } => Err::<(), Status>(
                    status,
                ),
                _ => Ok(()),
            },
            outcome.1@ == old(self)@.woken_by(event),
    {
        match event {
            ListenerEvent::NewConnection { connection } => {
                self.handle_event_new_connection(connection)
            },
            ListenerEvent::StopComplete => (Ok(()), self.handle_event_stop_complete()),
        }
    }
}

/// A task that waits for a connection is woken when one arrives, and when the listener has
/// stopped.
pub proof fn acceptors_are_woken<C>(listener: ListenerView<C>, event: ListenerEvent<C>)
    requires
        listener.after_event(event).new_connections != listener.new_connections
            || listener.after_event(event).state != listener.state,
    ensures
        listener.after_event(event).new_connection_waiters == Seq::<Waker>::empty(),
        listener.new_connection_waiters.is_prefix_of(listener.woken_by(event)),
{
    assert(listener.new_connection_waiters =~= listener.woken_by(event).take(
        listener.new_connection_waiters.len() as int,
    ));
}

/// A task that waits for the listener to stop is woken once it has, and finds that it has.
pub proof fn stoppers_are_woken<C>(listener: ListenerView<C>)
    ensures
        ({
            let after = listener.after_event(ListenerEvent::StopComplete);
            &&& after.state == ListenerState::ShutdownComplete
            &&& after.shutdown_complete_waiters == Seq::<Waker>::empty()
        }),
        forall|i: int|
            0 <= i < listener.shutdown_complete_waiters.len() ==> listener.woken_by(
                ListenerEvent::StopComplete,
            ).contains(#[trigger] listener.shutdown_complete_waiters[i]),
{
    let woken = listener.woken_by(ListenerEvent::StopComplete);
    assert forall|i: int| 0 <= i < listener.shutdown_complete_waiters.len() implies woken.contains(
        #[trigger] listener.shutdown_complete_waiters[i],
    ) by {
        assert(woken[listener.new_connection_waiters.len() + i]
            == listener.shutdown_complete_waiters[i]);
    }
}

/// No connection is lost by stopping: those that arrived before stay to be accepted, in the order
/// in which they arrived.
pub proof fn stopping_keeps_connections<C>(listener: ListenerView<C>, event: ListenerEvent<C>)
    ensures
        listener.new_connections.is_prefix_of(listener.after_event(event).new_connections),
{
    assert(listener.new_connections =~= listener.after_event(event).new_connections.take(
        listener.new_connections.len() as int,
    ));
}

} // verus!
