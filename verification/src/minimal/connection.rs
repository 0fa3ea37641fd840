//! Connections.
use std::collections::VecDeque;
use std::task::{Context, Poll, Waker};

use vstd::prelude::*;

use crate::connection::ConnectionState;
use crate::minimal::stream::StartError;
use crate::stream::StreamType;
use crate::sync::{append_waker, appended, context_waker, drain_wakers};

verus! {

/// Errors that can occur when managing a connection.
#[derive(Clone, Copy, Debug, PartialEq, Eq, Structural)]
pub enum ConnectionError {
    ShutdownByTransport(u32, u64),
    ShutdownByPeer(u64),
    ShutdownByLocal,
    ConnectionClosed,
    ConnectionNotStarted,
}

/// What MsQuic tells of a connection. `S` is a handle to a stream.
pub enum NativeEvent<S> {
    Connected,
    ShutdownInitiatedByTransport { status: u32, error_code: u64 },
    ShutdownInitiatedByPeer { error_code: u64 },
    ShutdownComplete,
    PeerStreamStarted { stream: S },
    StreamsAvailable,
    Other,
}

/// What a user of the connection finds.
#[derive(Clone, Copy, Debug, PartialEq, Eq, Structural)]
pub enum Gate {
    NotStarted,
    Starting,
    Open,
    /// The connection is gone, for a reason that is known or not.
    Gone(Option<ConnectionError>),
}

/// A connection. `S` is a handle to a stream.
pub struct Connection<S> {
    state: ConnectionState,
    error: Option<ConnectionError>,
    start_waiters: Vec<Waker>,
    inbound_stream_waiters: Vec<Waker>,
    inbound_streams: VecDeque<S>,
    shutdown_waiters: Vec<Waker>,
}

/// What a [`Connection`] holds.
#[verifier::ext_equal]
#[verifier::reject_recursive_types(S)]
pub struct ConnectionView<S> {
    pub state: ConnectionState,
    /// Why the connection went away, where it was not this side that asked for it.
    pub error: Option<ConnectionError>,
    pub start_waiters: Seq<Waker>,
    pub inbound_stream_waiters: Seq<Waker>,
    /// Streams that the peer opened and nobody accepted yet.
    pub inbound_streams: Seq<S>,
    pub shutdown_waiters: Seq<Waker>,
}

impl<S> View for Connection<S> {
    type V = ConnectionView<S>;

    closed spec fn view(&self) -> ConnectionView<S> {
        ConnectionView {
            state: self.state,
            error: self.error,
            start_waiters: self.start_waiters@,
            inbound_stream_waiters: self.inbound_stream_waiters@,
            inbound_streams: self.inbound_streams@,
            shutdown_waiters: self.shutdown_waiters@,
        }
    }
}

/// The state is the same, but that the waker of `cx` was added to those that wait for the
/// connection to start.
pub open spec fn waited_for_start<S>(
    before: ConnectionView<S>,
    cx: Context<'_>,
    after: ConnectionView<S>,
) -> bool {
    &&& appended(before.start_waiters, context_waker(cx), after.start_waiters)
    &&& after == (ConnectionView { start_waiters: after.start_waiters, ..before })
}

/// The state is the same, but that the waker of `cx` was added to those that wait for the
/// connection to be shut down.
pub open spec fn waited_for_shutdown<S>(
    before: ConnectionView<S>,
    cx: Context<'_>,
    after: ConnectionView<S>,
) -> bool {
    &&& appended(before.shutdown_waiters, context_waker(cx), after.shutdown_waiters)
    &&& after == (ConnectionView { shutdown_waiters: after.shutdown_waiters, ..before })
}

impl<S> ConnectionView<S> {
    /// A connection on which nothing happened yet.
    pub open spec fn fresh(state: ConnectionState) -> Self {
        ConnectionView {
            state,
            error: None,
            start_waiters: Seq::empty(),
            inbound_stream_waiters: Seq::empty(),
            inbound_streams: Seq::empty(),
            shutdown_waiters: Seq::empty(),
        }
    }

    /// What a user of the connection finds.
    pub open spec fn gate(self) -> Gate {
        match self.state {
            ConnectionState::Open => Gate::NotStarted,
            ConnectionState::Connecting => Gate::Starting,
            ConnectionState::Connected => Gate::Open,
            ConnectionState::Shutdown | ConnectionState::ShutdownComplete => Gate::Gone(self.error),
        }
    }

    /// What an event makes of the connection.
    pub open spec fn after_event(self, event: NativeEvent<S>) -> Self {
        match event {
            NativeEvent::Connected => ConnectionView {
                state: ConnectionState::Connected,
                start_waiters: Seq::empty(),
                ..self
            },
            NativeEvent::ShutdownInitiatedByTransport { status, error_code } => ConnectionView {
                state: ConnectionState::Shutdown,
                error: Some(ConnectionError::ShutdownByTransport(status, error_code)),
                start_waiters: Seq::empty(),
                inbound_stream_waiters: Seq::empty(),
                ..self
            },
            NativeEvent::ShutdownInitiatedByPeer { error_code } => ConnectionView {
                state: ConnectionState::Shutdown,
                error: Some(ConnectionError::ShutdownByPeer(error_code)),
                start_waiters: Seq::empty(),
                inbound_stream_waiters: Seq::empty(),
                ..self
            },
            NativeEvent::ShutdownComplete => ConnectionView {
                state: ConnectionState::ShutdownComplete,
                start_waiters: Seq::empty(),
                inbound_stream_waiters: Seq::empty(),
                shutdown_waiters: Seq::empty(),
                ..self
            },
            NativeEvent::PeerStreamStarted { stream } => ConnectionView {
                inbound_streams: self.inbound_streams.push(stream),
                inbound_stream_waiters: Seq::empty(),
                ..self
            },
            NativeEvent::StreamsAvailable | NativeEvent::Other => self,
        }
    }

    /// The wakers that an event hands out.
    pub open spec fn woken_by(self, event: NativeEvent<S>) -> Seq<Waker> {
        match event {
            NativeEvent::Connected => self.start_waiters,
            NativeEvent::ShutdownInitiatedByTransport { .. }
            | NativeEvent::ShutdownInitiatedByPeer { .. } => self.start_waiters
                + self.inbound_stream_waiters,
            NativeEvent::ShutdownComplete => self.start_waiters + self.inbound_stream_waiters
                + self.shutdown_waiters,
            NativeEvent::PeerStreamStarted { .. } => self.inbound_stream_waiters,
            NativeEvent::StreamsAvailable | NativeEvent::Other => Seq::empty(),
        }
    }
}

impl<S> Connection<S> {
    fn fresh(state: ConnectionState) -> (connection: Self)
        ensures
            connection@ == ConnectionView::<S>::fresh(state),
    {
        Connection {
            state,
            error: None,
            start_waiters: Vec::new(),
            inbound_stream_waiters: Vec::new(),
            inbound_streams: VecDeque::new(),
            shutdown_waiters: Vec::new(),
        }
    }

    /// A connection that this side opens; not started yet.
    pub fn new() -> (connection: Self)
        ensures
            connection@ == ConnectionView::<S>::fresh(ConnectionState::Open),
    {
        Self::fresh(ConnectionState::Open)
    }

    /// A connection that a peer opened.
    pub fn from_handle() -> (connection: Self)
        ensures
            connection@ == ConnectionView::<S>::fresh(ConnectionState::Connected),
    {
        Self::fresh(ConnectionState::Connected)
    }

    /// What a user of the connection finds.
    pub fn gate(&self) -> (gate: Gate)
        ensures
            gate == self@.gate(),
    {
        match self.state {
            ConnectionState::Open => Gate::NotStarted,
            ConnectionState::Connecting => Gate::Starting,
            ConnectionState::Connected => Gate::Open,
            ConnectionState::Shutdown | ConnectionState::ShutdownComplete => Gate::Gone(self.error),
        }
    }

    /// Start the connection, and wait for that. The flag that comes back tells to start the native
    /// connection.
    pub fn poll_start(&mut self, cx: &Context<'_>) -> (answer: (
        Poll<Result<(), ConnectionError>>,
        bool,
    ))
        ensures
            match old(self)@.gate() {
                Gate::NotStarted => {
                    &&& answer.0 == Poll::<Result<(), ConnectionError>>::Pending
                    &&& answer.1
                    &&& waited_for_start(
                        ConnectionView { state: ConnectionState::Connecting, ..old(self)@ },
                        *cx,
                        final(self)@,
                    )
                },
                Gate::Starting => {
                    &&& answer.0 == Poll::<Result<(), ConnectionError>>::Pending
                    &&& !answer.1
                    &&& waited_for_start(old(self)@, *cx, final(self)@)
                },
                Gate::Open => {
                    &&& answer.0 == Poll::<Result<(), ConnectionError>>::Ready(Ok(()))
                    &&& !answer.1
                    &&& final(self)@ == old(self)@
                },
                Gate::Gone(error) => {
                    &&& answer.0 == Poll::<Result<(), ConnectionError>>::Ready(
                        Err(
                            match error {
                                Some(error) => error,
                                None => ConnectionError::ConnectionClosed,
                            },
                        ),
                    )
                    &&& !answer.1
                    &&& final(self)@ == old(self)@
                },
            },
    {
        let mut call_start: bool = false;
        match self.gate() {
            Gate::NotStarted => {
                call_start = true;
                self.state = ConnectionState::Connecting;
            },
            Gate::Starting => {},
            Gate::Open => {
                return (Poll::Ready(Ok(())), false);
            },
            Gate::Gone(Some(error)) => {
                return (Poll::Ready(Err(error)), false);
            },
            Gate::Gone(None) => {
                return (Poll::Ready(Err(ConnectionError::ConnectionClosed)), false);
            },
        }
        append_waker(&mut self.start_waiters, cx);
        (Poll::Pending, call_start)
    }

    /// Accept a stream that the peer opened.
    pub fn poll_accept_inbound_stream(&mut self, cx: &Context<'_>) -> (answer: Poll<
        Result<S, StartError>,
    >)
        ensures
            match old(self)@.gate() {
                Gate::NotStarted => {
                    &&& answer == Poll::<Result<S, StartError>>::Ready(
                        Err(StartError::ConnectionClosed),
                    )
                    &&& final(self)@ == old(self)@
                },
                Gate::Starting => {
                    &&& answer == Poll::<Result<S, StartError>>::Pending
                    &&& waited_for_start(old(self)@, *cx, final(self)@)
                },
                Gate::Open => if old(self)@.inbound_streams.len() > 0 {
                    &&& answer == Poll::<Result<S, StartError>>::Ready(
                        Ok(old(self)@.inbound_streams[0]),
                    )
                    &&& final(self)@ == (ConnectionView {
                        inbound_streams: old(self)@.inbound_streams.drop_first(),
                        ..old(self)@
                    })
                } else {
                    &&& answer == Poll::<Result<S, StartError>>::Pending
                    &&& appended(
                        old(self)@.inbound_stream_waiters,
                        context_waker(*cx),
                        final(self)@.inbound_stream_waiters,
                    )
                    &&& final(self)@ == (ConnectionView {
                        inbound_stream_waiters: final(self)@.inbound_stream_waiters,
                        ..old(self)@
                    })
                },
                Gate::Gone(error) => {
                    &&& answer == Poll::<Result<S, StartError>>::Ready(Err(gone(error)))
                    &&& final(self)@ == old(self)@
                },
            },
    {
        match self.gate() {
            Gate::NotStarted => {
                return Poll::Ready(Err(StartError::ConnectionClosed));
            },
            Gate::Starting => {
                append_waker(&mut self.start_waiters, cx);
                return Poll::Pending;
            },
            Gate::Open => {},
            Gate::Gone(Some(error)) => {
                return Poll::Ready(Err(StartError::ConnectionLost(error)));
            },
            Gate::Gone(None) => {
                return Poll::Ready(Err(StartError::ConnectionClosed));
            },
        }
        match self.inbound_streams.pop_front() {
            Some(stream) => {
                assert(self@.inbound_streams =~= old(self)@.inbound_streams.drop_first());
                Poll::Ready(Ok(stream))
            },
            None => {
                append_waker(&mut self.inbound_stream_waiters, cx);
                Poll::Pending
            },
        }
    }

    /// Shut the connection down, and wait for that. Shut the native connection down with the error
    /// code that comes back.
    pub fn poll_shutdown(&mut self, cx: &Context<'_>, error_code: u64) -> (answer: (
        Poll<Result<(), ConnectionError>>,
        Option<u64>,
    ))
        ensures
            match old(self)@.state {
                ConnectionState::Open => {
                    &&& answer.0 == Poll::<Result<(), ConnectionError>>::Ready(
                        Err(ConnectionError::ConnectionNotStarted),
                    )
                    &&& answer.1 is None
                    &&& final(self)@ == old(self)@
                },
                ConnectionState::Connecting => {
                    &&& answer.0 == Poll::<Result<(), ConnectionError>>::Pending
                    &&& answer.1 is None
                    &&& waited_for_start(old(self)@, *cx, final(self)@)
                },
                ConnectionState::Connected => {
                    &&& answer.0 == Poll::<Result<(), ConnectionError>>::Pending
                    &&& answer.1 == Some(error_code)
                    &&& waited_for_shutdown(
                        ConnectionView { state: ConnectionState::Shutdown, ..old(self)@ },
                        *cx,
                        final(self)@,
                    )
                },
                ConnectionState::Shutdown => {
                    &&& answer.0 == Poll::<Result<(), ConnectionError>>::Pending
                    &&& answer.1 is None
                    &&& waited_for_shutdown(old(self)@, *cx, final(self)@)
                },
                ConnectionState::ShutdownComplete => {
                    &&& answer.0 == Poll::<Result<(), ConnectionError>>::Ready(
                        match old(self)@.error {
                            Some(error) => Err(error),
                            None => Ok(()),
                        },
                    )
                    &&& answer.1 is None
                    &&& final(self)@ == old(self)@
                },
            },
    {
        let mut native: Option<u64> = None;
        match self.state {
            ConnectionState::Open => {
                return (Poll::Ready(Err(ConnectionError::ConnectionNotStarted)), None);
            },
            ConnectionState::Connecting => {
                append_waker(&mut self.start_waiters, cx);
                return (Poll::Pending, None);
            },
            ConnectionState::Connected => {
                native = Some(error_code);
                self.state = ConnectionState::Shutdown;
            },
            ConnectionState::Shutdown => {},
            ConnectionState::ShutdownComplete => {
                if let Some(error) = self.error {
                    return (Poll::Ready(Err(error)), None);
                }
                return (Poll::Ready(Ok(())), None);
            },
        }
        append_waker(&mut self.shutdown_waiters, cx);
        (Poll::Pending, native)
    }

    /// The last handle to the connection is gone. Shut the native connection down with the error
    /// code that comes back.
    pub fn close(&self) -> (native: Option<u64>)
        ensures
            native == match self@.state {
                ConnectionState::Open
                | ConnectionState::Connecting
                | ConnectionState::Connected => Some(0u64),
                ConnectionState::Shutdown | ConnectionState::ShutdownComplete => None,
            },
    {
        match self.state {
            ConnectionState::Open | ConnectionState::Connecting | ConnectionState::Connected => {
                Some(0)
            },
            ConnectionState::Shutdown | ConnectionState::ShutdownComplete => None,
        }
    }

    /// The connection is going away because of `error`.
    fn handle_event_shutdown_initiated(&mut self, error: ConnectionError) -> (woken: Vec<Waker>)
        ensures
            final(self)@ == (ConnectionView {
                state: ConnectionState::Shutdown,
                error: Some(error),
                start_waiters: Seq::empty(),
                inbound_stream_waiters: Seq::empty(),
                ..old(self)@
            }),
            woken@ == old(self)@.start_waiters + old(self)@.inbound_stream_waiters,
    {
        self.state = ConnectionState::Shutdown;
        self.error = Some(error);
        let mut woken = drain_wakers(&mut self.start_waiters);
        woken.append(&mut self.inbound_stream_waiters);
        woken
    }

    /// Take an event in. Wake the wakers that come back.
    pub fn handle_event(&mut self, event: NativeEvent<S>) -> (woken: Vec<Waker>)
        ensures
            final(self)@ == old(self)@.after_event(event),
            woken@ == old(self)@.woken_by(event),
    {
        match event {
            NativeEvent::Connected => {
                self.state = ConnectionState::Connected;
                drain_wakers(&mut self.start_waiters)
            },
            NativeEvent::ShutdownInitiatedByTransport { status, error_code } => {
                self.handle_event_shutdown_initiated(
                    ConnectionError::ShutdownByTransport(status, error_code),
                )
            },
            NativeEvent::ShutdownInitiatedByPeer { error_code } => {
                self.handle_event_shutdown_initiated(ConnectionError::ShutdownByPeer(error_code))
            },
            NativeEvent::ShutdownComplete => {
                self.state = ConnectionState::ShutdownComplete;
                let mut woken = drain_wakers(&mut self.start_waiters);
                woken.append(&mut self.inbound_stream_waiters);
                woken.append(&mut self.shutdown_waiters);
                woken
            },
            NativeEvent::PeerStreamStarted { stream } => {
                self.inbound_streams.push_back(stream);
                drain_wakers(&mut self.inbound_stream_waiters)
            },
            NativeEvent::StreamsAvailable | NativeEvent::Other => Vec::new(),
        }
    }
}

/// The type of a stream that the peer opened, from the flag that it was opened with.
pub fn peer_stream_type(unidirectional: bool) -> (stream_type: StreamType)
    ensures
        stream_type == if unidirectional {
            StreamType::Unidirectional
        } else {
            StreamType::Bidirectional
        },
{
    if unidirectional {
        StreamType::Unidirectional
    } else {
        StreamType::Bidirectional
    }
}

/// How the loss of a connection is reported to those who want a stream.
pub open spec fn gone(error: Option<ConnectionError>) -> StartError {
    match error {
        Some(error) => StartError::ConnectionLost(error),
        None => StartError::ConnectionClosed,
    }
}

/// The next step of opening a stream.
#[derive(Clone, Copy, Debug, PartialEq, Eq, Structural)]
pub enum OpenStep {
    /// Wait for the connection to start.
    Wait,
    /// The stream cannot be opened.
    Fail(StartError),
    /// Open a native stream, and hand it to [`OpenOutboundStream::opened`].
    Open(StreamType),
    /// Start the stream that was opened.
    Start,
}

/// Future produced by opening an outbound stream.
pub struct OpenOutboundStream<S> {
    pub stream_type: Option<StreamType>,
    pub stream: Option<S>,
    pub fail_on_blocked: bool,
}

impl<S> OpenOutboundStream<S> {
    /// Open a stream of the given type. With `fail_on_blocked` that fails where the peer's stream
    /// limit is reached, in place of waiting.
    pub fn new(stream_type: StreamType, fail_on_blocked: bool) -> (open: Self)
        ensures
            open.stream_type == Some(stream_type),
            open.stream is None,
            open.fail_on_blocked == fail_on_blocked,
    {
        OpenOutboundStream { stream_type: Some(stream_type), stream: None, fail_on_blocked }
    }

    /// The stream is still to be opened, or is being started.
    pub open spec fn live(&self) -> bool {
        self.stream is Some || self.stream_type is Some
    }

    /// Whether the stream is still to be opened, or is being started.
    pub fn is_live(&self) -> (live: bool)
        ensures
            live == self.live(),
    {
        self.stream.is_some() || self.stream_type.is_some()
    }

    /// The next step, where a user of the connection finds `gate`: once the connection is up, a
    /// stream is opened, and then started.
    pub open spec fn step(self, gate: Gate) -> OpenStep {
        match gate {
            Gate::NotStarted => OpenStep::Fail(StartError::ConnectionClosed),
            Gate::Starting => OpenStep::Wait,
            Gate::Open => if self.stream is Some {
                OpenStep::Start
            } else {
                OpenStep::Open(self.stream_type->0)
            },
            Gate::Gone(error) => OpenStep::Fail(gone(error)),
        }
    }

    /// The step was taken. A stream is opened once.
    pub open spec fn stepped(self, gate: Gate) -> Self {
        if self.step(gate) is Open {
            OpenOutboundStream { stream_type: None, ..self }
        } else {
            self
        }
    }

    /// The stream is there.
    pub open spec fn with_opened(self, stream: S) -> Self {
        OpenOutboundStream { stream: Some(stream), ..self }
    }

    /// The stream was handed out, where it is started.
    pub open spec fn with_started(self, started: Poll<Result<(), StartError>>) -> Self {
        match started {
            Poll::Ready(Ok(())) => OpenOutboundStream { stream: None, ..self },
            _ => self,
        }
    }

    /// What comes of starting the stream: the stream, once it is started.
    pub open spec fn start_answer(self, started: Poll<Result<(), StartError>>) -> Poll<
        Result<S, StartError>,
    > {
        match started {
            Poll::Ready(Ok(())) => Poll::Ready(Ok(self.stream->0)),
            Poll::Ready(Err(error)) => Poll::Ready(Err(error)),
            Poll::Pending => Poll::Pending,
        }
    }

    /// What to do next.
    pub fn poll_step(&mut self, connection: &mut Connection<S>, cx: &Context<'_>) -> (step:
        OpenStep)
        requires
            old(connection)@.gate() == Gate::Open ==> old(self).live(),
        ensures
            step == old(self).step(old(connection)@.gate()),
            *final(self) == old(self).stepped(old(connection)@.gate()),
            if old(connection)@.gate() == Gate::Starting {
                waited_for_start(old(connection)@, *cx, final(connection)@)
            } else {
                final(connection)@ == old(connection)@
            },
    {
        match connection.gate() {
            Gate::NotStarted => {
                return OpenStep::Fail(StartError::ConnectionClosed);
            },
            Gate::Starting => {
                append_waker(&mut connection.start_waiters, cx);
                return OpenStep::Wait;
            },
            Gate::Open => {},
            Gate::Gone(Some(error)) => {
                return OpenStep::Fail(StartError::ConnectionLost(error));
            },
            Gate::Gone(None) => {
                return OpenStep::Fail(StartError::ConnectionClosed);
            },
        }
        if self.stream.is_some() {
            OpenStep::Start
        } else {
            OpenStep::Open(self.stream_type.take().unwrap())
        }
    }

    /// Take in the native stream that was opened.
    pub fn opened(&mut self, stream: S)
        ensures
            *final(self) == old(self).with_opened(stream),
    {
        self.stream = Some(stream);
    }

    /// Take in what came of starting the stream. Once it is started, it is handed out.
    pub fn started(&mut self, started: Poll<Result<(), StartError>>) -> (answer: Poll<
        Result<S, StartError>,
    >)
        requires
            old(self).stream is Some,
        ensures
            answer == old(self).start_answer(started),
            *final(self) == old(self).with_started(started),
    {
        match started {
            Poll::Ready(Ok(())) => Poll::Ready(Ok(self.stream.take().unwrap())),
            Poll::Ready(Err(error)) => Poll::Ready(Err(error)),
            Poll::Pending => Poll::Pending,
        }
    }
}

/// What a poll of an [`OpenOutboundStream`] meets: what a user of the connection finds, and what
/// comes of opening a native stream and of starting it, where the poll does that.
#[verifier::reject_recursive_types(S)]
pub struct OpenPoll<S> {
    pub gate: Gate,
    pub opened: S,
    pub started: Poll<Result<(), StartError>>,
}

impl<S> OpenOutboundStream<S> {
    /// The native stream that a poll opens.
    pub open spec fn opens(self, poll: OpenPoll<S>) -> Option<StreamType> {
        match self.step(poll.gate) {
            OpenStep::Open(stream_type) => Some(stream_type),
            _ => None,
        }
    }

    /// The first step of a poll was taken, and where that opened a stream, it was taken in.
    pub open spec fn past_opening(self, poll: OpenPoll<S>) -> Self {
        if self.opens(poll) is Some {
            self.stepped(poll.gate).with_opened(poll.opened)
        } else {
            self.stepped(poll.gate)
        }
    }

    /// The stream that a poll starts, and whether that is to fail where the peer's stream limit is
    /// reached.
    pub open spec fn starts(self, poll: OpenPoll<S>) -> Option<(S, bool)> {
        let open = self.past_opening(poll);
        if open.step(poll.gate) is Start {
            Some((open.stream->0, open.fail_on_blocked))
        } else {
            None
        }
    }

    /// The answer of a poll.
    pub open spec fn poll_answer(self, poll: OpenPoll<S>) -> Poll<Result<S, StartError>> {
        match self.step(poll.gate) {
            OpenStep::Wait => Poll::Pending,
            OpenStep::Fail(error) => Poll::Ready(Err(error)),
            OpenStep::Open(_) | OpenStep::Start => self.past_opening(poll).start_answer(
                poll.started,
            ),
        }
    }

    /// The poll is over.
    pub open spec fn polled(self, poll: OpenPoll<S>) -> Self {
        if self.starts(poll) is Some {
            self.past_opening(poll).with_started(poll.started)
        } else {
            self.past_opening(poll)
        }
    }

    /// The first `count` of `polls` are over.
    pub open spec fn after_polls(self, polls: Seq<OpenPoll<S>>, count: nat) -> Self
        decreases count,
    {
        if count == 0 {
            self
        } else {
            self.after_polls(polls, (count - 1) as nat).polled(polls[count - 1])
        }
    }

    /// The native stream that poll number `i` opens.
    pub open spec fn opens_at(self, polls: Seq<OpenPoll<S>>, i: int) -> Option<StreamType> {
        self.after_polls(polls, i as nat).opens(polls[i])
    }

    /// The stream that poll number `i` starts, and how.
    pub open spec fn starts_at(self, polls: Seq<OpenPoll<S>>, i: int) -> Option<(S, bool)> {
        self.after_polls(polls, i as nat).starts(polls[i])
    }

    /// The answer of poll number `i`.
    pub open spec fn answer_at(self, polls: Seq<OpenPoll<S>>, i: int) -> Poll<
        Result<S, StartError>,
    > {
        self.after_polls(polls, i as nat).poll_answer(polls[i])
    }

    /// `stream` is what one of the first `count` polls opened.
    pub open spec fn opened_by(self, polls: Seq<OpenPoll<S>>, count: int, stream: S) -> bool {
        exists|i: int|
            0 <= i < count && #[trigger] self.opens_at(polls, i) is Some && polls[i].opened
                == stream
    }
}

/// As long as a stream is waited for, either none was opened and the future is as it was, or one
/// was, and the future holds it.
proof fn one_stream_so_far<S>(
    open: OpenOutboundStream<S>,
    stream_type: StreamType,
    polls: Seq<OpenPoll<S>>,
    count: nat,
)
    requires
        open.stream_type == Some(stream_type),
        open.stream is None,
        count <= polls.len(),
        forall|i: int| 0 <= i < count ==> #[trigger] open.answer_at(polls, i) is Pending,
    ensures
        ({
            let now = open.after_polls(polls, count);
            &&& now.fail_on_blocked == open.fail_on_blocked
            &&& forall|i: int|
                0 <= i < count && #[trigger] open.opens_at(polls, i) is Some ==> open.opens_at(
                    polls,
                    i,
                ) == Some(stream_type) && polls[i].gate == Gate::Open
            &&& if now.stream is None {
                &&& now == open
                &&& forall|i: int| 0 <= i < count ==> #[trigger] open.opens_at(polls, i) is None
            } else {
                &&& now.stream_type is None
                &&& open.opened_by(polls, count as int, now.stream->0)
                &&& forall|i: int, j: int|
                    0 <= i < j < count ==> !(#[trigger] open.opens_at(polls, i) is Some
                        && #[trigger] open.opens_at(polls, j) is Some)
            }
        }),
    decreases count,
{
    if count > 0 {
        let last = (count - 1) as nat;
        one_stream_so_far(open, stream_type, polls, last);
        let before = open.after_polls(polls, last);
        assert(open.answer_at(polls, last as int) is Pending);
        if before.stream is Some {
            let i = choose|i: int|
                0 <= i < last && #[trigger] open.opens_at(polls, i) is Some && polls[i].opened
                    == before.stream->0;
            assert(open.opens_at(polls, last as int) is None);
            assert(open.opens_at(polls, i) is Some);
        } else if polls[last as int].gate == Gate::Open {
            assert(open.opens_at(polls, last as int) == Some(stream_type));
        }
    }
}

/// A future that opens a stream, polled until it is ready, opens one native stream at most, of the
/// type that was asked for and only while the connection is up. What it starts, with the limit
/// treated as was asked for, and what it hands out is that very stream. The future fails where the
/// connection was not started, waits while it is starting, and tells why once it is gone.
pub proof fn one_stream_is_opened<S>(
    open: OpenOutboundStream<S>,
    stream_type: StreamType,
    polls: Seq<OpenPoll<S>>,
)
    requires
        open.stream_type == Some(stream_type),
        open.stream is None,
        forall|i: int| 0 <= i < polls.len() - 1 ==> #[trigger] open.answer_at(polls, i) is Pending,
    ensures
        forall|i: int|
            0 <= i < polls.len() ==> (#[trigger] open.after_polls(polls, i as nat)).live(),
        forall|i: int|
            0 <= i < polls.len() && #[trigger] open.opens_at(polls, i) is Some ==> open.opens_at(
                polls,
                i,
            ) == Some(stream_type) && polls[i].gate == Gate::Open,
        forall|i: int, j: int|
            0 <= i < j < polls.len() ==> !(#[trigger] open.opens_at(polls, i) is Some
                && #[trigger] open.opens_at(polls, j) is Some),
        forall|i: int|
            0 <= i < polls.len() ==> (#[trigger] open.starts_at(polls, i) matches Some(
                started,
            ) ==> started.1 == open.fail_on_blocked && open.opened_by(polls, i + 1, started.0)),
        forall|i: int|
            0 <= i < polls.len() ==> (#[trigger] open.answer_at(polls, i) matches Poll::Ready(
                Ok(stream),
            ) ==> open.opened_by(polls, i + 1, stream)),
        forall|i: int|
            0 <= i < polls.len() ==> match polls[i].gate {
                Gate::NotStarted => #[trigger] open.answer_at(polls, i) == Poll::<
                    Result<S, StartError>,
                >::Ready(Err(StartError::ConnectionClosed)),
                Gate::Starting => open.answer_at(polls, i) is Pending,
                Gate::Open => true,
                Gate::Gone(error) => open.answer_at(polls, i) == Poll::<
                    Result<S, StartError>,
                >::Ready(Err(gone(error))),
            },
{
    assert forall|i: int| 0 <= i < polls.len() implies (#[trigger] open.after_polls(
        polls,
        i as nat,
    )).live() by {
        one_stream_so_far(open, stream_type, polls, i as nat);
    }
    assert forall|i: int|
        0 <= i < polls.len() && #[trigger] open.opens_at(polls, i) is Some implies open.opens_at(
        polls,
        i,
    ) == Some(stream_type) && polls[i].gate == Gate::Open by {
        one_stream_so_far(open, stream_type, polls, i as nat);
    }
    assert forall|i: int, j: int| 0 <= i < j < polls.len() implies !(#[trigger] open.opens_at(
        polls,
        i,
    ) is Some && #[trigger] open.opens_at(polls, j) is Some) by {
        one_stream_so_far(open, stream_type, polls, j as nat);
    }
    assert forall|i: int| 0 <= i < polls.len() implies (#[trigger] open.starts_at(
        polls,
        i,
    ) matches Some(started) ==> started.1 == open.fail_on_blocked && open.opened_by(
        polls,
        i + 1,
        started.0,
    )) by {
        started_stream_was_opened(open, stream_type, polls, i);
    }
    assert forall|i: int| 0 <= i < polls.len() implies (#[trigger] open.answer_at(
        polls,
        i,
    ) matches Poll::Ready(Ok(stream)) ==> open.opened_by(polls, i + 1, stream)) by {
        started_stream_was_opened(open, stream_type, polls, i);
    }
}

/// What poll number `i` starts was opened by then, and what it hands out is what it starts.
proof fn started_stream_was_opened<S>(
    open: OpenOutboundStream<S>,
    stream_type: StreamType,
    polls: Seq<OpenPoll<S>>,
    i: int,
)
    requires
        open.stream_type == Some(stream_type),
        open.stream is None,
        0 <= i < polls.len(),
        forall|j: int| 0 <= j < i ==> #[trigger] open.answer_at(polls, j) is Pending,
    ensures
        open.starts_at(polls, i) matches Some(started) ==> started.1 == open.fail_on_blocked
            && open.opened_by(polls, i + 1, started.0),
        open.answer_at(polls, i) matches Poll::Ready(Ok(stream)) ==> open.starts_at(polls, i)
            == Some((stream, open.fail_on_blocked)),
{
    one_stream_so_far(open, stream_type, polls, i as nat);
    let before = open.after_polls(polls, i as nat);
    if open.starts_at(polls, i) is Some {
        if before.stream is Some {
            let k = choose|k: int|
                0 <= k < i && #[trigger] open.opens_at(polls, k) is Some && polls[k].opened
                    == before.stream->0;
            assert(open.opens_at(polls, k) is Some);
        } else {
            assert(open.opens_at(polls, i) is Some);
        }
    }
}

/// A task that waits for the connection to start is woken by every event that ends that wait.
pub proof fn starters_are_woken<S>(connection: ConnectionView<S>, event: NativeEvent<S>)
    requires
        connection.state == ConnectionState::Connecting,
        connection.after_event(event).state != ConnectionState::Connecting,
    ensures
        connection.after_event(event).start_waiters == Seq::<Waker>::empty(),
        connection.start_waiters.is_prefix_of(connection.woken_by(event)),
{
    assert(connection.start_waiters =~= connection.woken_by(event).take(
        connection.start_waiters.len() as int,
    ));
}

/// A task that waits for a stream is woken when one arrives, and when the connection goes away.
pub proof fn stream_acceptors_are_woken<S>(connection: ConnectionView<S>, event: NativeEvent<S>)
    requires
        connection.gate() == Gate::Open,
        connection.after_event(event).gate() != Gate::Open || connection.after_event(
            event,
        ).inbound_streams != connection.inbound_streams,
    ensures
        connection.after_event(event).inbound_stream_waiters == Seq::<Waker>::empty(),
        forall|i: int|
            0 <= i < connection.inbound_stream_waiters.len() ==> connection.woken_by(
                event,
            ).contains(#[trigger] connection.inbound_stream_waiters[i]),
{
    let woken = connection.woken_by(event);
    let skipped = if event is PeerStreamStarted {
        0
    } else {
        connection.start_waiters.len() as int
    };
    assert forall|i: int| 0 <= i < connection.inbound_stream_waiters.len() implies woken.contains(
        #[trigger] connection.inbound_stream_waiters[i],
    ) by {
        assert(woken[skipped + i] == connection.inbound_stream_waiters[i]);
    }
}

/// A task that waits for the shutdown is woken once it is complete.
pub proof fn closers_are_woken<S>(connection: ConnectionView<S>)
    ensures
        ({
            let after = connection.after_event(NativeEvent::ShutdownComplete);
            &&& after.state == ConnectionState::ShutdownComplete
            &&& after.error == connection.error
            &&& after.shutdown_waiters == Seq::<Waker>::empty()
        }),
        forall|i: int|
            0 <= i < connection.shutdown_waiters.len() ==> connection.woken_by(
                NativeEvent::ShutdownComplete,
            ).contains(#[trigger] connection.shutdown_waiters[i]),
{
    let woken = connection.woken_by(NativeEvent::ShutdownComplete);
    let skipped = connection.start_waiters.len() + connection.inbound_stream_waiters.len();
    assert forall|i: int| 0 <= i < connection.shutdown_waiters.len() implies woken.contains(
        #[trigger] connection.shutdown_waiters[i],
    ) by {
        assert(woken[skipped + i] == connection.shutdown_waiters[i]);
    }
}

} // verus!
