//! Streams.
use std::collections::VecDeque;
use std::task::{Context, Poll, Waker};

use bytes::Bytes;

use vstd::prelude::*;

use crate::buffer::{
    bytes_data, contents_of, pieces_of, taking_one_more_piece, RecvBufferView, StreamRecvBuffer,
    WriteBuffer, WriteBufferView,
};
use crate::minimal::connection::ConnectionError;
use crate::status::{Status, StatusCode};
use crate::stream::{
    all_well_formed, finished_by, left_by, pending_data, read_into, received_data_is_read_last,
    views_of, IoErrorKind, ReadStatus, StreamRecvState, StreamSend, StreamSendState,
    StreamShutdown, StreamStart, StreamState, StreamType, WriteStatus,
};
use crate::sync::{append_waker, appended, context_waker, drain_wakers};

verus! {

/// The status with which a start fails where the peer's stream limit is reached.
pub const STATUS_STREAM_LIMIT_REACHED: u32 = 0x80410008;

/// The status of what was aborted.
pub const STATUS_ABORTED: u32 = 0x80004004;

/// The status of what cannot be done in the state that the object is in.
pub const STATUS_INVALID_STATE: u32 = 0x8007139f;

/// Errors that can occur when starting a stream.
#[derive(Clone, Copy, Debug, PartialEq, Eq, Structural)]
pub enum StartError {
    ConnectionClosed,
    ConnectionLost(ConnectionError),
    LimitReached,
    Unknown(u32),
}

/// Errors that can occur when reading from a stream.
#[derive(Clone, Copy, Debug, PartialEq, Eq, Structural)]
pub enum ReadError {
    Closed,
    Reset(u64),
    ConnectionLost(ConnectionError),
}

/// Errors that can occur when writing to a stream.
#[derive(Clone, Copy, Debug, PartialEq, Eq, Structural)]
pub enum WriteError {
    Stopped(u64),
    Finished,
    Closed,
    ConnectionLost(ConnectionError),
}

impl ReadError {
    /// The kind of I/O error that this error is reported as.
    pub open spec fn io_kind_spec(self) -> IoErrorKind {
        match self {
            ReadError::Closed => IoErrorKind::NotConnected,
            ReadError::Reset(_) => IoErrorKind::ConnectionReset,
            ReadError::ConnectionLost(error) => if error == ConnectionError::ConnectionClosed {
                IoErrorKind::NotConnected
            } else {
                IoErrorKind::ConnectionAborted
            },
        }
    }

    /// The kind of I/O error that this error is reported as.
    pub fn io_kind(&self) -> (kind: IoErrorKind)
        ensures
            kind == self.io_kind_spec(),
    {
        match self {
            ReadError::Closed => IoErrorKind::NotConnected,
            ReadError::Reset(_) => IoErrorKind::ConnectionReset,
            ReadError::ConnectionLost(ConnectionError::ConnectionClosed) => {
                IoErrorKind::NotConnected
            },
            ReadError::ConnectionLost(_) => IoErrorKind::ConnectionAborted,
        }
    }
}

impl WriteError {
    /// The kind of I/O error that this error is reported as.
    pub open spec fn io_kind_spec(self) -> IoErrorKind {
        match self {
            WriteError::Closed | WriteError::Finished => IoErrorKind::NotConnected,
            WriteError::Stopped(_) => IoErrorKind::ConnectionReset,
            WriteError::ConnectionLost(error) => if error == ConnectionError::ConnectionClosed {
                IoErrorKind::NotConnected
            } else {
                IoErrorKind::ConnectionAborted
            },
        }
    }

    /// The kind of I/O error that this error is reported as.
    pub fn io_kind(&self) -> (kind: IoErrorKind)
        ensures
            kind == self.io_kind_spec(),
    {
        match self {
            WriteError::Closed
            | WriteError::Finished
            | WriteError::ConnectionLost(ConnectionError::ConnectionClosed) => {
                IoErrorKind::NotConnected
            },
            WriteError::Stopped(_) => IoErrorKind::ConnectionReset,
            WriteError::ConnectionLost(_) => IoErrorKind::ConnectionAborted,
        }
    }
}

/// How the connection of a stream was shut down.
#[derive(Clone, Copy, Debug, PartialEq, Eq, Structural)]
pub struct ConnectionShutdown {
    /// An application closed the connection, not the transport.
    pub by_app: bool,
    /// The peer closed it, not this side.
    pub closed_remotely: bool,
    pub error_code: u64,
    pub close_status: u32,
}

impl ConnectionShutdown {
    /// The error that the users of the stream see.
    pub open spec fn error(self) -> ConnectionError {
        if !self.by_app {
            ConnectionError::ShutdownByTransport(self.close_status, self.error_code)
        } else if self.closed_remotely {
            ConnectionError::ShutdownByPeer(self.error_code)
        } else {
            ConnectionError::ShutdownByLocal
        }
    }
}

/// What MsQuic tells of a stream.
pub enum StreamEvent {
    /// The start is over, unless it waits for the peer to accept the stream.
    StartComplete { status: Status, peer_accepted: bool },
    /// Data arrived.
    Receive { buffers: Vec<Vec<u8>>, fin: bool },
    /// MsQuic is done with a buffer.
    SendComplete { buffer: WriteBuffer },
    /// The peer ended its sending direction.
    PeerSendShutdown,
    /// The peer reset its sending direction.
    PeerSendAborted { error_code: u64 },
    /// The peer asked to stop sending.
    PeerReceiveAborted { error_code: u64 },
    /// The sending direction is shut down.
    SendShutdownComplete,
    /// The stream is shut down; `lost` tells of the connection, where that was shut down.
    ShutdownComplete { lost: Option<ConnectionShutdown> },
    /// How much data to keep in flight.
    IdealSendBufferSize,
    /// The peer accepted the stream.
    PeerAccepted,
    /// Anything else.
    Other,
}

/// What a reader finds.
#[derive(Clone, Copy, Debug, PartialEq, Eq, Structural)]
pub enum ReadGate {
    Closed,
    Starting,
    Open,
    Lost(ConnectionError),
    Reset(u64),
    End,
}

/// What a writer finds.
#[derive(Clone, Copy, Debug, PartialEq, Eq, Structural)]
pub enum WriteGate {
    Closed,
    Starting,
    Open,
    ShuttingDown,
    Lost(ConnectionError),
    Stopped(u64),
    Done,
}

/// A bidirectional or unidirectional stream.
pub struct Stream {
    stream_type: StreamType,
    state: StreamState,
    start_status: Option<Status>,
    recv_state: StreamRecvState,
    recv_buffers: VecDeque<StreamRecvBuffer>,
    send_state: StreamSendState,
    write_pool: Vec<WriteBuffer>,
    recv_error_code: Option<u64>,
    send_error_code: Option<u64>,
    conn_error: Option<ConnectionError>,
    start_waiters: Vec<Waker>,
    read_waiters: Vec<Waker>,
    write_shutdown_waiters: Vec<Waker>,
}

/// What a [`Stream`] holds.
#[verifier::ext_equal]
pub struct StreamView {
    pub stream_type: StreamType,
    pub state: StreamState,
    /// How the start ended.
    pub start_status: Option<Status>,
    pub recv_state: StreamRecvState,
    /// Received data that was not read whole yet, in the order of arrival.
    pub recv_buffers: Seq<RecvBufferView>,
    pub send_state: StreamSendState,
    /// How many blank buffers are kept for later writes.
    pub write_pool: nat,
    pub recv_error_code: Option<u64>,
    pub send_error_code: Option<u64>,
    pub conn_error: Option<ConnectionError>,
    pub start_waiters: Seq<Waker>,
    pub read_waiters: Seq<Waker>,
    pub write_shutdown_waiters: Seq<Waker>,
}

/// The lengths of the data of buffers, read or not.
pub open spec fn lengths_of(buffers: Seq<RecvBufferView>) -> Seq<usize> {
    buffers.map_values(|buffer: RecvBufferView| buffer.data().len() as usize)
}

impl StreamView {
    pub open spec fn read_gate(self) -> ReadGate {
        match self.recv_state {
            StreamRecvState::Closed => ReadGate::Closed,
            StreamRecvState::Start => ReadGate::Starting,
            StreamRecvState::StartComplete => ReadGate::Open,
            StreamRecvState::ShutdownComplete => match (self.conn_error, self.recv_error_code) {
                (Some(error), _) => ReadGate::Lost(error),
                (None, Some(error_code)) => ReadGate::Reset(error_code),
                (None, None) => ReadGate::End,
            },
        }
    }

    pub open spec fn write_gate(self) -> WriteGate {
        match self.send_state {
            StreamSendState::Closed => WriteGate::Closed,
            StreamSendState::Start => WriteGate::Starting,
            StreamSendState::StartComplete => WriteGate::Open,
            StreamSendState::Shutdown => WriteGate::ShuttingDown,
            StreamSendState::ShutdownComplete => match (self.conn_error, self.send_error_code) {
                (Some(error), _) => WriteGate::Lost(error),
                (None, Some(error_code)) => WriteGate::Stopped(error_code),
                (None, None) => WriteGate::Done,
            },
        }
    }

    /// Received data that was not read yet.
    pub open spec fn pending(self) -> Seq<u8> {
        pending_data(self.recv_buffers)
    }

    /// A buffer was taken out of the pool, where there was one.
    pub open spec fn with_buffer_taken(self) -> StreamView {
        StreamView {
            write_pool: if self.write_pool > 0 {
                (self.write_pool - 1) as nat
            } else {
                0
            },
            ..self
        }
    }

    /// A stream on which nothing happened yet.
    pub open spec fn fresh(
        stream_type: StreamType,
        state: StreamState,
        send_state: StreamSendState,
        recv_state: StreamRecvState,
    ) -> StreamView {
        StreamView {
            stream_type,
            state,
            start_status: None,
            recv_state,
            recv_buffers: Seq::empty(),
            send_state,
            write_pool: 0,
            recv_error_code: None,
            send_error_code: None,
            conn_error: None,
            start_waiters: Seq::empty(),
            read_waiters: Seq::empty(),
            write_shutdown_waiters: Seq::empty(),
        }
    }

    /// How a start that is over is reported.
    pub open spec fn start_result(self) -> Result<(), StartError> {
        match self.start_status {
            Some(status) => if status.ok {
                Ok(())
            } else if status.raw == STATUS_STREAM_LIMIT_REACHED {
                Err(StartError::LimitReached)
            } else if status.raw == STATUS_ABORTED || status.raw == STATUS_INVALID_STATE {
                match self.conn_error {
                    Some(error) => Err(StartError::ConnectionLost(error)),
                    None => Err(StartError::ConnectionClosed),
                }
            } else {
                Err(StartError::Unknown(status.raw))
            },
            None => Ok(()),
        }
    }

    /// The start was asked for.
    pub open spec fn started(self) -> StreamView {
        StreamView {
            state: StreamState::Start,
            recv_state: if self.stream_type == StreamType::Bidirectional {
                StreamRecvState::Start
            } else {
                self.recv_state
            },
            send_state: StreamSendState::Start,
            ..self
        }
    }

    /// The peer accepted the stream.
    pub open spec fn accepted(self) -> StreamView {
        StreamView {
            state: StreamState::StartComplete,
            recv_state: if self.stream_type == StreamType::Bidirectional {
                StreamRecvState::StartComplete
            } else {
                self.recv_state
            },
            send_state: StreamSendState::StartComplete,
            ..self
        }
    }

    /// An event that ends the wait of those who wait for the start.
    pub open spec fn ends_start(event: StreamEvent) -> bool {
        match event {
            StreamEvent::StartComplete { status, peer_accepted } => !status.ok || peer_accepted,
            StreamEvent::ShutdownComplete { .. } | StreamEvent::PeerAccepted => true,
            _ => false,
        }
    }

    /// An event that ends the wait of those who wait for data.
    pub open spec fn ends_read(event: StreamEvent) -> bool {
        match event {
            StreamEvent::Receive { .. }
            | StreamEvent::PeerSendShutdown
            | StreamEvent::PeerSendAborted { .. }
            | StreamEvent::ShutdownComplete { .. } => true,
            _ => false,
        }
    }

    /// An event that ends the wait of those who wait for the sending direction to be shut down.
    pub open spec fn ends_write_shutdown(event: StreamEvent) -> bool {
        match event {
            StreamEvent::PeerReceiveAborted { .. } | StreamEvent::SendShutdownComplete => true,
            _ => false,
        }
    }

    /// The wakers that an event hands out: those of the waits that it ends.
    pub open spec fn woken_by(self, event: StreamEvent) -> Seq<Waker> {
        let start = if Self::ends_start(event) {
            self.start_waiters
        } else {
            Seq::empty()
        };
        let read = if Self::ends_read(event) {
            self.read_waiters
        } else {
            Seq::empty()
        };
        let write_shutdown = if Self::ends_write_shutdown(event) {
            self.write_shutdown_waiters
        } else {
            Seq::empty()
        };
        start + read + write_shutdown
    }

    /// What an event makes of the stream, but for the lists of wakers.
    pub open spec fn changed_by(self, event: StreamEvent) -> StreamView {
        match event {
            StreamEvent::StartComplete { status, peer_accepted } => {
                let after = StreamView { start_status: Some(status), ..self };
                if status.ok && peer_accepted {
                    after.accepted()
                } else {
                    after
                }
            },
            StreamEvent::Receive { buffers, fin } => StreamView {
                recv_buffers: self.recv_buffers.push(
                    RecvBufferView { offset: 0, pieces: pieces_of(buffers@), read: 0, fin },
                ),
                ..self
            },
            StreamEvent::SendComplete { .. } => StreamView {
                write_pool: self.write_pool + 1,
                ..self
            },
            StreamEvent::PeerSendShutdown => StreamView {
                recv_state: StreamRecvState::ShutdownComplete,
                ..self
            },
            StreamEvent::PeerSendAborted { error_code } => StreamView {
                recv_state: StreamRecvState::ShutdownComplete,
                recv_error_code: Some(error_code),
                ..self
            },
            StreamEvent::PeerReceiveAborted { error_code } => StreamView {
                send_state: StreamSendState::ShutdownComplete,
                send_error_code: Some(error_code),
                ..self
            },
            StreamEvent::SendShutdownComplete => StreamView {
                send_state: StreamSendState::ShutdownComplete,
                ..self
            },
            StreamEvent::ShutdownComplete { lost } => StreamView {
                state: StreamState::ShutdownComplete,
                recv_state: StreamRecvState::ShutdownComplete,
                send_state: StreamSendState::ShutdownComplete,
                conn_error: match lost {
                    Some(lost) => Some(lost.error()),
                    None => self.conn_error,
                },
                ..self
            },
            StreamEvent::PeerAccepted => self.accepted(),
            StreamEvent::IdealSendBufferSize | StreamEvent::Other => self,
        }
    }

    /// What an event makes of the stream. The waits that it ends are forgotten.
    pub open spec fn after_event(self, event: StreamEvent) -> StreamView {
        StreamView {
            start_waiters: if Self::ends_start(event) {
                Seq::empty()
            } else {
                self.start_waiters
            },
            read_waiters: if Self::ends_read(event) {
                Seq::empty()
            } else {
                self.read_waiters
            },
            write_shutdown_waiters: if Self::ends_write_shutdown(event) {
                Seq::empty()
            } else {
                self.write_shutdown_waiters
            },
            ..self.changed_by(event)
        }
    }
}

/// The state is the same, but that where `starting`, the waker of `cx` was added to those that
/// wait for the start.
pub open spec fn waited_for_start(
    before: StreamView,
    cx: Context<'_>,
    starting: bool,
    after: StreamView,
) -> bool {
    if starting {
        &&& appended(before.start_waiters, context_waker(cx), after.start_waiters)
        &&& after == (StreamView { start_waiters: after.start_waiters, ..before })
    } else {
        after == before
    }
}

/// The state is the same, but that the waker of `cx` was added to those that wait for data.
pub open spec fn waited_for_data(before: StreamView, cx: Context<'_>, after: StreamView) -> bool {
    &&& appended(before.read_waiters, context_waker(cx), after.read_waiters)
    &&& after == (StreamView { read_waiters: after.read_waiters, ..before })
}

/// The state is the same, but that the waker of `cx` was added to those that wait for the sending
/// direction to be shut down.
pub open spec fn waited_for_shutdown(
    before: StreamView,
    cx: Context<'_>,
    after: StreamView,
) -> bool {
    &&& appended(before.write_shutdown_waiters, context_waker(cx), after.write_shutdown_waiters)
    &&& after == (StreamView { write_shutdown_waiters: after.write_shutdown_waiters, ..before })
}

/// The answer to a writer where the stream cannot be written to.
pub open spec fn refused_write<T>(stream: StreamView) -> Poll<Result<T, WriteError>> {
    match stream.write_gate() {
        WriteGate::Closed => Poll::Ready(Err(WriteError::Closed)),
        WriteGate::Starting => Poll::Pending,
        WriteGate::Lost(error) => Poll::Ready(Err(WriteError::ConnectionLost(error))),
        WriteGate::Stopped(error_code) => Poll::Ready(Err(WriteError::Stopped(error_code))),
        WriteGate::Open | WriteGate::ShuttingDown | WriteGate::Done => Poll::Ready(
            Err(WriteError::Finished),
        ),
    }
}

/// An attempt to write `data`, `amount` bytes in all, came to `answer`: where the stream is open,
/// all of it is to be sent.
pub open spec fn written(
    before: StreamView,
    cx: Context<'_>,
    data: WriteBufferView,
    amount: nat,
    fin: bool,
    answer: (Poll<Result<usize, WriteError>>, Option<StreamSend>),
    after: StreamView,
) -> bool {
    if before.write_gate() == WriteGate::Open {
        &&& answer.0 == Poll::<Result<usize, WriteError>>::Ready(Ok(amount as usize))
        &&& amount <= usize::MAX
        &&& answer.1 matches Some(send)
        &&& send.buffer@ == data
        &&& send.fin == fin
        &&& after == before.with_buffer_taken()
    } else {
        &&& answer.0 == refused_write::<usize>(before)
        &&& answer.1 is None
        &&& waited_for_start(before, cx, before.write_gate() == WriteGate::Starting, after)
    }
}

/// The answer to a writer that shuts the sending direction down, and waits until that is done.
pub open spec fn shut_down_answer(stream: StreamView) -> Poll<Result<(), WriteError>> {
    match stream.write_gate() {
        WriteGate::Starting | WriteGate::Open | WriteGate::ShuttingDown => Poll::Pending,
        WriteGate::Lost(error) => Poll::Ready(Err(WriteError::ConnectionLost(error))),
        WriteGate::Stopped(error_code) => Poll::Ready(Err(WriteError::Stopped(error_code))),
        WriteGate::Done => Poll::Ready(Ok(())),
        WriteGate::Closed => Poll::Ready(Err(WriteError::Closed)),
    }
}

/// An attempt to shut the sending direction down came to `answer`: it is asked for once, and the
/// writer waits until it is done.
pub open spec fn write_shut_down(
    before: StreamView,
    cx: Context<'_>,
    shutdown: StreamShutdown,
    answer: (Poll<Result<(), WriteError>>, Option<StreamShutdown>),
    after: StreamView,
) -> bool {
    &&& answer.0 == shut_down_answer(before)
    &&& match before.write_gate() {
        WriteGate::Starting => {
            &&& answer.1 is None
            &&& waited_for_start(before, cx, true, after)
        },
        WriteGate::Open => {
            &&& answer.1 == Some(shutdown)
            &&& waited_for_shutdown(
                StreamView { send_state: StreamSendState::Shutdown, ..before },
                cx,
                after,
            )
        },
        WriteGate::ShuttingDown => {
            &&& answer.1 is None
            &&& waited_for_shutdown(before, cx, after)
        },
        _ => {
            &&& answer.1 is None
            &&& after == before
        },
    }
}

impl View for Stream {
    type V = StreamView;

    closed spec fn view(&self) -> StreamView {
        StreamView {
            stream_type: self.stream_type,
            state: self.state,
            start_status: self.start_status,
            recv_state: self.recv_state,
            recv_buffers: views_of(self.recv_buffers@),
            send_state: self.send_state,
            write_pool: self.write_pool@.len(),
            recv_error_code: self.recv_error_code,
            send_error_code: self.send_error_code,
            conn_error: self.conn_error,
            start_waiters: self.start_waiters@,
            read_waiters: self.read_waiters@,
            write_shutdown_waiters: self.write_shutdown_waiters@,
        }
    }
}

/// The lengths of the data of `buffers`, read or not.
fn buffer_lengths(buffers: &Vec<StreamRecvBuffer>) -> (lengths: Vec<usize>)
    requires
        all_well_formed(buffers@),
    ensures
        lengths@ == lengths_of(views_of(buffers@)),
{
    let mut lengths: Vec<usize> = Vec::new();
    let mut i: usize = 0;
    while i < buffers.len()
        invariant
            i <= buffers@.len(),
            all_well_formed(buffers@),
            lengths@.len() == i,
            forall|j: int|
                0 <= j < i ==> #[trigger] lengths@[j] == lengths_of(views_of(buffers@))[j],
        decreases buffers@.len() - i,
    {
        let range = buffers[i].range();
        lengths.push(range.end - range.start);
        i += 1;
    }
    assert(lengths@ =~= lengths_of(views_of(buffers@)));
    lengths
}

impl Stream {
    /// Received buffers are consistent, and pooled buffers are blank.
    pub closed spec fn well_formed(&self) -> bool {
        &&& all_well_formed(self.recv_buffers@)
        &&& forall|i: int|
            0 <= i < self.write_pool@.len() ==> (#[trigger] self.write_pool@[i])@
                == WriteBufferView::blank()
    }

    fn fresh(
        stream_type: StreamType,
        state: StreamState,
        send_state: StreamSendState,
        recv_state: StreamRecvState,
    ) -> (stream: Self)
        ensures
            stream.well_formed(),
            stream@ == StreamView::fresh(stream_type, state, send_state, recv_state),
    {
        let stream = Stream {
            stream_type,
            state,
            start_status: None,
            recv_state,
            recv_buffers: VecDeque::new(),
            send_state,
            write_pool: Vec::new(),
            recv_error_code: None,
            send_error_code: None,
            conn_error: None,
            start_waiters: Vec::new(),
            read_waiters: Vec::new(),
            write_shutdown_waiters: Vec::new(),
        };
        assert(stream@.recv_buffers =~= Seq::empty());
        stream
    }

    /// A stream that this side opens; not started yet.
    pub fn open(stream_type: StreamType) -> (stream: Self)
        ensures
            stream.well_formed(),
            stream@ == StreamView::fresh(
                stream_type,
                StreamState::Open,
                StreamSendState::Closed,
                StreamRecvState::Closed,
            ),
    {
        Self::fresh(
            stream_type,
            StreamState::Open,
            StreamSendState::Closed,
            StreamRecvState::Closed,
        )
    }

    /// A stream that the peer opened.
    pub fn from_handle(stream_type: StreamType) -> (stream: Self)
        ensures
            stream.well_formed(),
            stream@ == StreamView::fresh(
                stream_type,
                StreamState::StartComplete,
                if stream_type == StreamType::Bidirectional {
                    StreamSendState::StartComplete
                } else {
                    StreamSendState::Closed
                },
                StreamRecvState::StartComplete,
            ),
    {
        let send_state = if stream_type == StreamType::Bidirectional {
            StreamSendState::StartComplete
        } else {
            StreamSendState::Closed
        };
        Self::fresh(
            stream_type,
            StreamState::StartComplete,
            send_state,
            StreamRecvState::StartComplete,
        )
    }

    /// What a reader finds.
    pub fn read_gate(&self) -> (gate: ReadGate)
        ensures
            gate == self@.read_gate(),
    {
        match self.recv_state {
            StreamRecvState::Closed => ReadGate::Closed,
            StreamRecvState::Start => ReadGate::Starting,
            StreamRecvState::StartComplete => ReadGate::Open,
            StreamRecvState::ShutdownComplete => {
                if let Some(conn_error) = self.conn_error {
                    ReadGate::Lost(conn_error)
                } else if let Some(error_code) = self.recv_error_code {
                    ReadGate::Reset(error_code)
                } else {
                    ReadGate::End
                }
            },
        }
    }

    /// What a writer finds.
    pub fn write_gate(&self) -> (gate: WriteGate)
        ensures
            gate == self@.write_gate(),
    {
        match self.send_state {
            StreamSendState::Closed => WriteGate::Closed,
            StreamSendState::Start => WriteGate::Starting,
            StreamSendState::StartComplete => WriteGate::Open,
            StreamSendState::Shutdown => WriteGate::ShuttingDown,
            StreamSendState::ShutdownComplete => {
                if let Some(conn_error) = self.conn_error {
                    WriteGate::Lost(conn_error)
                } else if let Some(error_code) = self.send_error_code {
                    WriteGate::Stopped(error_code)
                } else {
                    WriteGate::Done
                }
            },
        }
    }

    /// Start the stream, and wait for that. Carry out the start that comes back.
    pub fn poll_start(&mut self, cx: &Context<'_>, failed_on_block: bool) -> (answer: (
        Poll<Result<(), StartError>>,
        Option<StreamStart>,
    ))
        requires
            old(self).well_formed(),
        ensures
            final(self).well_formed(),
            match old(self)@.state {
                StreamState::Open => {
                    &&& answer.0 == Poll::<Result<(), StartError>>::Pending
                    &&& answer.1 == Some(StreamStart { fail_blocked: failed_on_block })
                    &&& waited_for_start(old(self)@.started(), *cx, true, final(self)@)
                },
                StreamState::Start => {
                    &&& answer.0 == Poll::<Result<(), StartError>>::Pending
                    &&& answer.1 is None
                    &&& waited_for_start(old(self)@, *cx, true, final(self)@)
                },
                _ => {
                    &&& answer.0 == Poll::Ready(old(self)@.start_result())
                    &&& answer.1 is None
                    &&& final(self)@ == old(self)@
                },
            },
    {
        match self.state {
            StreamState::Open => {
                self.state = StreamState::Start;
                if self.stream_type == StreamType::Bidirectional {
                    self.recv_state = StreamRecvState::Start;
                }
                self.send_state = StreamSendState::Start;
                assert(self@ == old(self)@.started());
                append_waker(&mut self.start_waiters, cx);
                (Poll::Pending, Some(StreamStart { fail_blocked: failed_on_block }))
            },
            StreamState::Start => {
                append_waker(&mut self.start_waiters, cx);
                (Poll::Pending, None)
            },
            _ => {
                if let Some(start_status) = self.start_status {
                    if start_status.is_ok() {
                        return (Poll::Ready(Ok(())), None);
                    }
                    let error = if start_status.raw == STATUS_STREAM_LIMIT_REACHED {
                        StartError::LimitReached
                    } else if start_status.raw == STATUS_ABORTED || start_status.raw
                        == STATUS_INVALID_STATE {
                        if let Some(conn_error) = self.conn_error {
                            StartError::ConnectionLost(conn_error)
                        } else {
                            StartError::ConnectionClosed
                        }
                    } else {
                        StartError::Unknown(start_status.raw)
                    };
                    (Poll::Ready(Err(error)), None)
                } else {
                    (Poll::Ready(Ok(())), None)
                }
            },
        }
    }

    /// Read from the stream into `buf`. Tell MsQuic to take each of the lengths that come back as
    /// done with, in their order.
    pub fn poll_read(&mut self, cx: &Context<'_>, buf: &mut [u8]) -> (answer: (
        Poll<Result<usize, ReadError>>,
        Vec<usize>,
    ))
        requires
            old(self).well_formed(),
        ensures
            final(self).well_formed(),
            final(buf)@.len() == old(buf)@.len(),
            old(self)@.read_gate() != ReadGate::Open ==> {
                &&& final(buf)@ == old(buf)@
                &&& answer.1@.len() == 0
                &&& answer.0 == match old(self)@.read_gate() {
                    ReadGate::Closed => Poll::<Result<usize, ReadError>>::Ready(
                        Err(ReadError::Closed),
                    ),
                    ReadGate::Lost(error) => Poll::Ready(Err(ReadError::ConnectionLost(error))),
                    ReadGate::Reset(error_code) => Poll::Ready(Err(ReadError::Reset(error_code))),
                    ReadGate::End => Poll::Ready(Ok(0)),
                    _ => Poll::Pending,
                }
                &&& waited_for_start(
                    old(self)@,
                    *cx,
                    old(self)@.read_gate() == ReadGate::Starting,
                    final(self)@,
                )
            },
            old(self)@.read_gate() == ReadGate::Open ==> {
                let room = old(buf)@.len();
                let pending = old(self)@.pending();
                let read = if pending.len() < room {
                    pending.len()
                } else {
                    room
                };
                let finished = finished_by(old(self)@.recv_buffers, room);
                let at_end = finished.len() > 0 && finished.last().fin;
                let after_read = StreamView {
                    recv_buffers: left_by(old(self)@.recv_buffers, room),
                    ..old(self)@
                };
                &&& final(buf)@ == pending.take(read as int) + old(buf)@.skip(read as int)
                &&& pending == pending.take(read as int) + final(self)@.pending()
                &&& answer.1@ == lengths_of(finished)
                &&& if read < room && read == 0 && !at_end {
                    &&& answer.0 == Poll::<Result<usize, ReadError>>::Pending
                    &&& waited_for_data(after_read, *cx, final(self)@)
                } else {
                    &&& answer.0 == Poll::<Result<usize, ReadError>>::Ready(Ok(read as usize))
                    &&& final(self)@ == after_read
                }
            },
    {
        match self.read_gate() {
            ReadGate::Closed => {
                return (Poll::Ready(Err(ReadError::Closed)), Vec::new());
            },
            ReadGate::Starting => {
                append_waker(&mut self.start_waiters, cx);
                return (Poll::Pending, Vec::new());
            },
            ReadGate::Open => {},
            ReadGate::Lost(conn_error) => {
                return (Poll::Ready(Err(ReadError::ConnectionLost(conn_error))), Vec::new());
            },
            ReadGate::Reset(error_code) => {
                return (Poll::Ready(Err(ReadError::Reset(error_code))), Vec::new());
            },
            ReadGate::End => {
                return (Poll::Ready(Ok(0)), Vec::new());
            },
        }
        let mut finished: Vec<StreamRecvBuffer> = Vec::new();
        let status = read_into(&mut self.recv_buffers, &mut finished, buf);
        let lengths = buffer_lengths(&finished);
        let answer = match status {
            ReadStatus::Readable(read) => Poll::Ready(Ok(read)),
            ReadStatus::Blocked(Some(read)) => Poll::Ready(Ok(read)),
            ReadStatus::Finished(Some(read)) => Poll::Ready(Ok(read)),
            ReadStatus::Finished(None) => Poll::Ready(Ok(0)),
            ReadStatus::Blocked(None) => {
                append_waker(&mut self.read_waiters, cx);
                Poll::Pending
            },
        };
        (answer, lengths)
    }

    /// A blank buffer to write to, or the answer to a writer where the stream cannot be written to.
    fn poll_write_gate(&mut self, cx: &Context<'_>) -> (answer: Poll<
        Result<WriteBuffer, WriteError>,
    >)
        requires
            old(self).well_formed(),
        ensures
            final(self).well_formed(),
            if old(self)@.write_gate() == WriteGate::Open {
                &&& answer matches Poll::Ready(Ok(buffer))
                &&& buffer@ == WriteBufferView::blank()
                &&& final(self)@ == old(self)@.with_buffer_taken()
            } else {
                &&& answer == refused_write::<WriteBuffer>(old(self)@)
                &&& waited_for_start(
                    old(self)@,
                    *cx,
                    old(self)@.write_gate() == WriteGate::Starting,
                    final(self)@,
                )
            },
    {
        match self.write_gate() {
            WriteGate::Closed => {
                return Poll::Ready(Err(WriteError::Closed));
            },
            WriteGate::Starting => {
                append_waker(&mut self.start_waiters, cx);
                return Poll::Pending;
            },
            WriteGate::Open => {},
            WriteGate::ShuttingDown => {
                return Poll::Ready(Err(WriteError::Finished));
            },
            WriteGate::Lost(conn_error) => {
                return Poll::Ready(Err(WriteError::ConnectionLost(conn_error)));
            },
            WriteGate::Stopped(error_code) => {
                return Poll::Ready(Err(WriteError::Stopped(error_code)));
            },
            WriteGate::Done => {
                return Poll::Ready(Err(WriteError::Finished));
            },
        }
        match self.write_pool.pop() {
            Some(buffer) => Poll::Ready(Ok(buffer)),
            None => Poll::Ready(Ok(WriteBuffer::new())),
        }
    }

    /// The send that an attempt to write which came to `status` asks for, and the amount written.
    fn send_written(buffer: WriteBuffer, status: WriteStatus<usize>) -> (sent: (
        usize,
        StreamSend,
    ))
        requires
            status != WriteStatus::<usize>::Blocked(None),
        ensures
            sent.1.buffer == buffer,
            match status {
                WriteStatus::Writable(amount) | WriteStatus::Blocked(Some(amount)) => sent.0
                    == amount && !sent.1.fin,
                WriteStatus::Finished(Some(amount)) => sent.0 == amount && sent.1.fin,
                WriteStatus::Finished(None) => sent.0 == 0 && sent.1.fin,
                WriteStatus::Blocked(None) => true,
            },
    {
        match status {
            WriteStatus::Writable(amount) => (amount, StreamSend { buffer, fin: false }),
            WriteStatus::Blocked(Some(amount)) => (amount, StreamSend { buffer, fin: false }),
            WriteStatus::Finished(Some(amount)) => (amount, StreamSend { buffer, fin: true }),
            WriteStatus::Finished(None) => (0, StreamSend { buffer, fin: true }),
            WriteStatus::Blocked(None) => vstd::pervasive::unreached(),
        }
    }

    /// Write `buf` to the stream; with `fin` the stream ends with it. All of it is taken: carry
    /// out the send that comes back.
    pub fn poll_write(&mut self, cx: &Context<'_>, buf: &[u8], fin: bool) -> (answer: (
        Poll<Result<usize, WriteError>>,
        Option<StreamSend>,
    ))
        requires
            old(self).well_formed(),
        ensures
            final(self).well_formed(),
            written(
                old(self)@,
                *cx,
                WriteBufferView { internal: buf@, zerocopy: Seq::empty() },
                buf@.len(),
                fin,
                answer,
                final(self)@,
            ),
    {
        match self.poll_write_gate(cx) {
            Poll::Ready(Ok(mut write_buf)) => {
                let amount: usize = write_buf.put_slice(buf);
                assert(write_buf@.internal =~= buf@);
                let status = if !fin {
                    WriteStatus::Writable(amount)
                } else {
                    WriteStatus::from_parts(Some(amount), fin)
                };
                let (amount, send) = Self::send_written(write_buf, status);
                (Poll::Ready(Ok(amount)), Some(send))
            },
            Poll::Ready(Err(error)) => (Poll::Ready(Err(error)), None),
            Poll::Pending => (Poll::Pending, None),
        }
    }

    /// Write `buf` to the stream, without copying it.
    pub fn zerocopy_write(&mut self, cx: &Context<'_>, buf: &Bytes, fin: bool) -> (answer: (
        Poll<Result<usize, WriteError>>,
        Option<StreamSend>,
    ))
        requires
            old(self).well_formed(),
        ensures
            final(self).well_formed(),
            written(
                old(self)@,
                *cx,
                WriteBufferView { internal: Seq::empty(), zerocopy: seq![bytes_data(*buf)] },
                bytes_data(*buf).len(),
                fin,
                answer,
                final(self)@,
            ),
    {
        match self.poll_write_gate(cx) {
            Poll::Ready(Ok(mut write_buf)) => {
                let amount: usize = write_buf.put_zerocopy(buf);
                assert(write_buf@.zerocopy =~= seq![bytes_data(*buf)]);
                let status = if !fin {
                    WriteStatus::Writable(amount)
                } else {
                    WriteStatus::from_parts(Some(amount), fin)
                };
                let (amount, send) = Self::send_written(write_buf, status);
                (Poll::Ready(Ok(amount)), Some(send))
            },
            Poll::Ready(Err(error)) => (Poll::Ready(Err(error)), None),
            Poll::Pending => (Poll::Pending, None),
        }
    }

    /// Write a list of buffers to the stream, without copying them.
    pub fn zerocopy_write_vectored(
        &mut self,
        cx: &Context<'_>,
        bufs: &[Bytes],
        fin: bool,
    ) -> (answer: (Poll<Result<usize, WriteError>>, Option<StreamSend>))
        requires
            old(self).well_formed(),
            contents_of(bufs@).flatten().len() <= usize::MAX,
        ensures
            final(self).well_formed(),
            written(
                old(self)@,
                *cx,
                WriteBufferView { internal: Seq::empty(), zerocopy: contents_of(bufs@) },
                contents_of(bufs@).flatten().len(),
                fin,
                answer,
                final(self)@,
            ),
    {
        match self.poll_write_gate(cx) {
            Poll::Ready(Ok(mut write_buf)) => {
                let ghost contents = contents_of(bufs@);
                let mut total: usize = 0;
                let mut i: usize = 0;
                assert(contents.take(0) =~= Seq::empty());
                while i < bufs.len()
                    invariant
                        i <= bufs@.len(),
                        contents == contents_of(bufs@),
                        contents.flatten().len() <= usize::MAX,
                        write_buf@ == (WriteBufferView {
                            internal: Seq::empty(),
                            zerocopy: contents.take(i as int),
                        }),
                        total == contents.take(i as int).flatten().len(),
                    decreases bufs@.len() - i,
                {
                    proof {
                        taking_one_more_piece(contents, i as int);
                    }
                    total += write_buf.put_zerocopy(&bufs[i]);
                    i += 1;
                    assert(contents.take(i as int) =~= contents.take(i - 1).push(contents[i - 1]));
                }
                assert(contents.take(i as int) =~= contents);
                let status = if !fin {
                    WriteStatus::Writable(total)
                } else {
                    WriteStatus::from_parts(Some(total), fin)
                };
                let (amount, send) = Self::send_written(write_buf, status);
                (Poll::Ready(Ok(amount)), Some(send))
            },
            Poll::Ready(Err(error)) => (Poll::Ready(Err(error)), None),
            Poll::Pending => (Poll::Pending, None),
        }
    }

    fn poll_shutdown_write(&mut self, cx: &Context<'_>, shutdown: StreamShutdown) -> (answer: (
        Poll<Result<(), WriteError>>,
        Option<StreamShutdown>,
    ))
        requires
            old(self).well_formed(),
        ensures
            final(self).well_formed(),
            write_shut_down(old(self)@, *cx, shutdown, answer, final(self)@),
    {
        match self.write_gate() {
            WriteGate::Starting => {
                append_waker(&mut self.start_waiters, cx);
                (Poll::Pending, None)
            },
            WriteGate::Open => {
                self.send_state = StreamSendState::Shutdown;
                append_waker(&mut self.write_shutdown_waiters, cx);
                (Poll::Pending, Some(shutdown))
            },
            WriteGate::ShuttingDown => {
                append_waker(&mut self.write_shutdown_waiters, cx);
                (Poll::Pending, None)
            },
            WriteGate::Lost(conn_error) => (
                Poll::Ready(Err(WriteError::ConnectionLost(conn_error))),
                None,
            ),
            WriteGate::Stopped(error_code) => (
                Poll::Ready(Err(WriteError::Stopped(error_code))),
                None,
            ),
            WriteGate::Done => (Poll::Ready(Ok(())), None),
            WriteGate::Closed => (Poll::Ready(Err(WriteError::Closed)), None),
        }
    }

    /// End the sending direction once all data is delivered, and wait for that. Carry out the
    /// shutdown that comes back.
    pub fn poll_finish_write(&mut self, cx: &Context<'_>) -> (answer: (
        Poll<Result<(), WriteError>>,
        Option<StreamShutdown>,
    ))
        requires
            old(self).well_formed(),
        ensures
            final(self).well_formed(),
            write_shut_down(
                old(self)@,
                *cx,
                StreamShutdown::graceful(),
                answer,
                final(self)@,
            ),
    {
        self.poll_shutdown_write(cx, StreamShutdown::graceful())
    }

    /// Reset the sending direction, and wait for that. Carry out the shutdown that comes back.
    pub fn poll_abort_write(&mut self, cx: &Context<'_>, error_code: u64) -> (answer: (
        Poll<Result<(), WriteError>>,
        Option<StreamShutdown>,
    ))
        requires
            old(self).well_formed(),
        ensures
            final(self).well_formed(),
            write_shut_down(
                old(self)@,
                *cx,
                StreamShutdown::abort_send(error_code),
                answer,
                final(self)@,
            ),
    {
        self.poll_shutdown_write(cx, StreamShutdown::abort_send(error_code))
    }

    /// Ask the peer to stop sending, once the stream is started. Carry out the shutdown that comes
    /// back, and wake the readers that do.
    pub fn poll_abort_read(&mut self, cx: &Context<'_>, error_code: u64) -> (answer: (
        Poll<Result<(), ReadError>>,
        Option<StreamShutdown>,
        Vec<Waker>,
    ))
        requires
            old(self).well_formed(),
        ensures
            final(self).well_formed(),
            if old(self)@.read_gate() == ReadGate::Open {
                &&& answer.0 == Poll::<Result<(), ReadError>>::Ready(Ok(()))
                &&& answer.1 == Some(StreamShutdown::abort_receive(error_code))
                &&& answer.2@ == old(self)@.read_waiters
                &&& final(self)@ == (StreamView {
                    recv_state: StreamRecvState::ShutdownComplete,
                    read_waiters: Seq::empty(),
                    ..old(self)@
                })
            } else {
                &&& answer.0 == match old(self)@.read_gate() {
                    ReadGate::Closed => Poll::<Result<(), ReadError>>::Ready(
                        Err(ReadError::Closed),
                    ),
                    ReadGate::Lost(error) => Poll::Ready(Err(ReadError::ConnectionLost(error))),
                    ReadGate::Reset(error_code) => Poll::Ready(Err(ReadError::Reset(error_code))),
                    ReadGate::End => Poll::Ready(Ok(())),
                    _ => Poll::Pending,
                }
                &&& answer.1 is None
                &&& answer.2@ == Seq::<Waker>::empty()
                &&& waited_for_start(
                    old(self)@,
                    *cx,
                    old(self)@.read_gate() == ReadGate::Starting,
                    final(self)@,
                )
            },
    {
        match self.read_gate() {
            ReadGate::Starting => {
                append_waker(&mut self.start_waiters, cx);
                (Poll::Pending, None, Vec::new())
            },
            ReadGate::Open => {
                self.recv_state = StreamRecvState::ShutdownComplete;
                let woken = drain_wakers(&mut self.read_waiters);
                (Poll::Ready(Ok(())), Some(StreamShutdown::abort_receive(error_code)), woken)
            },
            ReadGate::Lost(conn_error) => (
                Poll::Ready(Err(ReadError::ConnectionLost(conn_error))),
                None,
                Vec::new(),
            ),
            ReadGate::Reset(error_code) => (
                Poll::Ready(Err(ReadError::Reset(error_code))),
                None,
                Vec::new(),
            ),
            ReadGate::End => (Poll::Ready(Ok(())), None, Vec::new()),
            ReadGate::Closed => (Poll::Ready(Err(ReadError::Closed)), None, Vec::new()),
        }
    }

    /// The stream is dropped: one that is not shut down is given up. Carry out the shutdown that
    /// comes back, and wait until [`Stream::is_shut_down`].
    pub fn close(&self) -> (shutdown: Option<StreamShutdown>)
        ensures
            shutdown == if self@.state != StreamState::ShutdownComplete {
                Some(StreamShutdown::abort_all())
            } else {
                None
            },
    {
        if self.state != StreamState::ShutdownComplete {
            Some(StreamShutdown::abort_all())
        } else {
            None
        }
    }

    /// Whether the stream is shut down.
    pub fn is_shut_down(&self) -> (shut_down: bool)
        ensures
            shut_down == (self@.state == StreamState::ShutdownComplete),
    {
        self.state == StreamState::ShutdownComplete
    }

    /// Drop received data that was not read. Tell MsQuic to take each of the lengths that come
    /// back as done with, in their order.
    pub fn drop_received(&mut self) -> (lengths: Vec<usize>)
        requires
            old(self).well_formed(),
        ensures
            final(self).well_formed(),
            final(self)@ == (StreamView { recv_buffers: Seq::empty(), ..old(self)@ }),
            lengths@ == lengths_of(old(self)@.recv_buffers),
    {
        let mut dropped: Vec<StreamRecvBuffer> = Vec::new();
        let ghost before = self@.recv_buffers;
        assert(views_of(dropped@) + views_of(self.recv_buffers@) =~= before);
        while self.recv_buffers.len() > 0
            invariant
                all_well_formed(dropped@),
                self.well_formed(),
                views_of(dropped@) + views_of(self.recv_buffers@) == before,
                self@ == (StreamView { recv_buffers: self@.recv_buffers, ..old(self)@ }),
            decreases self.recv_buffers@.len(),
        {
            if let Some(buffer) = self.recv_buffers.pop_front() {
                dropped.push(buffer);
            }
            assert(views_of(dropped@) + views_of(self.recv_buffers@) =~= before);
        }
        assert(self@.recv_buffers =~= Seq::empty());
        assert(views_of(dropped@) =~= before);
        buffer_lengths(&dropped)
    }

    fn handle_event_start_complete(&mut self, status: Status, peer_accepted: bool) -> (woken: Vec<
        Waker,
    >)
        requires
            old(self).well_formed(),
        ensures
            final(self).well_formed(),
            final(self)@ == old(self)@.after_event(
                StreamEvent::StartComplete { status, peer_accepted },
            ),
            woken@ == old(self)@.woken_by(StreamEvent::StartComplete { status, peer_accepted }),
    {
        self.start_status = Some(status);
        if status.is_ok() && peer_accepted {
            self.state = StreamState::StartComplete;
            if self.stream_type == StreamType::Bidirectional {
                self.recv_state = StreamRecvState::StartComplete;
            }
            self.send_state = StreamSendState::StartComplete;
        }
        if !status.is_ok() || peer_accepted {
            drain_wakers(&mut self.start_waiters)
        } else {
            Vec::new()
        }
    }

    fn handle_event_shutdown_complete(&mut self, lost: Option<ConnectionShutdown>) -> (woken: Vec<
        Waker,
    >)
        requires
            old(self).well_formed(),
        ensures
            final(self).well_formed(),
            final(self)@ == old(self)@.after_event(StreamEvent::ShutdownComplete { lost }),
            woken@ == old(self)@.woken_by(StreamEvent::ShutdownComplete { lost }),
    {
        self.state = StreamState::ShutdownComplete;
        self.recv_state = StreamRecvState::ShutdownComplete;
        self.send_state = StreamSendState::ShutdownComplete;
        if let Some(lost) = lost {
            let error = match (lost.by_app, lost.closed_remotely) {
                (true, true) => ConnectionError::ShutdownByPeer(lost.error_code),
                (true, false) => ConnectionError::ShutdownByLocal,
                (false, true) | (false, false) => {
                    ConnectionError::ShutdownByTransport(lost.close_status, lost.error_code)
                },
            };
            self.conn_error = Some(error);
        }
        let mut woken = drain_wakers(&mut self.start_waiters);
        woken.append(&mut self.read_waiters);
        woken
    }

    /// Take an event in. Wake the wakers that come back, and answer MsQuic with the status.
    pub fn handle_event(&mut self, event: StreamEvent) -> (reply: (StatusCode, Vec<Waker>))
        requires
            old(self).well_formed(),
            event matches StreamEvent::Receive { buffers, .. } ==> pieces_of(
                buffers@,
            ).flatten().len() <= usize::MAX,
        ensures
            final(self).well_formed(),
            final(self)@ == old(self)@.after_event(event),
            reply.0 == if event is Receive {
                StatusCode::Pending
            } else {
                StatusCode::Success
            },
            reply.1@ == old(self)@.woken_by(event),
    {
        let mut status = StatusCode::Success;
        let woken: Vec<Waker> = match event {
            StreamEvent::StartComplete { status: start_status, peer_accepted } => {
                self.handle_event_start_complete(start_status, peer_accepted)
            },
            StreamEvent::Receive { buffers, fin } => {
                let recv_buffer = StreamRecvBuffer::new(0, buffers, fin);
                self.recv_buffers.push_back(recv_buffer);
                assert(self@.recv_buffers =~= old(self)@.recv_buffers.push(recv_buffer@));
                status = StatusCode::Pending;
                drain_wakers(&mut self.read_waiters)
            },
            StreamEvent::SendComplete { buffer } => {
                let mut buffer = buffer;
                buffer.reset();
                self.write_pool.push(buffer);
                Vec::new()
            },
            StreamEvent::PeerSendShutdown => {
                self.recv_state = StreamRecvState::ShutdownComplete;
                drain_wakers(&mut self.read_waiters)
            },
            StreamEvent::PeerSendAborted { error_code } => {
                self.recv_state = StreamRecvState::ShutdownComplete;
                self.recv_error_code = Some(error_code);
                drain_wakers(&mut self.read_waiters)
            },
            StreamEvent::PeerReceiveAborted { error_code } => {
                self.send_state = StreamSendState::ShutdownComplete;
                self.send_error_code = Some(error_code);
                drain_wakers(&mut self.write_shutdown_waiters)
            },
            StreamEvent::SendShutdownComplete => {
                self.send_state = StreamSendState::ShutdownComplete;
                drain_wakers(&mut self.write_shutdown_waiters)
            },
            StreamEvent::ShutdownComplete { lost } => self.handle_event_shutdown_complete(lost),
            StreamEvent::PeerAccepted => {
                self.state = StreamState::StartComplete;
                if self.stream_type == StreamType::Bidirectional {
                    self.recv_state = StreamRecvState::StartComplete;
                }
                self.send_state = StreamSendState::StartComplete;
                drain_wakers(&mut self.start_waiters)
            },
            StreamEvent::IdealSendBufferSize | StreamEvent::Other => Vec::new(),
        };
        (status, woken)
    }
}

/// What is read is what was received: data that arrives is read after all that arrived before it,
/// and nothing else changes what is there to read.
pub proof fn events_only_append_data(stream: StreamView, event: StreamEvent)
    ensures
        stream.after_event(event).pending() == match event {
            StreamEvent::Receive { buffers, .. } => stream.pending() + pieces_of(
                buffers@,
            ).flatten(),
            _ => stream.pending(),
        },
{
    if let StreamEvent::Receive { buffers, fin } = event {
        let buffer = RecvBufferView { offset: 0, pieces: pieces_of(buffers@), read: 0, fin };
        received_data_is_read_last(stream.recv_buffers, buffer);
        assert(buffer.unread() =~= pieces_of(buffers@).flatten());
    }
}

/// A task that waits for data is woken by every event that brings some, or that changes what a
/// reader finds.
pub proof fn readers_are_woken(stream: StreamView, event: StreamEvent)
    requires
        stream.read_gate() == ReadGate::Open,
        stream.after_event(event).read_gate() != ReadGate::Open || stream.after_event(
            event,
        ).recv_buffers != stream.recv_buffers,
    ensures
        stream.after_event(event).read_waiters == Seq::<Waker>::empty(),
        forall|i: int|
            0 <= i < stream.read_waiters.len() ==> stream.woken_by(event).contains(
                #[trigger] stream.read_waiters[i],
            ),
{
    let woken = stream.woken_by(event);
    let start = if StreamView::ends_start(event) {
        stream.start_waiters
    } else {
        Seq::empty()
    };
    assert forall|i: int| 0 <= i < stream.read_waiters.len() implies woken.contains(
        #[trigger] stream.read_waiters[i],
    ) by {
        assert(woken[start.len() + i] == stream.read_waiters[i]);
    }
}

/// A task that waits for the start is woken by every event that ends the start, and by every start
/// that fails.
pub proof fn starters_are_woken(stream: StreamView, event: StreamEvent)
    requires
        stream.state == StreamState::Start,
        stream.after_event(event).state != StreamState::Start || (
        event matches StreamEvent::StartComplete { status, .. } && !status.ok),
    ensures
        stream.after_event(event).start_waiters == Seq::<Waker>::empty(),
        forall|i: int|
            0 <= i < stream.start_waiters.len() ==> stream.woken_by(event).contains(
                #[trigger] stream.start_waiters[i],
            ),
{
    let woken = stream.woken_by(event);
    assert forall|i: int| 0 <= i < stream.start_waiters.len() implies woken.contains(
        #[trigger] stream.start_waiters[i],
    ) by {
        assert(woken[i] == stream.start_waiters[i]);
    }
}

/// A task that waits for the sending direction to be shut down is woken by the events that tell
/// so of that direction.
pub proof fn finishers_are_woken(stream: StreamView, event: StreamEvent)
    requires
        stream.write_gate() == WriteGate::ShuttingDown,
        stream.after_event(event).write_gate() != WriteGate::ShuttingDown,
        !(event is ShutdownComplete || event is PeerAccepted || event is StartComplete),
    ensures
        stream.after_event(event).write_shutdown_waiters == Seq::<Waker>::empty(),
        stream.woken_by(event) == stream.write_shutdown_waiters,
{
    assert(stream.woken_by(event) =~= stream.write_shutdown_waiters);
}

} // verus!
