//! Streams.
use std::collections::VecDeque;
use std::ops::Range;
use std::task::{Context, Poll, Waker};

use bytes::Bytes;
use rangemap::RangeSet;

use vstd::prelude::*;

use crate::buffer::{
    bytes_data, chunk_is_prefix_of_unread, contents_of, pieces_of, taking_one_more_piece,
    RecvBufferView, StreamRecvBuffer, WriteBuffer, WriteBufferView,
};
use crate::connection::ConnectionError;
use crate::status::{Status, StatusCode};
use crate::sync::{context_waker, drain_wakers, register_waker, registered};

verus! {

/// `rangemap::RangeSet`, carried as an opaque value; [`covered`] names its contents.
#[verifier::external_type_specification]
#[verifier::external_body]
#[verifier::reject_recursive_types(T)]
pub struct ExRangeSet<T>(rangemap::RangeSet<T>);

/// The values that the ranges of a set cover.
pub uninterp spec fn covered(ranges: RangeSet<usize>) -> Set<usize>;

/// The values of a half-open range.
pub open spec fn values_in(range: Range<usize>) -> Set<usize> {
    Set::new(|value: usize| range.start <= value < range.end)
}

/// `RangeSet::new` makes an empty set.
#[verifier::external_body]
fn empty_range_set() -> (ranges: RangeSet<usize>)
    ensures
        covered(ranges) == Set::<usize>::empty(),
{
    RangeSet::new()
}

/// `RangeSet::insert` adds the values of a range to those that the set covers. It panics on an
/// empty range, so none is handed to it.
#[verifier::external_body]
fn insert_range(ranges: &mut RangeSet<usize>, range: Range<usize>)
    requires
        range.start < range.end,
    ensures
        covered(*final(ranges)) == covered(*old(ranges)).union(values_in(range)),
{
    ranges.insert(range)
}

/// `RangeSet::first` returns the lowest of the stored ranges. Ranges that touch are stored as
/// one, so it runs from the least value covered to the first one after it that is not.
#[verifier::external_body]
fn first_range(ranges: &RangeSet<usize>) -> (first: Option<Range<usize>>)
    ensures
        first is None <==> covered(*ranges) == Set::<usize>::empty(),
        first matches Some(first) ==> {
            &&& first.start < first.end
            &&& values_in(first).subset_of(covered(*ranges))
            &&& forall|value: usize| #[trigger]
                covered(*ranges).contains(value) ==> first.start <= value
            &&& !covered(*ranges).contains(first.end)
        },
{
    ranges.first().cloned()
}

/// Whether a stream carries data in both directions or only from the side that opened it.
#[derive(Clone, Copy, Debug, PartialEq, Eq, Structural)]
pub enum StreamType {
    Bidirectional,
    Unidirectional,
}

#[derive(Clone, Copy, Debug, PartialEq, Eq, Structural)]
pub enum StreamState {
    Open,
    Start,
    StartComplete,
    ShutdownComplete,
}

#[derive(Clone, Copy, Debug, PartialEq, Eq, Structural)]
pub enum StreamRecvState {
    Closed,
    Start,
    StartComplete,
    ShutdownComplete,
}

#[derive(Clone, Copy, Debug, PartialEq, Eq, Structural)]
pub enum StreamSendState {
    Closed,
    Start,
    StartComplete,
    Shutdown,
    ShutdownComplete,
}

/// Errors that can occur when starting a stream.
#[derive(Clone, Copy, Debug, PartialEq, Eq, Structural)]
pub enum StartError {
    ConnectionNotStarted,
    LimitReached,
    ConnectionLost(ConnectionError),
    Unknown(u32),
}

/// Errors that can occur when reading from a stream.
#[derive(Clone, Copy, Debug, PartialEq, Eq, Structural)]
pub enum ReadError {
    Closed,
    Reset(u64),
    ConnectionLost(ConnectionError),
}

/// Errors that can occur when writing to a stream.
#[derive(Clone, Copy, Debug, PartialEq, Eq, Structural)]
pub enum WriteError {
    Closed,
    Finished,
    Stopped(u64),
    ConnectionLost(ConnectionError),
}

/// The kinds of I/O error that stream errors are reported as.
#[derive(Clone, Copy, Debug, PartialEq, Eq, Structural)]
pub enum IoErrorKind {
    NotConnected,
    ConnectionReset,
    ConnectionAborted,
}

impl ReadError {
    /// The kind of I/O error that this error is reported as.
    pub open spec fn io_kind_spec(self) -> IoErrorKind {
        match self {
            ReadError::Closed => IoErrorKind::NotConnected,
            ReadError::Reset(_) => IoErrorKind::ConnectionReset,
            ReadError::ConnectionLost(error) => if error == ConnectionError::ConnectionClosed {
                IoErrorKind::NotConnected
            } else {
                IoErrorKind::ConnectionAborted
            },
        }
    }

    /// The kind of I/O error that this error is reported as.
    pub fn io_kind(&self) -> (kind: IoErrorKind)
        ensures
            kind == self.io_kind_spec(),
    {
        match self {
            ReadError::Closed => IoErrorKind::NotConnected,
            ReadError::Reset(_) => IoErrorKind::ConnectionReset,
            ReadError::ConnectionLost(ConnectionError::ConnectionClosed) => {
                IoErrorKind::NotConnected
            },
            ReadError::ConnectionLost(_) => IoErrorKind::ConnectionAborted,
        }
    }
}

impl WriteError {
    /// The kind of I/O error that this error is reported as.
    pub open spec fn io_kind_spec(self) -> IoErrorKind {
        match self {
            WriteError::Closed | WriteError::Finished => IoErrorKind::NotConnected,
            WriteError::Stopped(_) => IoErrorKind::ConnectionReset,
            WriteError::ConnectionLost(error) => if error == ConnectionError::ConnectionClosed {
                IoErrorKind::NotConnected
            } else {
                IoErrorKind::ConnectionAborted
            },
        }
    }

    /// The kind of I/O error that this error is reported as.
    pub fn io_kind(&self) -> (kind: IoErrorKind)
        ensures
            kind == self.io_kind_spec(),
    {
        match self {
            WriteError::Closed
            | WriteError::Finished
            | WriteError::ConnectionLost(ConnectionError::ConnectionClosed) => {
                IoErrorKind::NotConnected
            },
            WriteError::Stopped(_) => IoErrorKind::ConnectionReset,
            WriteError::ConnectionLost(_) => IoErrorKind::ConnectionAborted,
        }
    }
}

/// What an attempt to read came to.
#[derive(Debug)]
pub enum ReadStatus<T> {
    Readable(T),
    Finished(Option<T>),
    Blocked(Option<T>),
}

impl<T> ReadStatus<T> {
    /// What was read, and whether the end of the stream was reached with it.
    pub fn from_parts(read: Option<T>, fin: bool) -> (status: Self)
        ensures
            status == if fin {
                ReadStatus::Finished(read)
            } else {
                ReadStatus::Blocked(read)
            },
    {
        if fin {
            ReadStatus::Finished(read)
        } else {
            ReadStatus::Blocked(read)
        }
    }
}

/// What an attempt to write came to.
#[derive(Debug)]
pub enum WriteStatus<T> {
    Writable(T),
    Finished(Option<T>),
    Blocked(Option<T>),
}

impl<T> WriteStatus<T> {
    /// What was written, and whether the stream is to end with it.
    pub fn from_parts(written: Option<T>, fin: bool) -> (status: Self)
        ensures
            status == if fin {
                WriteStatus::Finished(written)
            } else {
                WriteStatus::Blocked(written)
            },
    {
        if fin {
            WriteStatus::Finished(written)
        } else {
            WriteStatus::Blocked(written)
        }
    }
}

/// The start to ask of MsQuic. It always shuts the stream down if it fails, and always tells when
/// the peer accepted the stream.
#[derive(Clone, Copy, Debug, PartialEq, Eq, Structural)]
pub struct StreamStart {
    /// Fail where the peer's stream limit is reached, in place of waiting.
    pub fail_blocked: bool,
}

/// The shutdown to ask of MsQuic.
#[derive(Clone, Copy, Debug, PartialEq, Eq, Structural)]
pub struct StreamShutdown {
    pub graceful: bool,
    pub abort_send: bool,
    pub abort_receive: bool,
    pub immediate: bool,
    pub error_code: u64,
}

impl StreamShutdown {
    pub open spec fn graceful_spec() -> StreamShutdown {
        StreamShutdown {
            graceful: true,
            abort_send: false,
            abort_receive: false,
            immediate: false,
            error_code: 0,
        }
    }

    pub open spec fn abort_send_spec(error_code: u64) -> StreamShutdown {
        StreamShutdown {
            graceful: false,
            abort_send: true,
            abort_receive: false,
            immediate: false,
            error_code,
        }
    }

    pub open spec fn abort_receive_spec(error_code: u64) -> StreamShutdown {
        StreamShutdown {
            graceful: false,
            abort_send: false,
            abort_receive: true,
            immediate: false,
            error_code,
        }
    }

    pub open spec fn abort_all_spec() -> StreamShutdown {
        StreamShutdown {
            graceful: false,
            abort_send: true,
            abort_receive: true,
            immediate: true,
            error_code: 0,
        }
    }

    /// End the sending direction once all data is delivered.
    #[verifier::when_used_as_spec(graceful_spec)]
    pub fn graceful() -> (shutdown: Self)
        ensures
            shutdown == Self::graceful_spec(),
    {
        StreamShutdown {
            graceful: true,
            abort_send: false,
            abort_receive: false,
            immediate: false,
            error_code: 0,
        }
    }

    /// Reset the sending direction.
    #[verifier::when_used_as_spec(abort_send_spec)]
    pub fn abort_send(error_code: u64) -> (shutdown: Self)
        ensures
            shutdown == Self::abort_send_spec(error_code),
    {
        StreamShutdown {
            graceful: false,
            abort_send: true,
            abort_receive: false,
            immediate: false,
            error_code,
        }
    }

    /// Ask the peer to stop sending.
    #[verifier::when_used_as_spec(abort_receive_spec)]
    pub fn abort_receive(error_code: u64) -> (shutdown: Self)
        ensures
            shutdown == Self::abort_receive_spec(error_code),
    {
        StreamShutdown {
            graceful: false,
            abort_send: false,
            abort_receive: true,
            immediate: false,
            error_code,
        }
    }

    /// Give the stream up in both directions at once.
    #[verifier::when_used_as_spec(abort_all_spec)]
    pub fn abort_all() -> (shutdown: Self)
        ensures
            shutdown == Self::abort_all_spec(),
    {
        StreamShutdown {
            graceful: false,
            abort_send: true,
            abort_receive: true,
            immediate: true,
            error_code: 0,
        }
    }
}

/// Data to hand to MsQuic.
pub struct StreamSend {
    pub buffer: WriteBuffer,
    /// The stream ends with this data.
    pub fin: bool,
}

/// A handle that can only be used to read from a stream.
#[derive(Debug)]
pub struct ReadStream<H>(pub H);

/// A handle that can only be used to write to a stream.
#[derive(Debug)]
pub struct WriteStream<H>(pub H);

/// `halves` are those of a stream that `handle` leads to: a bidirectional stream has both, a
/// unidirectional one only that of this side.
pub open spec fn is_split<H: Clone>(
    stream_type: StreamType,
    local_open: bool,
    handle: H,
    halves: (Option<ReadStream<H>>, Option<WriteStream<H>>),
) -> bool {
    match (stream_type, local_open) {
        (StreamType::Unidirectional, true) => {
            &&& halves.0 is None
            &&& halves.1 == Some(WriteStream(handle))
        },
        (StreamType::Unidirectional, false) => {
            &&& halves.0 == Some(ReadStream(handle))
            &&& halves.1 is None
        },
        (StreamType::Bidirectional, _) => {
            &&& halves.0 matches Some(read)
            &&& cloned(handle, read.0)
            &&& halves.1 == Some(WriteStream(handle))
        },
    }
}

/// Split the stream that `handle` leads to into its halves.
pub fn split_handle<H: Clone>(
    stream_type: StreamType,
    local_open: bool,
    handle: H,
) -> (halves: (Option<ReadStream<H>>, Option<WriteStream<H>>))
    ensures
        is_split(stream_type, local_open, handle, halves),
{
    match (stream_type, local_open) {
        (StreamType::Unidirectional, true) => (None, Some(WriteStream(handle))),
        (StreamType::Unidirectional, false) => (Some(ReadStream(handle)), None),
        (StreamType::Bidirectional, _) => {
            let read = ReadStream(handle.clone());
            (Some(read), Some(WriteStream(handle)))
        },
    }
}

/// A bidirectional or unidirectional stream.
///
/// The stream decides: what it asks of MsQuic comes back from its methods as values, for the
/// owner of the native handle to carry out, and the wakers of the tasks that have to be polled
/// again come back from the event handlers.
pub struct Stream {
    stream_type: StreamType,
    local_open: bool,
    id: Option<u64>,
    state: StreamState,
    start_status: Option<Status>,
    recv_state: StreamRecvState,
    recv_buffers: VecDeque<StreamRecvBuffer>,
    read_complete_map: RangeSet<usize>,
    read_complete_cursor: usize,
    send_state: StreamSendState,
    fin_sent: bool,
    end_read: bool,
    write_pool: Vec<WriteBuffer>,
    recv_error_code: Option<u64>,
    send_error_code: Option<u64>,
    conn_error: Option<ConnectionError>,
    start_waiters: Vec<Waker>,
    read_waiters: Vec<Waker>,
    write_shutdown_waiters: Vec<Waker>,
}

/// What a [`Stream`] holds.
#[verifier::ext_equal]
pub struct StreamView {
    pub stream_type: StreamType,
    /// Whether this side opened the stream.
    pub local_open: bool,
    pub id: Option<u64>,
    pub state: StreamState,
    /// How the start ended.
    pub start_status: Option<Status>,
    pub recv_state: StreamRecvState,
    /// Received data that was not handed out whole yet, in the order of arrival.
    pub recv_buffers: Seq<RecvBufferView>,
    /// The part of the stream that the application is done with.
    pub completed: Set<usize>,
    /// How much of the stream MsQuic was told is done with.
    pub read_complete_cursor: nat,
    pub send_state: StreamSendState,
    /// Data was handed to MsQuic that the stream ends with.
    pub fin_sent: bool,
    /// The end of the stream was handed out to a reader.
    pub end_read: bool,
    /// How many blank buffers are kept for later writes.
    pub write_pool: nat,
    pub recv_error_code: Option<u64>,
    pub send_error_code: Option<u64>,
    pub conn_error: Option<ConnectionError>,
    pub start_waiters: Seq<Waker>,
    pub read_waiters: Seq<Waker>,
    pub write_shutdown_waiters: Seq<Waker>,
}

/// How the connection of a stream was shut down.
#[derive(Clone, Copy, Debug, PartialEq, Eq, Structural)]
pub struct ConnectionShutdown {
    /// An application closed the connection, not the transport.
    pub by_app: bool,
    /// The peer closed it, not this side.
    pub closed_remotely: bool,
    pub error_code: u64,
    pub close_status: Status,
}

impl ConnectionShutdown {
    /// The error that the users of the stream see.
    pub open spec fn error(self) -> ConnectionError {
        if !self.by_app {
            ConnectionError::ShutdownByTransport(self.close_status, self.error_code)
        } else if self.closed_remotely {
            ConnectionError::ShutdownByPeer(self.error_code)
        } else {
            ConnectionError::ShutdownByLocal
        }
    }
}

/// What MsQuic tells of a stream.
pub enum StreamEvent {
    /// The start is over, unless it waits for the peer to accept the stream.
    StartComplete { status: Status, id: u64, peer_accepted: bool },
    /// Data arrived.
    Receive { absolute_offset: u64, buffers: Vec<Vec<u8>>, fin: bool },
    /// MsQuic is done with a buffer.
    SendComplete { buffer: WriteBuffer },
    /// The peer ended its sending direction.
    PeerSendShutdown,
    /// The peer reset its sending direction.
    PeerSendAborted { error_code: u64 },
    /// The peer asked to stop sending.
    PeerReceiveAborted { error_code: u64 },
    /// The sending direction is shut down.
    SendShutdownComplete,
    /// The stream is shut down; `lost` tells of the connection, where that was shut down.
    ShutdownComplete { lost: Option<ConnectionShutdown> },
    /// How much data to keep in flight.
    IdealSendBufferSize,
    /// The peer accepted the stream.
    PeerAccepted,
    /// Anything else.
    Other,
}

/// What came of an event.
pub struct StreamReply {
    /// The answer to MsQuic.
    pub status: StatusCode,
    /// The wakers to wake.
    pub woken: Vec<Waker>,
}

/// What a reader finds.
#[derive(Clone, Copy, Debug, PartialEq, Eq, Structural)]
pub enum ReadGate {
    /// The stream is not open for reading.
    Closed,
    /// The stream is starting.
    Starting,
    /// Data can be read.
    Open,
    /// The connection went away.
    Lost(ConnectionError),
    /// The peer reset the stream.
    Reset(u64),
    /// Everything was read.
    End,
}

/// What a writer finds.
#[derive(Clone, Copy, Debug, PartialEq, Eq, Structural)]
pub enum WriteGate {
    /// The stream is not open for writing.
    Closed,
    /// The stream is starting.
    Starting,
    /// Data can be written.
    Open,
    /// The sending direction is being shut down.
    ShuttingDown,
    /// The connection went away.
    Lost(ConnectionError),
    /// The peer asked to stop.
    Stopped(u64),
    /// The sending direction is shut down.
    Done,
}

/// The views of a list of received buffers.
pub open spec fn views_of(buffers: Seq<StreamRecvBuffer>) -> Seq<RecvBufferView> {
    buffers.map_values(|buffer: StreamRecvBuffer| buffer@)
}

/// Every buffer of the list is consistent.
pub open spec fn all_well_formed(buffers: Seq<StreamRecvBuffer>) -> bool {
    forall|i: int| 0 <= i < buffers.len() ==> (#[trigger] buffers[i]).well_formed()
}

/// Received data that was not read yet, in order.
pub open spec fn pending_data(buffers: Seq<RecvBufferView>) -> Seq<u8> {
    buffers.map_values(|buffer: RecvBufferView| buffer.unread()).flatten()
}

/// `length` is how far `completed` runs from the start of the stream without a gap.
pub open spec fn contiguous(completed: Set<usize>, length: nat) -> bool {
    &&& length <= usize::MAX
    &&& forall|value: usize| value < length ==> #[trigger] completed.contains(value)
    &&& !completed.contains(length as usize)
}

/// The state is the same, but that where `starting`, the waker of `cx` was recorded among those
/// that wait for the start.
pub open spec fn waited_for_start(
    before: StreamView,
    cx: Context<'_>,
    starting: bool,
    after: StreamView,
) -> bool {
    if starting {
        &&& registered(before.start_waiters, context_waker(cx), after.start_waiters)
        &&& after == (StreamView { start_waiters: after.start_waiters, ..before })
    } else {
        after == before
    }
}

/// The state is the same, but that the waker of `cx` was recorded among those that wait for data.
pub open spec fn waited_for_data(before: StreamView, cx: Context<'_>, after: StreamView) -> bool {
    &&& registered(before.read_waiters, context_waker(cx), after.read_waiters)
    &&& after == (StreamView { read_waiters: after.read_waiters, ..before })
}

/// The state is the same, but that the waker of `cx` was recorded among those that wait for the
/// sending direction to be shut down.
pub open spec fn waited_for_shutdown(
    before: StreamView,
    cx: Context<'_>,
    after: StreamView,
) -> bool {
    &&& registered(
        before.write_shutdown_waiters,
        context_waker(cx),
        after.write_shutdown_waiters,
    )
    &&& after == (StreamView { write_shutdown_waiters: after.write_shutdown_waiters, ..before })
}

/// The answer to a reader where the stream cannot be read from.
pub open spec fn refused_read<T>(stream: StreamView) -> Poll<Result<Option<T>, ReadError>> {
    match stream.read_gate() {
        ReadGate::Closed => Poll::Ready(Err(ReadError::Closed)),
        ReadGate::Starting | ReadGate::Open => Poll::Pending,
        ReadGate::Lost(error) => Poll::Ready(Err(ReadError::ConnectionLost(error))),
        ReadGate::Reset(error_code) => Poll::Ready(Err(ReadError::Reset(error_code))),
        ReadGate::End => Poll::Ready(Ok(None)),
    }
}

/// The answer to a writer where the stream cannot be written to.
pub open spec fn refused_write<T>(stream: StreamView) -> Poll<Result<T, WriteError>> {
    match stream.write_gate() {
        WriteGate::Closed => Poll::Ready(Err(WriteError::Closed)),
        WriteGate::Starting => Poll::Pending,
        WriteGate::Lost(error) => Poll::Ready(Err(WriteError::ConnectionLost(error))),
        WriteGate::Stopped(error_code) => Poll::Ready(Err(WriteError::Stopped(error_code))),
        WriteGate::Open | WriteGate::ShuttingDown | WriteGate::Done => Poll::Ready(
            Err(WriteError::Finished),
        ),
    }
}

/// An attempt to write `data`, `amount` bytes in all, came to `answer`: where the stream accepts
/// data, all of it is to be sent, and with `fin` the stream accepts no more.
pub open spec fn written(
    before: StreamView,
    cx: Context<'_>,
    data: WriteBufferView,
    amount: nat,
    fin: bool,
    answer: (Poll<Result<usize, WriteError>>, Option<StreamSend>),
    after: StreamView,
) -> bool {
    if before.accepts_data() {
        &&& answer.0 == Poll::<Result<usize, WriteError>>::Ready(Ok(amount as usize))
        &&& amount <= usize::MAX
        &&& answer.1 matches Some(send)
        &&& send.buffer@ == data
        &&& send.fin == fin
        &&& after == (StreamView { fin_sent: fin, ..before.with_buffer_taken() })
    } else {
        &&& answer.0 == refused_write::<usize>(before)
        &&& answer.1 is None
        &&& waited_for_start(before, cx, before.write_gate() == WriteGate::Starting, after)
    }
}

/// The answer to a writer that shuts the sending direction down, and waits until that is done.
pub open spec fn shut_down_answer(stream: StreamView) -> Poll<Result<(), WriteError>> {
    match stream.write_gate() {
        WriteGate::Starting | WriteGate::Open | WriteGate::ShuttingDown => Poll::Pending,
        WriteGate::Lost(error) => Poll::Ready(Err(WriteError::ConnectionLost(error))),
        WriteGate::Stopped(error_code) => Poll::Ready(Err(WriteError::Stopped(error_code))),
        WriteGate::Done => Poll::Ready(Ok(())),
        WriteGate::Closed => Poll::Ready(Err(WriteError::Closed)),
    }
}

/// An attempt to shut the sending direction down came to `answer`: it is asked for once, and the
/// writer waits until it is done.
pub open spec fn write_shut_down(
    before: StreamView,
    cx: Context<'_>,
    shutdown: StreamShutdown,
    answer: (Poll<Result<(), WriteError>>, Option<StreamShutdown>),
    after: StreamView,
) -> bool {
    &&& answer.0 == shut_down_answer(before)
    &&& match before.write_gate() {
        WriteGate::Starting => {
            &&& answer.1 is None
            &&& waited_for_start(before, cx, true, after)
        },
        WriteGate::Open => {
            &&& answer.1 == Some(shutdown)
            &&& waited_for_shutdown(
                StreamView { send_state: StreamSendState::Shutdown, ..before },
                cx,
                after,
            )
        },
        WriteGate::ShuttingDown => {
            &&& answer.1 is None
            &&& waited_for_shutdown(before, cx, after)
        },
        _ => {
            &&& answer.1 is None
            &&& after == before
        },
    }
}

/// `buffer` with `count` more bytes read.
pub open spec fn advanced(buffer: RecvBufferView, count: nat) -> RecvBufferView {
    RecvBufferView { read: buffer.read + count, ..buffer }
}

/// The buffers that reading `room` bytes off `buffers` finishes: each of those at the front which,
/// together with those before it, holds less unread data than that. All of their data is read.
pub open spec fn finished_by(buffers: Seq<RecvBufferView>, room: nat) -> Seq<RecvBufferView>
    decreases buffers.len(),
{
    if buffers.len() == 0 || buffers[0].unread().len() >= room {
        Seq::empty()
    } else {
        seq![advanced(buffers[0], buffers[0].unread().len())] + finished_by(
            buffers.drop_first(),
            (room - buffers[0].unread().len()) as nat,
        )
    }
}

/// The buffers that reading `room` bytes off `buffers` leaves.
pub open spec fn left_by(buffers: Seq<RecvBufferView>, room: nat) -> Seq<RecvBufferView>
    decreases buffers.len(),
{
    if buffers.len() == 0 {
        Seq::empty()
    } else if buffers[0].unread().len() >= room {
        buffers.update(0, advanced(buffers[0], room))
    } else {
        left_by(buffers.drop_first(), (room - buffers[0].unread().len()) as nat)
    }
}

/// The unread data of a queue is that of its first buffer, then that of the rest.
proof fn pending_data_of_first(buffers: Seq<RecvBufferView>)
    requires
        buffers.len() > 0,
    ensures
        pending_data(buffers) == buffers[0].unread() + pending_data(buffers.drop_first()),
{
    let unread = buffers.map_values(|buffer: RecvBufferView| buffer.unread());
    assert(unread.drop_first() =~= buffers.drop_first().map_values(
        |buffer: RecvBufferView| buffer.unread(),
    ));
}

/// Reading more than there is leaves nothing.
proof fn all_is_read(buffers: Seq<RecvBufferView>, room: nat)
    requires
        pending_data(buffers).len() < room,
    ensures
        left_by(buffers, room) == Seq::<RecvBufferView>::empty(),
    decreases buffers.len(),
{
    if buffers.len() > 0 {
        pending_data_of_first(buffers);
        all_is_read(buffers.drop_first(), (room - buffers[0].unread().len()) as nat);
    }
}

/// Data that arrives is read after all that arrived before it.
pub proof fn received_data_is_read_last(buffers: Seq<RecvBufferView>, buffer: RecvBufferView)
    ensures
        pending_data(buffers.push(buffer)) == pending_data(buffers) + buffer.unread(),
{
    let unread = buffers.map_values(|buffer: RecvBufferView| buffer.unread());
    assert(buffers.push(buffer).map_values(|buffer: RecvBufferView| buffer.unread())
        =~= unread + seq![buffer.unread()]);
    vstd::seq_lib::lemma_flatten_concat(unread, seq![buffer.unread()]);
    seq![buffer.unread()].lemma_flatten_one_element();
}

/// Reading `count` bytes off the first buffer takes as many bytes off the front of the unread
/// data, and changes nothing about what reading on comes to.
proof fn reading_from_first(buffers: Seq<RecvBufferView>, count: nat, room: nat)
    requires
        buffers.len() > 0,
        buffers[0].well_formed(),
        count <= buffers[0].unread().len(),
        count <= room,
    ensures
        pending_data(buffers) == buffers[0].unread().take(count as int) + pending_data(
            buffers.update(0, advanced(buffers[0], count)),
        ),
        advanced(buffers[0], count).well_formed(),
        finished_by(buffers.update(0, advanced(buffers[0], count)), (room - count) as nat)
            == finished_by(buffers, room),
        left_by(buffers.update(0, advanced(buffers[0], count)), (room - count) as nat) == left_by(
            buffers,
            room,
        ),
{
    let first = advanced(buffers[0], count);
    let after = buffers.update(0, first);
    pending_data_of_first(buffers);
    pending_data_of_first(after);
    assert(after.drop_first() =~= buffers.drop_first());
    assert(buffers[0].unread() =~= buffers[0].unread().take(count as int) + first.unread());
    assert(pending_data(buffers) =~= buffers[0].unread().take(count as int) + pending_data(after));
    if buffers[0].unread().len() >= room {
        assert(left_by(after, (room - count) as nat) =~= left_by(buffers, room));
    }
}

/// Read off `recv_buffers` into `buf`. Buffers whose data is all read move to
/// `read_complete_buffers`.
pub(crate) fn read_into(
    recv_buffers: &mut VecDeque<StreamRecvBuffer>,
    read_complete_buffers: &mut Vec<StreamRecvBuffer>,
    buf: &mut [u8],
) -> (status: ReadStatus<usize>)
    requires
        all_well_formed(old(recv_buffers)@),
        old(read_complete_buffers)@.len() == 0,
    ensures
        all_well_formed(final(recv_buffers)@),
        all_well_formed(final(read_complete_buffers)@),
        views_of(final(read_complete_buffers)@) == finished_by(
            views_of(old(recv_buffers)@),
            old(buf)@.len(),
        ),
        views_of(final(recv_buffers)@) == left_by(
            views_of(old(recv_buffers)@),
            old(buf)@.len(),
        ),
        final(buf)@.len() == old(buf)@.len(),
        ({
            let pending = pending_data(views_of(old(recv_buffers)@));
            let finished = views_of(final(read_complete_buffers)@);
            let read = if pending.len() < old(buf)@.len() {
                pending.len()
            } else {
                old(buf)@.len()
            };
            &&& final(buf)@ == pending.take(read as int) + old(buf)@.skip(read as int)
            &&& pending == pending.take(read as int) + pending_data(
                views_of(final(recv_buffers)@),
            )
            &&& read < old(buf)@.len() ==> final(recv_buffers)@.len() == 0
            &&& status == if read == old(buf)@.len() {
                ReadStatus::Readable(read as usize)
            } else {
                let amount = if read > 0 {
                    Some(read as usize)
                } else {
                    None
                };
                if finished.len() > 0 && finished.last().fin {
                    ReadStatus::Finished(amount)
                } else {
                    ReadStatus::Blocked(amount)
                }
            }
        }),
{
    let ghost before = views_of(recv_buffers@);
    let size: usize = buf.len();
    let ghost room = size as nat;
    let mut read: usize = 0;
    let mut fin: bool = false;
    assert(views_of(read_complete_buffers@) =~= Seq::empty());
    assert(buf@ =~= pending_data(before).take(0) + old(buf)@.skip(0));
    assert(pending_data(before) =~= pending_data(before).take(0) + pending_data(before));
    loop
        invariant
            before == views_of(old(recv_buffers)@),
            room == old(buf)@.len(),
            room == size,
            buf@.len() == room,
            read <= room,
            all_well_formed(recv_buffers@),
            all_well_formed(read_complete_buffers@),
            views_of(read_complete_buffers@) + finished_by(
                views_of(recv_buffers@),
                (room - read) as nat,
            ) == finished_by(before, room),
            left_by(views_of(recv_buffers@), (room - read) as nat) == left_by(before, room),
            read <= pending_data(before).len(),
            buf@ == pending_data(before).take(read as int) + old(buf)@.skip(read as int),
            pending_data(before) == pending_data(before).take(read as int) + pending_data(
                views_of(recv_buffers@),
            ),
            fin == (read_complete_buffers@.len() > 0 && views_of(
                read_complete_buffers@,
            ).last().fin),
        decreases room - read, recv_buffers@.len(),
    {
        let ghost current = views_of(recv_buffers@);
        if read == size {
            proof {
                assert(views_of(read_complete_buffers@) + finished_by(current, 0)
                    =~= views_of(read_complete_buffers@));
                assert(left_by(current, 0) =~= current);
            }
            return ReadStatus::Readable(read);
        }
        match recv_buffers.pop_front() {
            Some(mut recv_buffer) => {
                let ghost first = recv_buffer@;
                assert(first == current[0]);
                assert(views_of(recv_buffers@) =~= current.drop_first());
                let room_left: usize = size - read;
                proof {
                    recv_buffer.well_formed_view();
                    chunk_is_prefix_of_unread(first.pieces, first.read as int);
                }
                let copied: Option<usize> = match recv_buffer.get_bytes_upto_size(room_left) {
                    Some(bytes) => {
                        let len: usize = bytes.len();
                        assert(bytes@ =~= first.unread().take(len as int));
                        let mut i: usize = 0;
                        let ghost start = buf@;
                        while i < len
                            invariant
                                i <= len,
                                len == bytes@.len(),
                                read + len <= room,
                                room <= usize::MAX,
                                buf@.len() == room,
                                start.len() == room,
                                buf@ == start.take(read as int) + bytes@.take(i as int)
                                    + start.skip(read + i),
                            decreases len - i,
                        {
                            buf[read + i] = bytes[i];
                            i += 1;
                            assert(buf@ =~= start.take(read as int) + bytes@.take(i as int)
                                + start.skip(read + i));
                        }
                        assert(bytes@.take(len as int) =~= bytes@);
                        Some(len)
                    },
                    None => None,
                };
                match copied {
                    Some(len) => {
                        proof {
                            reading_from_first(current, len as nat, (room - read) as nat);
                            let data = pending_data(before);
                            assert(recv_buffer@ == advanced(first, len as nat));
                            assert(data.take(read + len) =~= data.take(read as int)
                                + first.unread().take(len as int));
                            assert(buf@ =~= data.take(read + len) + old(buf)@.skip(
                                read + len,
                            ));
                        }
                        read += len;
                        recv_buffers.push_front(recv_buffer);
                        assert(views_of(recv_buffers@) =~= current.update(0, recv_buffer@));
                    },
                    None => {
                        proof {
                            pending_data_of_first(current);
                            assert(first.unread() =~= Seq::empty());
                            assert(pending_data(current) =~= pending_data(
                                current.drop_first(),
                            ));
                            assert(advanced(first, 0) == first);
                        }
                        let ghost done = views_of(read_complete_buffers@);
                        fin = recv_buffer.fin();
                        read_complete_buffers.push(recv_buffer);
                        proof {
                            assert(views_of(read_complete_buffers@) =~= done.push(first));
                            assert(done + (seq![first] + finished_by(
                                current.drop_first(),
                                (room - read) as nat,
                            )) =~= done.push(first) + finished_by(
                                current.drop_first(),
                                (room - read) as nat,
                            ));
                        }
                    },
                }
            },
            None => {
                proof {
                    assert(current =~= Seq::empty());
                    assert(views_of(read_complete_buffers@) + finished_by(
                        current,
                        (room - read) as nat,
                    ) =~= views_of(read_complete_buffers@));
                    assert(pending_data(current) =~= Seq::empty());
                    assert(pending_data(before).len() == read);
                }
                let amount: Option<usize> = if read > 0 {
                    Some(read)
                } else {
                    None
                };
                return ReadStatus::from_parts(amount, fin);
            },
        }
    }
}

impl StreamView {
    pub open spec fn read_gate(self) -> ReadGate {
        match self.recv_state {
            StreamRecvState::Closed => ReadGate::Closed,
            StreamRecvState::Start => ReadGate::Starting,
            StreamRecvState::StartComplete => if self.end_read {
                ReadGate::End
            } else {
                ReadGate::Open
            },
            StreamRecvState::ShutdownComplete => match (self.conn_error, self.recv_error_code) {
                (Some(error), _) => ReadGate::Lost(error),
                (None, Some(error_code)) => ReadGate::Reset(error_code),
                (None, None) => ReadGate::End,
            },
        }
    }

    pub open spec fn write_gate(self) -> WriteGate {
        match self.send_state {
            StreamSendState::Closed => WriteGate::Closed,
            StreamSendState::Start => WriteGate::Starting,
            StreamSendState::StartComplete => WriteGate::Open,
            StreamSendState::Shutdown => WriteGate::ShuttingDown,
            StreamSendState::ShutdownComplete => match (self.conn_error, self.send_error_code) {
                (Some(error), _) => WriteGate::Lost(error),
                (None, Some(error_code)) => WriteGate::Stopped(error_code),
                (None, None) => WriteGate::Done,
            },
        }
    }

    /// The connection error that a failed start is reported with is known, once the start is over
    /// and was given up because of the connection.
    pub open spec fn start_error_known(self) -> bool {
        match self.start_status {
            Some(status) => {
                ||| self.state == StreamState::Open
                ||| self.state == StreamState::Start
                ||| status.ok
                ||| self.conn_error is Some
                ||| !(status.code == Some(StatusCode::Aborted) || status.code == Some(
                    StatusCode::InvalidState,
                ))
            },
            None => true,
        }
    }

    /// How a start that is over is reported.
    pub open spec fn start_result(self) -> Result<(), StartError> {
        match self.start_status {
            Some(status) => if status.ok {
                Ok(())
            } else {
                match status.code {
                    Some(StatusCode::StreamLimitReached) => Err(StartError::LimitReached),
                    Some(StatusCode::Aborted) | Some(StatusCode::InvalidState) => Err(
                        StartError::ConnectionLost(self.conn_error->0),
                    ),
                    _ => Err(StartError::Unknown(status.raw)),
                }
            },
            None => Ok(()),
        }
    }

    /// The start was asked for.
    pub open spec fn started(self) -> StreamView {
        StreamView {
            state: StreamState::Start,
            recv_state: if self.stream_type == StreamType::Bidirectional {
                StreamRecvState::Start
            } else {
                self.recv_state
            },
            send_state: StreamSendState::Start,
            ..self
        }
    }

    /// The peer accepted the stream.
    pub open spec fn accepted(self) -> StreamView {
        StreamView {
            state: StreamState::StartComplete,
            recv_state: if self.stream_type == StreamType::Bidirectional {
                StreamRecvState::StartComplete
            } else {
                self.recv_state
            },
            send_state: StreamSendState::StartComplete,
            ..self
        }
    }

    /// An event that ends the wait of those who wait for the start.
    pub open spec fn ends_start(event: StreamEvent) -> bool {
        match event {
            StreamEvent::StartComplete { status, peer_accepted, .. } => peer_accepted
                || status.code == Some(StatusCode::StreamLimitReached),
            StreamEvent::ShutdownComplete { .. } | StreamEvent::PeerAccepted => true,
            _ => false,
        }
    }

    /// An event that ends the wait of those who wait for data.
    pub open spec fn ends_read(event: StreamEvent) -> bool {
        match event {
            StreamEvent::Receive { .. }
            | StreamEvent::PeerSendShutdown
            | StreamEvent::PeerSendAborted { .. }
            | StreamEvent::ShutdownComplete { .. } => true,
            _ => false,
        }
    }

    /// An event that ends the wait of those who wait for the sending direction to be shut down.
    pub open spec fn ends_write_shutdown(event: StreamEvent) -> bool {
        match event {
            StreamEvent::PeerReceiveAborted { .. } | StreamEvent::SendShutdownComplete => true,
            _ => false,
        }
    }

    /// The wakers that an event hands out: those of the waits that it ends.
    pub open spec fn woken_by(self, event: StreamEvent) -> Seq<Waker> {
        let start = if Self::ends_start(event) {
            self.start_waiters
        } else {
            Seq::empty()
        };
        let read = if Self::ends_read(event) {
            self.read_waiters
        } else {
            Seq::empty()
        };
        let write_shutdown = if Self::ends_write_shutdown(event) {
            self.write_shutdown_waiters
        } else {
            Seq::empty()
        };
        start + read + write_shutdown
    }

    /// What an event makes of the stream, but for the lists of wakers.
    pub open spec fn changed_by(self, event: StreamEvent) -> StreamView {
        match event {
            StreamEvent::StartComplete { status, id, peer_accepted } => {
                let after = StreamView {
                    id: if status.ok {
                        Some(id)
                    } else {
                        self.id
                    },
                    start_status: Some(status),
                    ..self
                };
                if status.ok && peer_accepted {
                    after.accepted()
                } else {
                    after
                }
            },
            StreamEvent::Receive { absolute_offset, buffers, fin } => StreamView {
                recv_buffers: self.recv_buffers.push(
                    RecvBufferView {
                        offset: absolute_offset as nat,
                        pieces: pieces_of(buffers@),
                        read: 0,
                        fin,
                    },
                ),
                ..self
            },
            StreamEvent::SendComplete { .. } => StreamView {
                write_pool: self.write_pool + 1,
                ..self
            },
            StreamEvent::PeerSendShutdown => StreamView {
                recv_state: StreamRecvState::ShutdownComplete,
                ..self
            },
            StreamEvent::PeerSendAborted { error_code } => StreamView {
                recv_state: StreamRecvState::ShutdownComplete,
                recv_error_code: Some(error_code),
                ..self
            },
            StreamEvent::PeerReceiveAborted { error_code } => StreamView {
                send_state: StreamSendState::ShutdownComplete,
                send_error_code: Some(error_code),
                ..self
            },
            StreamEvent::SendShutdownComplete => StreamView {
                send_state: StreamSendState::ShutdownComplete,
                ..self
            },
            StreamEvent::ShutdownComplete { lost } => StreamView {
                state: StreamState::ShutdownComplete,
                recv_state: StreamRecvState::ShutdownComplete,
                send_state: StreamSendState::ShutdownComplete,
                conn_error: match lost {
                    Some(lost) => Some(lost.error()),
                    None => self.conn_error,
                },
                ..self
            },
            StreamEvent::PeerAccepted => self.accepted(),
            StreamEvent::IdealSendBufferSize | StreamEvent::Other => self,
        }
    }

    /// What an event makes of the stream. The waits that it ends are forgotten.
    pub open spec fn after_event(self, event: StreamEvent) -> StreamView {
        StreamView {
            start_waiters: if Self::ends_start(event) {
                Seq::empty()
            } else {
                self.start_waiters
            },
            read_waiters: if Self::ends_read(event) {
                Seq::empty()
            } else {
                self.read_waiters
            },
            write_shutdown_waiters: if Self::ends_write_shutdown(event) {
                Seq::empty()
            } else {
                self.write_shutdown_waiters
            },
            ..self.changed_by(event)
        }
    }

    /// Data can be written, and the stream was not ended yet.
    pub open spec fn accepts_data(self) -> bool {
        self.write_gate() == WriteGate::Open && !self.fin_sent
    }

    /// A buffer was taken out of the pool, where there was one.
    pub open spec fn with_buffer_taken(self) -> StreamView {
        StreamView {
            write_pool: if self.write_pool > 0 {
                (self.write_pool - 1) as nat
            } else {
                0
            },
            ..self
        }
    }

    /// MsQuic was told of exactly what is done with from the start of the stream on, and nobody
    /// waits for data while there is some.
    pub open spec fn well_formed(self) -> bool {
        &&& contiguous(self.completed, self.read_complete_cursor)
        &&& self.recv_buffers.len() > 0 ==> self.read_waiters.len() == 0
    }

    /// The first segment was handed out. Where the stream ends with it, that was all to be read.
    pub open spec fn segment_taken(self) -> StreamView {
        StreamView {
            recv_buffers: self.recv_buffers.drop_first(),
            end_read: self.end_read || self.recv_buffers[0].fin,
            ..self
        }
    }

    /// Reading `room` bytes takes all that is there, up to the end of the stream.
    pub open spec fn ends_within(self, room: nat) -> bool {
        let finished = finished_by(self.recv_buffers, room);
        self.pending().len() < room && finished.len() > 0 && finished.last().fin
    }

    /// `room` bytes were read, or as many as there are. Where that took the end of the stream, it
    /// was all to be read.
    pub open spec fn read_off(self, room: nat) -> StreamView {
        StreamView {
            recv_buffers: left_by(self.recv_buffers, room),
            end_read: self.end_read || self.ends_within(room),
            ..self
        }
    }

    /// Received data that was not read yet.
    pub open spec fn pending(self) -> Seq<u8> {
        pending_data(self.recv_buffers)
    }

    /// A stream on which nothing happened yet.
    pub open spec fn fresh(
        stream_type: StreamType,
        send_state: StreamSendState,
        recv_state: StreamRecvState,
        local_open: bool,
    ) -> StreamView {
        StreamView {
            stream_type,
            local_open,
            id: None,
            state: StreamState::Open,
            start_status: None,
            recv_state,
            recv_buffers: Seq::empty(),
            completed: Set::empty(),
            read_complete_cursor: 0,
            send_state,
            fin_sent: false,
            end_read: false,
            write_pool: 0,
            recv_error_code: None,
            send_error_code: None,
            conn_error: None,
            start_waiters: Seq::empty(),
            read_waiters: Seq::empty(),
            write_shutdown_waiters: Seq::empty(),
        }
    }
}

impl View for Stream {
    type V = StreamView;

    closed spec fn view(&self) -> StreamView {
        StreamView {
            stream_type: self.stream_type,
            local_open: self.local_open,
            id: self.id,
            state: self.state,
            start_status: self.start_status,
            recv_state: self.recv_state,
            recv_buffers: views_of(self.recv_buffers@),
            completed: covered(self.read_complete_map),
            read_complete_cursor: self.read_complete_cursor as nat,
            send_state: self.send_state,
            fin_sent: self.fin_sent,
            end_read: self.end_read,
            write_pool: self.write_pool@.len(),
            recv_error_code: self.recv_error_code,
            send_error_code: self.send_error_code,
            conn_error: self.conn_error,
            start_waiters: self.start_waiters@,
            read_waiters: self.read_waiters@,
            write_shutdown_waiters: self.write_shutdown_waiters@,
        }
    }
}

impl Stream {
    /// The view and the received buffers are consistent, and pooled buffers are blank.
    pub closed spec fn well_formed(&self) -> bool {
        &&& all_well_formed(self.recv_buffers@)
        &&& forall|i: int|
            0 <= i < self.write_pool@.len() ==> (#[trigger] self.write_pool@[i])@
                == WriteBufferView::blank()
        &&& self@.well_formed()
    }

    /// What is known of the view.
    pub proof fn well_formed_view(&self)
        requires
            self.well_formed(),
        ensures
            self@.well_formed(),
            contiguous(self@.completed, self@.read_complete_cursor),
            forall|i: int|
                0 <= i < self@.recv_buffers.len() ==> (
                #[trigger] self@.recv_buffers[i]).well_formed(),
    {
        assert forall|i: int| 0 <= i < self@.recv_buffers.len() implies (
        #[trigger] self@.recv_buffers[i]).well_formed() by {
            self.recv_buffers@[i].well_formed_view();
        }
    }

    fn fresh(
        stream_type: StreamType,
        send_state: StreamSendState,
        recv_state: StreamRecvState,
        local_open: bool,
    ) -> (stream: Self)
        ensures
            stream.well_formed(),
            stream@ == StreamView::fresh(stream_type, send_state, recv_state, local_open),
    {
        let stream = Stream {
            stream_type,
            local_open,
            id: None,
            state: StreamState::Open,
            start_status: None,
            recv_state,
            recv_buffers: VecDeque::new(),
            read_complete_map: empty_range_set(),
            read_complete_cursor: 0,
            send_state,
            fin_sent: false,
            end_read: false,
            write_pool: Vec::new(),
            recv_error_code: None,
            send_error_code: None,
            conn_error: None,
            start_waiters: Vec::new(),
            read_waiters: Vec::new(),
            write_shutdown_waiters: Vec::new(),
        };
        assert(stream@.recv_buffers =~= Seq::empty());
        stream
    }

    /// A stream that this side opens; not started yet.
    pub fn open(stream_type: StreamType) -> (stream: Self)
        ensures
            stream.well_formed(),
            stream@ == StreamView::fresh(
                stream_type,
                StreamSendState::Closed,
                StreamRecvState::Closed,
                true,
            ),
    {
        Self::fresh(stream_type, StreamSendState::Closed, StreamRecvState::Closed, true)
    }

    /// A stream that the peer opened.
    pub fn from_handle(stream_type: StreamType) -> (stream: Self)
        ensures
            stream.well_formed(),
            stream@ == StreamView::fresh(
                stream_type,
                if stream_type == StreamType::Bidirectional {
                    StreamSendState::StartComplete
                } else {
                    StreamSendState::Closed
                },
                StreamRecvState::StartComplete,
                false,
            ),
    {
        let send_state = if stream_type == StreamType::Bidirectional {
            StreamSendState::StartComplete
        } else {
            StreamSendState::Closed
        };
        Self::fresh(stream_type, send_state, StreamRecvState::StartComplete, false)
    }

    /// What a reader finds.
    pub fn read_gate(&self) -> (gate: ReadGate)
        ensures
            gate == self@.read_gate(),
    {
        match self.recv_state {
            StreamRecvState::Closed => ReadGate::Closed,
            StreamRecvState::Start => ReadGate::Starting,
            StreamRecvState::StartComplete => {
                if self.end_read {
                    ReadGate::End
                } else {
                    ReadGate::Open
                }
            },
            StreamRecvState::ShutdownComplete => {
                if let Some(conn_error) = self.conn_error {
                    ReadGate::Lost(conn_error)
                } else if let Some(error_code) = self.recv_error_code {
                    ReadGate::Reset(error_code)
                } else {
                    ReadGate::End
                }
            },
        }
    }

    /// What a writer finds.
    pub fn write_gate(&self) -> (gate: WriteGate)
        ensures
            gate == self@.write_gate(),
    {
        match self.send_state {
            StreamSendState::Closed => WriteGate::Closed,
            StreamSendState::Start => WriteGate::Starting,
            StreamSendState::StartComplete => WriteGate::Open,
            StreamSendState::Shutdown => WriteGate::ShuttingDown,
            StreamSendState::ShutdownComplete => {
                if let Some(conn_error) = self.conn_error {
                    WriteGate::Lost(conn_error)
                } else if let Some(error_code) = self.send_error_code {
                    WriteGate::Stopped(error_code)
                } else {
                    WriteGate::Done
                }
            },
        }
    }

    /// The answer to a reader where the stream cannot be read from; `None` where it can.
    fn poll_read_gate<U>(&mut self, cx: &Context<'_>) -> (answer: Option<
        Poll<Result<Option<U>, ReadError>>,
    >)
        requires
            old(self).well_formed(),
        ensures
            final(self).well_formed(),
            answer == if old(self)@.read_gate() == ReadGate::Open {
                None
            } else {
                Some(refused_read::<U>(old(self)@))
            },
            waited_for_start(
                old(self)@,
                *cx,
                old(self)@.read_gate() == ReadGate::Starting,
                final(self)@,
            ),
    {
        match self.read_gate() {
            ReadGate::Closed => Some(Poll::Ready(Err(ReadError::Closed))),
            ReadGate::Starting => {
                register_waker(&mut self.start_waiters, cx);
                Some(Poll::Pending)
            },
            ReadGate::Open => None,
            ReadGate::Lost(conn_error) => Some(
                Poll::Ready(Err(ReadError::ConnectionLost(conn_error))),
            ),
            ReadGate::Reset(error_code) => Some(Poll::Ready(Err(ReadError::Reset(error_code)))),
            ReadGate::End => Some(Poll::Ready(Ok(None))),
        }
    }

    /// The answer to a reader whose attempt came to `status`. Once the end of the stream is
    /// handed out, there is nothing left to wait for.
    fn poll_read_settle<U>(&mut self, cx: &Context<'_>, status: ReadStatus<U>) -> (answer: Poll<
        Result<Option<U>, ReadError>,
    >)
        requires
            old(self).well_formed(),
            status matches ReadStatus::Blocked(None) ==> old(self)@.recv_buffers.len() == 0,
        ensures
            final(self).well_formed(),
            match status {
                ReadStatus::Readable(read) | ReadStatus::Blocked(Some(read)) => {
                    &&& answer == Poll::<Result<Option<U>, ReadError>>::Ready(Ok(Some(read)))
                    &&& final(self)@ == old(self)@
                },
                ReadStatus::Finished(read) => {
                    &&& answer == Poll::<Result<Option<U>, ReadError>>::Ready(Ok(read))
                    &&& final(self)@ == (StreamView {
                        end_read: true,
                        ..old(self)@
                    })
                },
                ReadStatus::Blocked(None) => {
                    &&& answer == Poll::<Result<Option<U>, ReadError>>::Pending
                    &&& waited_for_data(old(self)@, *cx, final(self)@)
                },
            },
    {
        match status {
            ReadStatus::Readable(read) => Poll::Ready(Ok(Some(read))),
            ReadStatus::Blocked(Some(read)) => Poll::Ready(Ok(Some(read))),
            ReadStatus::Finished(read) => {
                self.end_read = true;
                Poll::Ready(Ok(read))
            },
            ReadStatus::Blocked(None) => {
                register_waker(&mut self.read_waiters, cx);
                Poll::Pending
            },
        }
    }

    /// Read from the stream into `buf`.
    ///
    /// The buffers that come back with the answer have been read to the end: hand each of them to
    /// [`Stream::read_complete`].
    pub fn poll_read(&mut self, cx: &Context<'_>, buf: &mut [u8]) -> (answer: (
        Poll<Result<usize, ReadError>>,
        Vec<StreamRecvBuffer>,
    ))
        requires
            old(self).well_formed(),
        ensures
            final(self).well_formed(),
            all_well_formed(answer.1@),
            final(buf)@.len() == old(buf)@.len(),
            old(self)@.read_gate() != ReadGate::Open ==> {
                &&& final(buf)@ == old(buf)@
                &&& answer.1@.len() == 0
                &&& answer.0 == match old(self)@.read_gate() {
                    ReadGate::Closed => Poll::<Result<usize, ReadError>>::Ready(
                        Err(ReadError::Closed),
                    ),
                    ReadGate::Lost(error) => Poll::Ready(Err(ReadError::ConnectionLost(error))),
                    ReadGate::Reset(error_code) => Poll::Ready(Err(ReadError::Reset(error_code))),
                    ReadGate::End => Poll::Ready(Ok(0)),
                    _ => Poll::Pending,
                }
                &&& waited_for_start(
                    old(self)@,
                    *cx,
                    old(self)@.read_gate() == ReadGate::Starting,
                    final(self)@,
                )
            },
            old(self)@.read_gate() == ReadGate::Open ==> {
                let room = old(buf)@.len();
                let pending = old(self)@.pending();
                let read = if pending.len() < room {
                    pending.len()
                } else {
                    room
                };
                let after_read = old(self)@.read_off(room);
                &&& final(buf)@ == pending.take(read as int) + old(buf)@.skip(read as int)
                &&& pending == pending.take(read as int) + final(self)@.pending()
                &&& views_of(answer.1@) == finished_by(old(self)@.recv_buffers, room)
                &&& if read < room && read == 0 && !old(self)@.ends_within(room) {
                    &&& answer.0 == Poll::<Result<usize, ReadError>>::Pending
                    &&& waited_for_data(after_read, *cx, final(self)@)
                } else {
                    &&& answer.0 == Poll::<Result<usize, ReadError>>::Ready(Ok(read as usize))
                    &&& final(self)@ == after_read
                }
            },
    {
        let mut read_complete_buffers: Vec<StreamRecvBuffer> = Vec::new();
        if let Some(answer) = self.poll_read_gate::<usize>(cx) {
            return (Self::read_amount(answer), read_complete_buffers);
        }
        let status = read_into(&mut self.recv_buffers, &mut read_complete_buffers, buf);
        let answer = self.poll_read_settle(cx, status);
        (Self::read_amount(answer), read_complete_buffers)
    }

    /// The end of the stream, told as an amount: nothing was read.
    fn read_amount(answer: Poll<Result<Option<usize>, ReadError>>) -> (amount: Poll<
        Result<usize, ReadError>,
    >)
        ensures
            amount == match answer {
                Poll::Ready(Ok(Some(read))) => Poll::<Result<usize, ReadError>>::Ready(Ok(read)),
                Poll::Ready(Ok(None)) => Poll::Ready(Ok(0)),
                Poll::Ready(Err(error)) => Poll::Ready(Err(error)),
                Poll::Pending => Poll::Pending,
            },
    {
        match answer {
            Poll::Ready(Ok(Some(read))) => Poll::Ready(Ok(read)),
            Poll::Ready(Ok(None)) => Poll::Ready(Ok(0)),
            Poll::Ready(Err(error)) => Poll::Ready(Err(error)),
            Poll::Pending => Poll::Pending,
        }
    }

    /// Read the next segment of data. `None` tells the end of the stream; once a segment that the
    /// stream ends with was handed out, that is what comes next, whoever still holds segments. Hand
    /// the segment to [`Stream::read_complete`] once done with it.
    pub fn poll_read_chunk(&mut self, cx: &Context<'_>) -> (answer: Poll<
        Result<Option<StreamRecvBuffer>, ReadError>,
    >)
        requires
            old(self).well_formed(),
        ensures
            final(self).well_formed(),
            old(self)@.read_gate() != ReadGate::Open ==> {
                &&& answer == refused_read::<StreamRecvBuffer>(old(self)@)
                &&& waited_for_start(
                    old(self)@,
                    *cx,
                    old(self)@.read_gate() == ReadGate::Starting,
                    final(self)@,
                )
            },
            old(self)@.read_gate() == ReadGate::Open ==> if old(self)@.recv_buffers.len() > 0 {
                &&& answer matches Poll::Ready(Ok(Some(chunk)))
                &&& chunk.well_formed()
                &&& chunk@ == old(self)@.recv_buffers[0]
                &&& final(self)@ == old(self)@.segment_taken()
            } else {
                &&& answer == Poll::<Result<Option<StreamRecvBuffer>, ReadError>>::Pending
                &&& waited_for_data(old(self)@, *cx, final(self)@)
            },
    {
        if let Some(answer) = self.poll_read_gate::<StreamRecvBuffer>(cx) {
            return answer;
        }
        let status = match self.recv_buffers.pop_front() {
            Some(recv_buffer) => {
                let fin: bool = recv_buffer.fin();
                ReadStatus::from_parts(Some(recv_buffer), fin)
            },
            None => ReadStatus::from_parts(None, false),
        };
        assert(old(self)@.recv_buffers.len() > 0 ==> self@.recv_buffers =~= old(
            self)@.recv_buffers.drop_first());
        assert(old(self)@.recv_buffers.len() == 0 ==> self@ == old(self)@);
        self.poll_read_settle(cx, status)
    }

    /// A blank buffer to write to, or the answer to a writer where the stream cannot be written to.
    fn poll_write_gate(&mut self, cx: &Context<'_>) -> (answer: Poll<
        Result<WriteBuffer, WriteError>,
    >)
        requires
            old(self).well_formed(),
        ensures
            final(self).well_formed(),
            if old(self)@.accepts_data() {
                &&& answer matches Poll::Ready(Ok(buffer))
                &&& buffer@ == WriteBufferView::blank()
                &&& final(self)@ == old(self)@.with_buffer_taken()
            } else {
                &&& answer == refused_write::<WriteBuffer>(old(self)@)
                &&& waited_for_start(
                    old(self)@,
                    *cx,
                    old(self)@.write_gate() == WriteGate::Starting,
                    final(self)@,
                )
            },
    {
        match self.write_gate() {
            WriteGate::Closed => {
                return Poll::Ready(Err(WriteError::Closed));
            },
            WriteGate::Starting => {
                register_waker(&mut self.start_waiters, cx);
                return Poll::Pending;
            },
            WriteGate::Open => {},
            WriteGate::ShuttingDown => {
                return Poll::Ready(Err(WriteError::Finished));
            },
            WriteGate::Lost(conn_error) => {
                return Poll::Ready(Err(WriteError::ConnectionLost(conn_error)));
            },
            WriteGate::Stopped(error_code) => {
                return Poll::Ready(Err(WriteError::Stopped(error_code)));
            },
            WriteGate::Done => {
                return Poll::Ready(Err(WriteError::Finished));
            },
        }
        if self.fin_sent {
            return Poll::Ready(Err(WriteError::Finished));
        }
        match self.write_pool.pop() {
            Some(buffer) => Poll::Ready(Ok(buffer)),
            None => Poll::Ready(Ok(WriteBuffer::new())),
        }
    }

    /// The send that an attempt to write which came to `status` asks for, and the amount written.
    fn send_written(&mut self, buffer: WriteBuffer, status: WriteStatus<usize>) -> (sent: (
        usize,
        StreamSend,
    ))
        requires
            old(self).well_formed(),
            status != WriteStatus::<usize>::Blocked(None),
        ensures
            final(self).well_formed(),
            sent.1.buffer == buffer,
            match status {
                WriteStatus::Writable(written) | WriteStatus::Blocked(Some(written)) => {
                    &&& sent.0 == written
                    &&& !sent.1.fin
                    &&& final(self)@ == old(self)@
                },
                WriteStatus::Finished(written) => {
                    &&& sent.0 == match written {
                        Some(written) => written,
                        None => 0,
                    }
                    &&& sent.1.fin
                    &&& final(self)@ == (StreamView { fin_sent: true, ..old(self)@ })
                },
                WriteStatus::Blocked(None) => true,
            },
    {
        match status {
            WriteStatus::Writable(written) => (written, StreamSend { buffer, fin: false }),
            WriteStatus::Blocked(Some(written)) => (written, StreamSend { buffer, fin: false }),
            WriteStatus::Blocked(None) => (0, StreamSend { buffer, fin: false }),
            WriteStatus::Finished(written) => {
                self.fin_sent = true;
                let amount: usize = match written {
                    Some(written) => written,
                    None => 0,
                };
                (amount, StreamSend { buffer, fin: true })
            },
        }
    }

    /// Write `buf` to the stream; with `fin` the stream ends with it. All of it is taken: carry
    /// out the send that comes back.
    pub fn poll_write(&mut self, cx: &Context<'_>, buf: &[u8], fin: bool) -> (answer: (
        Poll<Result<usize, WriteError>>,
        Option<StreamSend>,
    ))
        requires
            old(self).well_formed(),
        ensures
            final(self).well_formed(),
            written(
                old(self)@,
                *cx,
                WriteBufferView { internal: buf@, zerocopy: Seq::empty() },
                buf@.len(),
                fin,
                answer,
                final(self)@,
            ),
    {
        match self.poll_write_gate(cx) {
            Poll::Ready(Ok(mut write_buf)) => {
                let amount: usize = write_buf.put_slice(buf);
                assert(write_buf@.internal =~= buf@);
                let status = if !fin {
                    WriteStatus::Writable(amount)
                } else {
                    WriteStatus::from_parts(Some(amount), fin)
                };
                let (amount, send) = self.send_written(write_buf, status);
                (Poll::Ready(Ok(amount)), Some(send))
            },
            Poll::Ready(Err(error)) => (Poll::Ready(Err(error)), None),
            Poll::Pending => (Poll::Pending, None),
        }
    }

    /// Write `chunk` to the stream, without copying it.
    pub fn poll_write_chunk(&mut self, cx: &Context<'_>, chunk: &Bytes, fin: bool) -> (answer: (
        Poll<Result<usize, WriteError>>,
        Option<StreamSend>,
    ))
        requires
            old(self).well_formed(),
        ensures
            final(self).well_formed(),
            written(
                old(self)@,
                *cx,
                WriteBufferView { internal: Seq::empty(), zerocopy: seq![bytes_data(*chunk)] },
                bytes_data(*chunk).len(),
                fin,
                answer,
                final(self)@,
            ),
    {
        match self.poll_write_gate(cx) {
            Poll::Ready(Ok(mut write_buf)) => {
                let amount: usize = write_buf.put_zerocopy(chunk);
                assert(write_buf@.zerocopy =~= seq![bytes_data(*chunk)]);
                let status = if !fin {
                    WriteStatus::Writable(amount)
                } else {
                    WriteStatus::from_parts(Some(amount), fin)
                };
                let (amount, send) = self.send_written(write_buf, status);
                (Poll::Ready(Ok(amount)), Some(send))
            },
            Poll::Ready(Err(error)) => (Poll::Ready(Err(error)), None),
            Poll::Pending => (Poll::Pending, None),
        }
    }

    /// Write a list of chunks to the stream, without copying them.
    pub fn poll_write_chunks(&mut self, cx: &Context<'_>, chunks: &[Bytes], fin: bool) -> (answer: (
        Poll<Result<usize, WriteError>>,
        Option<StreamSend>,
    ))
        requires
            old(self).well_formed(),
            contents_of(chunks@).flatten().len() <= usize::MAX,
        ensures
            final(self).well_formed(),
            written(
                old(self)@,
                *cx,
                WriteBufferView { internal: Seq::empty(), zerocopy: contents_of(chunks@) },
                contents_of(chunks@).flatten().len(),
                fin,
                answer,
                final(self)@,
            ),
    {
        match self.poll_write_gate(cx) {
            Poll::Ready(Ok(mut write_buf)) => {
                let ghost contents = contents_of(chunks@);
                let mut total: usize = 0;
                let mut i: usize = 0;
                assert(contents.take(0) =~= Seq::empty());
                while i < chunks.len()
                    invariant
                        i <= chunks@.len(),
                        contents == contents_of(chunks@),
                        contents.flatten().len() <= usize::MAX,
                        write_buf@ == (WriteBufferView {
                            internal: Seq::empty(),
                            zerocopy: contents.take(i as int),
                        }),
                        total == contents.take(i as int).flatten().len(),
                    decreases chunks@.len() - i,
                {
                    proof {
                        taking_one_more_piece(contents, i as int);
                    }
                    total += write_buf.put_zerocopy(&chunks[i]);
                    i += 1;
                    assert(contents.take(i as int) =~= contents.take(i - 1).push(contents[i - 1]));
                }
                assert(contents.take(i as int) =~= contents);
                let status = if !fin {
                    WriteStatus::Writable(total)
                } else {
                    WriteStatus::from_parts(Some(total), fin)
                };
                let (amount, send) = self.send_written(write_buf, status);
                (Poll::Ready(Ok(amount)), Some(send))
            },
            Poll::Ready(Err(error)) => (Poll::Ready(Err(error)), None),
            Poll::Pending => (Poll::Pending, None),
        }
    }

    /// End the sending direction once all data is delivered, and wait for that. Carry out the
    /// shutdown that comes back.
    pub fn poll_finish_write(&mut self, cx: &Context<'_>) -> (answer: (
        Poll<Result<(), WriteError>>,
        Option<StreamShutdown>,
    ))
        requires
            old(self).well_formed(),
        ensures
            final(self).well_formed(),
            write_shut_down(
                old(self)@,
                *cx,
                StreamShutdown::graceful(),
                answer,
                final(self)@,
            ),
    {
        self.poll_shutdown_write(cx, StreamShutdown::graceful())
    }

    /// Reset the sending direction, and wait for that. Carry out the shutdown that comes back.
    pub fn poll_abort_write(&mut self, cx: &Context<'_>, error_code: u64) -> (answer: (
        Poll<Result<(), WriteError>>,
        Option<StreamShutdown>,
    ))
        requires
            old(self).well_formed(),
        ensures
            final(self).well_formed(),
            write_shut_down(
                old(self)@,
                *cx,
                StreamShutdown::abort_send(error_code),
                answer,
                final(self)@,
            ),
    {
        self.poll_shutdown_write(cx, StreamShutdown::abort_send(error_code))
    }

    fn poll_shutdown_write(&mut self, cx: &Context<'_>, shutdown: StreamShutdown) -> (answer: (
        Poll<Result<(), WriteError>>,
        Option<StreamShutdown>,
    ))
        requires
            old(self).well_formed(),
        ensures
            final(self).well_formed(),
            write_shut_down(old(self)@, *cx, shutdown, answer, final(self)@),
    {
        match self.write_gate() {
            WriteGate::Starting => {
                register_waker(&mut self.start_waiters, cx);
                (Poll::Pending, None)
            },
            WriteGate::Open => {
                self.send_state = StreamSendState::Shutdown;
                register_waker(&mut self.write_shutdown_waiters, cx);
                (Poll::Pending, Some(shutdown))
            },
            WriteGate::ShuttingDown => {
                register_waker(&mut self.write_shutdown_waiters, cx);
                (Poll::Pending, None)
            },
            WriteGate::Lost(conn_error) => (
                Poll::Ready(Err(WriteError::ConnectionLost(conn_error))),
                None,
            ),
            WriteGate::Stopped(error_code) => (
                Poll::Ready(Err(WriteError::Stopped(error_code))),
                None,
            ),
            WriteGate::Done => (Poll::Ready(Ok(())), None),
            WriteGate::Closed => (Poll::Ready(Err(WriteError::Closed)), None),
        }
    }

    /// Reset the sending direction, without waiting. Carry out the shutdown that comes back.
    pub fn abort_write(&mut self, error_code: u64) -> (answer: (
        Result<(), WriteError>,
        Option<StreamShutdown>,
    ))
        requires
            old(self).well_formed(),
        ensures
            final(self).well_formed(),
            if old(self)@.write_gate() == WriteGate::Open {
                &&& answer.0 == Ok::<(), WriteError>(())
                &&& answer.1 == Some(StreamShutdown::abort_send(error_code))
                &&& final(self)@ == (StreamView {
                    send_state: StreamSendState::Shutdown,
                    ..old(self)@
                })
            } else {
                &&& answer.0 == Err::<(), WriteError>(WriteError::Closed)
                &&& answer.1 is None
                &&& final(self)@ == old(self)@
            },
    {
        match self.send_state {
            StreamSendState::StartComplete => {
                self.send_state = StreamSendState::Shutdown;
                (Ok(()), Some(StreamShutdown::abort_send(error_code)))
            },
            _ => (Err(WriteError::Closed), None),
        }
    }

    /// Ask the peer to stop sending, once the stream is started and until the receiving direction
    /// is shut down, whatever was read. Carry out the shutdown that comes back, and wake the
    /// readers that do.
    pub fn poll_abort_read(&mut self, cx: &Context<'_>, error_code: u64) -> (answer: (
        Poll<Result<(), ReadError>>,
        Option<StreamShutdown>,
        Vec<Waker>,
    ))
        requires
            old(self).well_formed(),
        ensures
            final(self).well_formed(),
            if old(self)@.recv_state == StreamRecvState::StartComplete {
                &&& answer.0 == Poll::<Result<(), ReadError>>::Ready(Ok(()))
                &&& answer.1 == Some(StreamShutdown::abort_receive(error_code))
                &&& answer.2@ == old(self)@.read_waiters
                &&& final(self)@ == (StreamView {
                    recv_state: StreamRecvState::ShutdownComplete,
                    read_waiters: Seq::empty(),
                    ..old(self)@
                })
            } else {
                &&& answer.0 == match old(self)@.read_gate() {
                    ReadGate::Closed => Poll::<Result<(), ReadError>>::Ready(
                        Err(ReadError::Closed),
                    ),
                    ReadGate::Lost(error) => Poll::Ready(Err(ReadError::ConnectionLost(error))),
                    ReadGate::Reset(error_code) => Poll::Ready(Err(ReadError::Reset(error_code))),
                    ReadGate::End => Poll::Ready(Ok(())),
                    _ => Poll::Pending,
                }
                &&& answer.1 is None
                &&& answer.2@ == Seq::<Waker>::empty()
                &&& waited_for_start(
                    old(self)@,
                    *cx,
                    old(self)@.read_gate() == ReadGate::Starting,
                    final(self)@,
                )
            },
    {
        if self.recv_state == StreamRecvState::StartComplete {
            self.recv_state = StreamRecvState::ShutdownComplete;
            let woken = drain_wakers(&mut self.read_waiters);
            return (Poll::Ready(Ok(())), Some(StreamShutdown::abort_receive(error_code)), woken);
        }
        match self.read_gate() {
            ReadGate::Starting => {
                register_waker(&mut self.start_waiters, cx);
                (Poll::Pending, None, Vec::new())
            },
            ReadGate::Lost(conn_error) => (
                Poll::Ready(Err(ReadError::ConnectionLost(conn_error))),
                None,
                Vec::new(),
            ),
            ReadGate::Reset(error_code) => (
                Poll::Ready(Err(ReadError::Reset(error_code))),
                None,
                Vec::new(),
            ),
            ReadGate::Open | ReadGate::End => (Poll::Ready(Ok(())), None, Vec::new()),
            ReadGate::Closed => (Poll::Ready(Err(ReadError::Closed)), None, Vec::new()),
        }
    }

    /// Ask the peer to stop sending, without waiting; what was read does not matter. Carry out the
    /// shutdown that comes back.
    pub fn abort_read(&mut self, error_code: u64) -> (answer: (
        Result<(), ReadError>,
        Option<StreamShutdown>,
    ))
        requires
            old(self).well_formed(),
        ensures
            final(self).well_formed(),
            if old(self)@.recv_state == StreamRecvState::StartComplete {
                &&& answer.0 == Ok::<(), ReadError>(())
                &&& answer.1 == Some(StreamShutdown::abort_receive(error_code))
                &&& final(self)@ == (StreamView {
                    recv_state: StreamRecvState::ShutdownComplete,
                    ..old(self)@
                })
            } else {
                &&& answer.0 == Err::<(), ReadError>(ReadError::Closed)
                &&& answer.1 is None
                &&& final(self)@ == old(self)@
            },
    {
        match self.recv_state {
            StreamRecvState::StartComplete => {
                self.recv_state = StreamRecvState::ShutdownComplete;
                (Ok(()), Some(StreamShutdown::abort_receive(error_code)))
            },
            _ => (Err(ReadError::Closed), None),
        }
    }

    /// The connection error that a failed start is reported with is known, once the start is over
    /// and was given up because of the connection.
    pub fn start_error_known(&self) -> (known: bool)
        ensures
            known == self@.start_error_known(),
    {
        match self.start_status {
            Some(status) => {
                self.state == StreamState::Open || self.state == StreamState::Start
                    || status.is_ok() || self.conn_error.is_some() || !(status.has_code(
                    StatusCode::Aborted,
                ) || status.has_code(StatusCode::InvalidState))
            },
            None => true,
        }
    }

    /// Start the stream, and wait for that. Carry out the start that comes back.
    pub fn poll_start(&mut self, cx: &Context<'_>, failed_on_block: bool) -> (answer: (
        Poll<Result<(), StartError>>,
        Option<StreamStart>,
    ))
        requires
            old(self).well_formed(),
            old(self)@.start_error_known(),
        ensures
            final(self).well_formed(),
            match old(self)@.state {
                StreamState::Open => {
                    &&& answer.0 == Poll::<Result<(), StartError>>::Pending
                    &&& answer.1 == Some(StreamStart { fail_blocked: failed_on_block })
                    &&& waited_for_start(old(self)@.started(), *cx, true, final(self)@)
                },
                StreamState::Start => {
                    &&& answer.0 == Poll::<Result<(), StartError>>::Pending
                    &&& answer.1 is None
                    &&& waited_for_start(old(self)@, *cx, true, final(self)@)
                },
                _ => {
                    &&& answer.0 == Poll::Ready(old(self)@.start_result())
                    &&& answer.1 is None
                    &&& final(self)@ == old(self)@
                },
            },
    {
        match self.state {
            StreamState::Open => {
                self.state = StreamState::Start;
                if self.stream_type == StreamType::Bidirectional {
                    self.recv_state = StreamRecvState::Start;
                }
                self.send_state = StreamSendState::Start;
                assert(self@ == old(self)@.started());
                register_waker(&mut self.start_waiters, cx);
                (Poll::Pending, Some(StreamStart { fail_blocked: failed_on_block }))
            },
            StreamState::Start => {
                register_waker(&mut self.start_waiters, cx);
                (Poll::Pending, None)
            },
            _ => {
                if let Some(start_status) = self.start_status {
                    if start_status.is_ok() {
                        return (Poll::Ready(Ok(())), None);
                    }
                    let error = match start_status.try_as_status_code() {
                        Some(StatusCode::StreamLimitReached) => StartError::LimitReached,
                        Some(StatusCode::Aborted) | Some(StatusCode::InvalidState) => {
                            StartError::ConnectionLost(self.conn_error.unwrap())
                        },
                        _ => StartError::Unknown(start_status.raw),
                    };
                    (Poll::Ready(Err(error)), None)
                } else {
                    (Poll::Ready(Ok(())), None)
                }
            },
        }
    }

    /// The stream ID, as far as it is known here.
    pub fn known_id(&self) -> (id: Option<u64>)
        ensures
            id == self@.id,
    {
        self.id
    }

    /// The stream ID. `queried` is what MsQuic answered when asked for it, which only counts
    /// where the ID is not known yet.
    pub fn id(&mut self, queried: Option<u64>) -> (id: Option<u64>)
        requires
            old(self).well_formed(),
        ensures
            final(self).well_formed(),
            id == if old(self)@.id is Some {
                old(self)@.id
            } else {
                queried
            },
            final(self)@ == (StreamView { id, ..old(self)@ }),
    {
        if self.id.is_none() {
            self.id = queried;
        }
        self.id
    }

    /// Split the stream that `handle` leads to into its halves.
    pub fn split<H: Clone>(&self, handle: H) -> (halves: (
        Option<ReadStream<H>>,
        Option<WriteStream<H>>,
    ))
        ensures
            is_split(self@.stream_type, self@.local_open, handle, halves),
    {
        split_handle(self.stream_type, self.local_open, handle)
    }

    /// The last handle to the stream is gone: received data is dropped, and a stream that is
    /// still running is given up. Carry out the shutdown that comes back.
    pub fn close(&mut self) -> (shutdown: Option<StreamShutdown>)
        requires
            old(self).well_formed(),
        ensures
            final(self).well_formed(),
            final(self)@ == (StreamView { recv_buffers: Seq::empty(), ..old(self)@ }),
            shutdown == if old(self)@.state == StreamState::Start || old(self)@.state
                == StreamState::StartComplete {
                Some(StreamShutdown::abort_all())
            } else {
                None
            },
    {
        self.recv_buffers.clear();
        assert(self@.recv_buffers =~= Seq::empty());
        match self.state {
            StreamState::Start | StreamState::StartComplete => Some(StreamShutdown::abort_all()),
            _ => None,
        }
    }

    fn handle_event_start_complete(
        &mut self,
        status: Status,
        id: u64,
        peer_accepted: bool,
    ) -> (reply: StreamReply)
        requires
            old(self).well_formed(),
        ensures
            final(self).well_formed(),
            reply.status == StatusCode::Success,
            ({
                let after = StreamView {
                    id: if status.ok {
                        Some(id)
                    } else {
                        old(self)@.id
                    },
                    start_status: Some(status),
                    ..old(self)@
                };
                let after = if status.ok && peer_accepted {
                    after.accepted()
                } else {
                    after
                };
                if status.code == Some(StatusCode::StreamLimitReached) || peer_accepted {
                    &&& final(self)@ == (StreamView { start_waiters: Seq::empty(), ..after })
                    &&& reply.woken@ == old(self)@.start_waiters
                } else {
                    &&& final(self)@ == after
                    &&& reply.woken@ == Seq::<Waker>::empty()
                }
            }),
    {
        if status.is_ok() {
            self.id = Some(id);
        }
        self.start_status = Some(status);
        if status.is_ok() && peer_accepted {
            self.state = StreamState::StartComplete;
            if self.stream_type == StreamType::Bidirectional {
                self.recv_state = StreamRecvState::StartComplete;
            }
            self.send_state = StreamSendState::StartComplete;
        }
        let woken = if status.has_code(StatusCode::StreamLimitReached) || peer_accepted {
            drain_wakers(&mut self.start_waiters)
        } else {
            Vec::new()
        };
        StreamReply { status: StatusCode::Success, woken }
    }

    fn handle_event_receive(
        &mut self,
        absolute_offset: u64,
        buffers: Vec<Vec<u8>>,
        fin: bool,
    ) -> (reply: StreamReply)
        requires
            old(self).well_formed(),
            absolute_offset + pieces_of(buffers@).flatten().len() <= usize::MAX,
        ensures
            final(self).well_formed(),
            reply.status == StatusCode::Pending,
            reply.woken@ == old(self)@.read_waiters,
            final(self)@ == (StreamView {
                recv_buffers: old(self)@.recv_buffers.push(
                    RecvBufferView {
                        offset: absolute_offset as nat,
                        pieces: pieces_of(buffers@),
                        read: 0,
                        fin,
                    },
                ),
                read_waiters: Seq::empty(),
                ..old(self)@
            }),
    {
        let recv_buffer = StreamRecvBuffer::new(absolute_offset as usize, buffers, fin);
        self.recv_buffers.push_back(recv_buffer);
        assert(self@.recv_buffers =~= old(self)@.recv_buffers.push(recv_buffer@));
        let woken = drain_wakers(&mut self.read_waiters);
        StreamReply { status: StatusCode::Pending, woken }
    }

    fn handle_event_send_complete(&mut self, buffer: WriteBuffer) -> (reply: StreamReply)
        requires
            old(self).well_formed(),
        ensures
            final(self).well_formed(),
            reply.status == StatusCode::Success,
            reply.woken@ == Seq::<Waker>::empty(),
            final(self)@ == (StreamView { write_pool: old(self)@.write_pool + 1, ..old(self)@ }),
    {
        let mut buffer = buffer;
        buffer.reset();
        self.write_pool.push(buffer);
        StreamReply { status: StatusCode::Success, woken: Vec::new() }
    }

    fn handle_event_peer_send_shutdown(&mut self) -> (reply: StreamReply)
        requires
            old(self).well_formed(),
        ensures
            final(self).well_formed(),
            reply.status == StatusCode::Success,
            reply.woken@ == old(self)@.read_waiters,
            final(self)@ == (StreamView {
                recv_state: StreamRecvState::ShutdownComplete,
                read_waiters: Seq::empty(),
                ..old(self)@
            }),
    {
        self.recv_state = StreamRecvState::ShutdownComplete;
        let woken = drain_wakers(&mut self.read_waiters);
        StreamReply { status: StatusCode::Success, woken }
    }

    fn handle_event_peer_send_aborted(&mut self, error_code: u64) -> (reply: StreamReply)
        requires
            old(self).well_formed(),
        ensures
            final(self).well_formed(),
            reply.status == StatusCode::Success,
            reply.woken@ == old(self)@.read_waiters,
            final(self)@ == (StreamView {
                recv_state: StreamRecvState::ShutdownComplete,
                recv_error_code: Some(error_code),
                read_waiters: Seq::empty(),
                ..old(self)@
            }),
    {
        self.recv_state = StreamRecvState::ShutdownComplete;
        self.recv_error_code = Some(error_code);
        let woken = drain_wakers(&mut self.read_waiters);
        StreamReply { status: StatusCode::Success, woken }
    }

    fn handle_event_peer_receive_aborted(&mut self, error_code: u64) -> (reply: StreamReply)
        requires
            old(self).well_formed(),
        ensures
            final(self).well_formed(),
            reply.status == StatusCode::Success,
            reply.woken@ == old(self)@.write_shutdown_waiters,
            final(self)@ == (StreamView {
                send_state: StreamSendState::ShutdownComplete,
                send_error_code: Some(error_code),
                write_shutdown_waiters: Seq::empty(),
                ..old(self)@
            }),
    {
        self.send_state = StreamSendState::ShutdownComplete;
        self.send_error_code = Some(error_code);
        let woken = drain_wakers(&mut self.write_shutdown_waiters);
        StreamReply { status: StatusCode::Success, woken }
    }

    fn handle_event_send_shutdown_complete(&mut self) -> (reply: StreamReply)
        requires
            old(self).well_formed(),
        ensures
            final(self).well_formed(),
            reply.status == StatusCode::Success,
            reply.woken@ == old(self)@.write_shutdown_waiters,
            final(self)@ == (StreamView {
                send_state: StreamSendState::ShutdownComplete,
                write_shutdown_waiters: Seq::empty(),
                ..old(self)@
            }),
    {
        self.send_state = StreamSendState::ShutdownComplete;
        let woken = drain_wakers(&mut self.write_shutdown_waiters);
        StreamReply { status: StatusCode::Success, woken }
    }

    fn handle_event_shutdown_complete(&mut self, lost: Option<ConnectionShutdown>) -> (reply:
        StreamReply)
        requires
            old(self).well_formed(),
        ensures
            final(self).well_formed(),
            reply.status == StatusCode::Success,
            reply.woken@ == old(self)@.start_waiters + old(self)@.read_waiters,
            final(self)@ == (StreamView {
                state: StreamState::ShutdownComplete,
                recv_state: StreamRecvState::ShutdownComplete,
                send_state: StreamSendState::ShutdownComplete,
                conn_error: match lost {
                    Some(lost) => Some(lost.error()),
                    None => old(self)@.conn_error,
                },
                start_waiters: Seq::empty(),
                read_waiters: Seq::empty(),
                ..old(self)@
            }),
    {
        self.state = StreamState::ShutdownComplete;
        self.recv_state = StreamRecvState::ShutdownComplete;
        self.send_state = StreamSendState::ShutdownComplete;
        if let Some(lost) = lost {
            let error = match (lost.by_app, lost.closed_remotely) {
                (true, true) => ConnectionError::ShutdownByPeer(lost.error_code),
                (true, false) => ConnectionError::ShutdownByLocal,
                (false, true) | (false, false) => {
                    ConnectionError::ShutdownByTransport(lost.close_status, lost.error_code)
                },
            };
            self.conn_error = Some(error);
        }
        let mut woken = drain_wakers(&mut self.start_waiters);
        let mut readers = drain_wakers(&mut self.read_waiters);
        woken.append(&mut readers);
        StreamReply { status: StatusCode::Success, woken }
    }

    fn handle_event_peer_accepted(&mut self) -> (reply: StreamReply)
        requires
            old(self).well_formed(),
        ensures
            final(self).well_formed(),
            reply.status == StatusCode::Success,
            reply.woken@ == old(self)@.start_waiters,
            final(self)@ == (StreamView {
                start_waiters: Seq::empty(),
                ..old(self)@.accepted()
            }),
    {
        self.state = StreamState::StartComplete;
        if self.stream_type == StreamType::Bidirectional {
            self.recv_state = StreamRecvState::StartComplete;
        }
        self.send_state = StreamSendState::StartComplete;
        let woken = drain_wakers(&mut self.start_waiters);
        StreamReply { status: StatusCode::Success, woken }
    }

    /// Take an event in. Wake the wakers that come back, and answer MsQuic with the status.
    pub fn handle_event(&mut self, event: StreamEvent) -> (reply: StreamReply)
        requires
            old(self).well_formed(),
            event matches StreamEvent::Receive { absolute_offset, buffers, .. } ==> absolute_offset
                + pieces_of(buffers@).flatten().len() <= usize::MAX,
        ensures
            final(self).well_formed(),
            final(self)@ == old(self)@.after_event(event),
            reply.woken@ == old(self)@.woken_by(event),
            reply.status == if event is Receive {
                StatusCode::Pending
            } else {
                StatusCode::Success
            },
    {
        match event {
            StreamEvent::StartComplete { status, id, peer_accepted } => {
                self.handle_event_start_complete(status, id, peer_accepted)
            },
            StreamEvent::Receive { absolute_offset, buffers, fin } => {
                self.handle_event_receive(absolute_offset, buffers, fin)
            },
            StreamEvent::SendComplete { buffer } => self.handle_event_send_complete(buffer),
            StreamEvent::PeerSendShutdown => self.handle_event_peer_send_shutdown(),
            StreamEvent::PeerSendAborted { error_code } => {
                self.handle_event_peer_send_aborted(error_code)
            },
            StreamEvent::PeerReceiveAborted { error_code } => {
                self.handle_event_peer_receive_aborted(error_code)
            },
            StreamEvent::SendShutdownComplete => self.handle_event_send_shutdown_complete(),
            StreamEvent::ShutdownComplete { lost } => self.handle_event_shutdown_complete(lost),
            StreamEvent::PeerAccepted => self.handle_event_peer_accepted(),
            StreamEvent::IdealSendBufferSize | StreamEvent::Other => StreamReply {
                status: StatusCode::Success,
                woken: Vec::new(),
            },
        }
    }

    /// Count a received buffer as done with. Returns how much more of the stream MsQuic is to be
    /// told is done with; nothing is to be told where that is zero.
    pub fn read_complete(&mut self, buffer: &StreamRecvBuffer) -> (complete_len: usize)
        requires
            old(self).well_formed(),
            buffer.well_formed(),
        ensures
            final(self).well_formed(),
            final(self)@.completed == old(self)@.completed.union(
                Set::new(
                    |value: usize|
                        buffer@.offset <= value < buffer@.offset + buffer@.data().len(),
                ),
            ),
            contiguous(final(self)@.completed, final(self)@.read_complete_cursor),
            final(self)@.read_complete_cursor == old(self)@.read_complete_cursor + complete_len,
            final(self)@ == (StreamView {
                completed: final(self)@.completed,
                read_complete_cursor: final(self)@.read_complete_cursor,
                ..old(self)@
            }),
    {
        let range = buffer.range();
        let ghost added = Set::new(
            |value: usize| buffer@.offset <= value < buffer@.offset + buffer@.data().len(),
        );
        assert(added =~= values_in(range));
        if range.start >= range.end {
            assert(self@.completed.union(added) =~= self@.completed);
            return 0;
        }
        insert_range(&mut self.read_complete_map, range);
        proof {
            assert(covered(self.read_complete_map).contains(range.start)) by {
                assert(values_in(range).contains(range.start));
            }
            assert forall|value: usize| value < self.read_complete_cursor implies #[trigger]
            self@.completed.contains(value) by {
                assert(old(self)@.completed.contains(value));
            }
        }
        match first_range(&self.read_complete_map) {
            Some(complete) => {
                if complete.start == 0 && self.read_complete_cursor < complete.end {
                    let complete_len: usize = complete.end - self.read_complete_cursor;
                    self.read_complete_cursor = complete.end;
                    proof {
                        assert forall|value: usize| value < complete.end implies #[trigger]
                        self@.completed.contains(value) by {
                            assert(values_in(complete).contains(value));
                        }
                    }
                    complete_len
                } else {
                    proof {
                        if complete.start == 0 {
                            if self.read_complete_cursor > complete.end {
                                assert(self@.completed.contains(complete.end));
                            }
                            assert(self.read_complete_cursor == complete.end);
                        } else {
                            if self@.completed.contains(0usize) {
                                assert(covered(self.read_complete_map).contains(0usize));
                            }
                            assert(self.read_complete_cursor == 0);
                        }
                        assert(!self@.completed.contains(self.read_complete_cursor));
                    }
                    0
                }
            },
            None => 0,
        }
    }
}

/// What is read is what was received: data that arrives is read after all that arrived before it,
/// and nothing else changes what is there to read.
pub proof fn events_only_append_data(stream: StreamView, event: StreamEvent)
    ensures
        stream.after_event(event).pending() == match event {
            StreamEvent::Receive { buffers, .. } => stream.pending() + pieces_of(
                buffers@,
            ).flatten(),
            _ => stream.pending(),
        },
{
    if let StreamEvent::Receive { absolute_offset, buffers, fin } = event {
        let buffer = RecvBufferView {
            offset: absolute_offset as nat,
            pieces: pieces_of(buffers@),
            read: 0,
            fin,
        };
        received_data_is_read_last(stream.recv_buffers, buffer);
        assert(buffer.unread() =~= pieces_of(buffers@).flatten());
    }
}

/// A task that waits for data is woken by every event that brings some, or that changes what a
/// reader finds.
pub proof fn readers_are_woken(stream: StreamView, event: StreamEvent)
    requires
        stream.read_gate() == ReadGate::Open,
        stream.after_event(event).read_gate() != ReadGate::Open || stream.after_event(
            event,
        ).recv_buffers != stream.recv_buffers,
    ensures
        stream.after_event(event).read_waiters == Seq::<Waker>::empty(),
        forall|i: int|
            0 <= i < stream.read_waiters.len() ==> stream.woken_by(event).contains(
                #[trigger] stream.read_waiters[i],
            ),
{
    let woken = stream.woken_by(event);
    let start = if StreamView::ends_start(event) {
        stream.start_waiters
    } else {
        Seq::empty()
    };
    assert forall|i: int| 0 <= i < stream.read_waiters.len() implies woken.contains(
        #[trigger] stream.read_waiters[i],
    ) by {
        assert(woken[start.len() + i] == stream.read_waiters[i]);
    }
}

/// A task that waits for the start is woken by every event that ends the start.
pub proof fn starters_are_woken(stream: StreamView, event: StreamEvent)
    requires
        stream.state == StreamState::Start,
        stream.after_event(event).state != StreamState::Start,
    ensures
        stream.after_event(event).start_waiters == Seq::<Waker>::empty(),
        forall|i: int|
            0 <= i < stream.start_waiters.len() ==> stream.woken_by(event).contains(
                #[trigger] stream.start_waiters[i],
            ),
{
    let woken = stream.woken_by(event);
    assert forall|i: int| 0 <= i < stream.start_waiters.len() implies woken.contains(
        #[trigger] stream.start_waiters[i],
    ) by {
        assert(woken[i] == stream.start_waiters[i]);
    }
}

/// A task that waits for the sending direction to be shut down is woken by the events that tell
/// so of that direction.
pub proof fn finishers_are_woken(stream: StreamView, event: StreamEvent)
    requires
        stream.write_gate() == WriteGate::ShuttingDown,
        stream.after_event(event).write_gate() != WriteGate::ShuttingDown,
        !(event is ShutdownComplete || event is PeerAccepted || event is StartComplete),
    ensures
        stream.after_event(event).write_shutdown_waiters == Seq::<Waker>::empty(),
        stream.woken_by(event) == stream.write_shutdown_waiters,
{
    assert(stream.woken_by(event) =~= stream.write_shutdown_waiters);
}

/// A stream that was ended takes no more data: the next write finds it finished.
pub proof fn writing_after_the_end_fails(
    before: StreamView,
    cx: Context<'_>,
    data: WriteBufferView,
    amount: nat,
    answer: (Poll<Result<usize, WriteError>>, Option<StreamSend>),
    after: StreamView,
)
    requires
        before.accepts_data(),
        written(before, cx, data, amount, true, answer, after),
    ensures
        !after.accepts_data(),
        refused_write::<usize>(after) == Poll::<Result<usize, WriteError>>::Ready(
            Err(WriteError::Finished),
        ),
{
}

/// Once the segment that the stream ends with was handed out, the next read finds the end; whether
/// anybody still holds a segment does not matter. Nobody is left waiting. The receiving direction
/// itself is as it was: it can still be aborted.
pub proof fn the_end_follows_the_last_segment(before: StreamView)
    requires
        before.well_formed(),
        before.read_gate() == ReadGate::Open,
        before.recv_buffers.len() > 0,
        before.recv_buffers[0].fin,
    ensures
        before.segment_taken().read_gate() == ReadGate::End,
        refused_read::<StreamRecvBuffer>(before.segment_taken()) == Poll::<
            Result<Option<StreamRecvBuffer>, ReadError>,
        >::Ready(Ok(None)),
        before.segment_taken().read_waiters == Seq::<Waker>::empty(),
        before.segment_taken().recv_state == StreamRecvState::StartComplete,
{
}

/// Once a read took the data up to the end of the stream, the next read finds the end. No data is
/// passed over, nobody is left waiting, and the receiving direction can still be aborted.
pub proof fn the_end_follows_the_last_read(before: StreamView, room: nat)
    requires
        before.well_formed(),
        before.read_gate() == ReadGate::Open,
        before.ends_within(room),
    ensures
        before.read_off(room).read_gate() == ReadGate::End,
        before.read_off(room).recv_buffers == Seq::<RecvBufferView>::empty(),
        before.read_off(room).read_waiters == Seq::<Waker>::empty(),
        before.read_off(room).recv_state == StreamRecvState::StartComplete,
{
    all_is_read(before.recv_buffers, room);
}

/// MsQuic is told of every part of the stream that is done with, in whatever order the parts are:
/// once all of the first `length` bytes are, it was told of all of them, and never of a byte that
/// is not done with.
pub proof fn completed_data_is_acknowledged(completed: Set<usize>, told: nat, length: nat)
    requires
        contiguous(completed, told),
        length <= usize::MAX,
        forall|value: usize| value < length ==> #[trigger] completed.contains(value),
    ensures
        told >= length,
        forall|value: usize| value < told ==> completed.contains(value),
{
    if told < length {
        assert(completed.contains(told as usize));
    }
}

} // verus!
