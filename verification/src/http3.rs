//! What HTTP/3 needs of connections and streams.
use std::task::{Context, Poll};

use bytes::Bytes;
use h3::quic::StreamId;

use vstd::prelude::*;
use vstd::string::StringExecFns;

use crate::buffer::{
    bytes_data, chunk_is_prefix_of_unread, chunks_make_up_unread,
    reading_a_chunk_leaves_the_others, Chunks, ChunksView, StreamRecvBuffer, WriteBuffer,
    WriteBufferView,
};
use crate::connection::{
    datagram_taken, waited_for_start as waited_for_connection, Connection, ConnectionError,
    ConnectionView, DgramReceiveError, DgramSendError, Gate,
};
use crate::status::StatusCode;
use crate::stream::{
    refused_write, shut_down_answer, split_handle, waited_for_data, waited_for_start,
    write_shut_down, ReadError, ReadGate, ReadStream, StartError, Stream, StreamRecvState,
    StreamSend, StreamSendState, StreamShutdown, StreamType, StreamView, WriteError, WriteGate,
    WriteStream,
};
use crate::sync::{context_waker, registered};

verus! {

/// `h3::quic::StreamId`, carried as an opaque value; [`stream_number`] names the number in it.
#[verifier::external_type_specification]
#[verifier::external_body]
pub struct ExStreamId(h3::quic::StreamId);

/// The number that a `StreamId` holds.
pub uninterp spec fn stream_number(id: StreamId) -> u64;

/// The largest number that a stream can have.
pub const MAX_STREAM_NUMBER: u64 = 0x3fff_ffff_ffff_ffff;

/// `StreamId::try_from` takes every number that fits a variable-length integer, and no other.
#[verifier::external_body]
fn try_stream_id(number: u64) -> (id: Option<StreamId>)
    ensures
        id is Some <==> number <= MAX_STREAM_NUMBER,
        id matches Some(id) ==> stream_number(id) == number,
{
    StreamId::try_from(number).ok()
}

/// What an error that HTTP/3 has no name for goes back to.
#[derive(Clone, Copy, Debug, PartialEq, Eq, Structural)]
pub enum Cause {
    Connection(ConnectionError),
    Start(StartError),
    Read(ReadError),
    Write(WriteError),
    DgramSend(DgramSendError),
    DgramReceive(DgramReceiveError),
}

/// The connection was closed.
#[derive(Debug)]
pub enum ConnectionErrorIncoming {
    /// The peer closed it with an HTTP/3 error code.
    ApplicationClose { error_code: u64 },
    /// It timed out.
    Timeout,
    /// The HTTP/3 stack misused it.
    InternalError(String),
    /// Anything else.
    Undefined(Cause),
}

/// The stream was closed.
#[derive(Debug)]
pub enum StreamErrorIncoming {
    /// Its connection was closed.
    ConnectionErrorIncoming { connection_error: ConnectionErrorIncoming },
    /// The peer closed it.
    StreamTerminated { error_code: u64 },
    /// Anything else.
    Unknown(Cause),
}

/// The datagram cannot be sent.
#[derive(Debug)]
pub enum SendDatagramErrorIncoming {
    /// The peer takes no datagrams.
    NotAvailable,
    /// The datagram is too long.
    TooLarge,
    /// The connection was closed.
    ConnectionError(ConnectionErrorIncoming),
}

/// The status of a transport shutdown stands for a code.
pub open spec fn convertible(error: ConnectionError) -> bool {
    error matches ConnectionError::ShutdownByTransport(status, _) ==> status.code is Some
}

/// Whether the status of a transport shutdown stands for a code.
pub fn is_convertible(error: &ConnectionError) -> (known: bool)
    ensures
        known == convertible(*error),
{
    match error {
        ConnectionError::ShutdownByTransport(status, _) => status.try_as_status_code().is_some(),
        _ => true,
    }
}

/// What HTTP/3 is told of a connection error: the peer's error code, or a timeout, or else the
/// error itself.
pub open spec fn connection_error_spec(error: ConnectionError) -> ConnectionErrorIncoming {
    match error {
        ConnectionError::ShutdownByPeer(error_code) => ConnectionErrorIncoming::ApplicationClose {
            error_code,
        },
        ConnectionError::ShutdownByTransport(status, _) => if status.code == Some(
            StatusCode::ConnectionTimeout,
        ) || status.code == Some(StatusCode::ConnectionIdle) {
            ConnectionErrorIncoming::Timeout
        } else {
            ConnectionErrorIncoming::Undefined(Cause::Connection(error))
        },
        _ => ConnectionErrorIncoming::Undefined(Cause::Connection(error)),
    }
}

/// What HTTP/3 is told of a connection error.
pub fn convert_connection_error(error: ConnectionError) -> (converted: ConnectionErrorIncoming)
    requires
        convertible(error),
    ensures
        converted == connection_error_spec(error),
{
    match error {
        ConnectionError::ShutdownByPeer(error_code) => {
            ConnectionErrorIncoming::ApplicationClose { error_code }
        },
        ConnectionError::ShutdownByTransport(status, _) => {
            match status.try_as_status_code() {
                Some(StatusCode::ConnectionTimeout) | Some(StatusCode::ConnectionIdle) => {
                    ConnectionErrorIncoming::Timeout
                },
                _ => ConnectionErrorIncoming::Undefined(Cause::Connection(error)),
            }
        },
        _ => ConnectionErrorIncoming::Undefined(Cause::Connection(error)),
    }
}

/// What HTTP/3 is told of a stream that cannot be had.
pub open spec fn start_error_spec(error: StartError) -> ConnectionErrorIncoming {
    match error {
        StartError::ConnectionLost(error) => connection_error_spec(error),
        _ => ConnectionErrorIncoming::Undefined(Cause::Start(error)),
    }
}

/// What HTTP/3 is told of a stream that cannot be had.
pub fn convert_start_error(error: StartError) -> (converted: ConnectionErrorIncoming)
    requires
        error matches StartError::ConnectionLost(error) ==> convertible(error),
    ensures
        converted == start_error_spec(error),
{
    match error {
        StartError::ConnectionLost(error) => convert_connection_error(error),
        _ => ConnectionErrorIncoming::Undefined(Cause::Start(error)),
    }
}

/// What HTTP/3 is told of an error when reading.
pub open spec fn read_error_spec(error: ReadError) -> StreamErrorIncoming {
    match error {
        ReadError::Reset(error_code) => StreamErrorIncoming::StreamTerminated { error_code },
        ReadError::ConnectionLost(error) => StreamErrorIncoming::ConnectionErrorIncoming {
            connection_error: connection_error_spec(error),
        },
        ReadError::Closed => StreamErrorIncoming::Unknown(Cause::Read(error)),
    }
}

/// What HTTP/3 is told of an error when reading.
pub fn convert_read_error_to_stream_error(error: ReadError) -> (converted: StreamErrorIncoming)
    requires
        error matches ReadError::ConnectionLost(error) ==> convertible(error),
    ensures
        converted == read_error_spec(error),
{
    match error {
        ReadError::Reset(error_code) => StreamErrorIncoming::StreamTerminated { error_code },
        ReadError::ConnectionLost(error) => StreamErrorIncoming::ConnectionErrorIncoming {
            connection_error: convert_connection_error(error),
        },
        ReadError::Closed => StreamErrorIncoming::Unknown(Cause::Read(error)),
    }
}

/// What HTTP/3 is told of an error when writing.
pub open spec fn write_error_spec(error: WriteError) -> StreamErrorIncoming {
    match error {
        WriteError::Stopped(error_code) => StreamErrorIncoming::StreamTerminated { error_code },
        WriteError::ConnectionLost(error) => StreamErrorIncoming::ConnectionErrorIncoming {
            connection_error: connection_error_spec(error),
        },
        WriteError::Closed | WriteError::Finished => StreamErrorIncoming::Unknown(
            Cause::Write(error),
        ),
    }
}

/// What HTTP/3 is told of an error when writing.
pub fn convert_write_error_to_stream_error(error: WriteError) -> (converted: StreamErrorIncoming)
    requires
        error matches WriteError::ConnectionLost(error) ==> convertible(error),
    ensures
        converted == write_error_spec(error),
{
    match error {
        WriteError::Stopped(error_code) => StreamErrorIncoming::StreamTerminated { error_code },
        WriteError::ConnectionLost(error) => StreamErrorIncoming::ConnectionErrorIncoming {
            connection_error: convert_connection_error(error),
        },
        WriteError::Closed | WriteError::Finished => {
            StreamErrorIncoming::Unknown(Cause::Write(error))
        },
    }
}

/// What HTTP/3 is told of a datagram that cannot be sent.
pub open spec fn dgram_send_error_spec(error: DgramSendError) -> SendDatagramErrorIncoming {
    match error {
        DgramSendError::Denied => SendDatagramErrorIncoming::NotAvailable,
        DgramSendError::TooBig => SendDatagramErrorIncoming::TooLarge,
        DgramSendError::ConnectionLost(error) => SendDatagramErrorIncoming::ConnectionError(
            connection_error_spec(error),
        ),
        DgramSendError::ConnectionNotStarted
        | DgramSendError::OtherError(_) => SendDatagramErrorIncoming::ConnectionError(
            ConnectionErrorIncoming::Undefined(Cause::DgramSend(error)),
        ),
    }
}

/// What HTTP/3 is told of a datagram that cannot be sent.
pub fn convert_dgram_send_error(error: DgramSendError) -> (converted: SendDatagramErrorIncoming)
    requires
        error matches DgramSendError::ConnectionLost(error) ==> convertible(error),
    ensures
        converted == dgram_send_error_spec(error),
{
    match error {
        DgramSendError::Denied => SendDatagramErrorIncoming::NotAvailable,
        DgramSendError::TooBig => SendDatagramErrorIncoming::TooLarge,
        DgramSendError::ConnectionLost(error) => {
            SendDatagramErrorIncoming::ConnectionError(convert_connection_error(error))
        },
        DgramSendError::ConnectionNotStarted | DgramSendError::OtherError(_) => {
            SendDatagramErrorIncoming::ConnectionError(
                ConnectionErrorIncoming::Undefined(Cause::DgramSend(error)),
            )
        },
    }
}

/// What HTTP/3 is told of an error when receiving a datagram.
pub open spec fn dgram_recv_error_spec(error: DgramReceiveError) -> ConnectionErrorIncoming {
    match error {
        DgramReceiveError::ConnectionLost(error) => connection_error_spec(error),
        _ => ConnectionErrorIncoming::Undefined(Cause::DgramReceive(error)),
    }
}

/// What HTTP/3 is told of an error when receiving a datagram.
pub fn convert_dgram_recv_error(error: DgramReceiveError) -> (converted: ConnectionErrorIncoming)
    requires
        error matches DgramReceiveError::ConnectionLost(error) ==> convertible(error),
    ensures
        converted == dgram_recv_error_spec(error),
{
    match error {
        DgramReceiveError::ConnectionLost(error) => convert_connection_error(error),
        _ => ConnectionErrorIncoming::Undefined(Cause::DgramReceive(error)),
    }
}

/// Both halves of the bidirectional stream that `handle` leads to.
pub fn bidi_halves<H: Clone>(handle: H, local_open: bool) -> (halves: (
    ReadStream<H>,
    WriteStream<H>,
))
    ensures
        cloned(handle, halves.0.0),
        halves.1 == WriteStream(handle),
{
    match split_handle(StreamType::Bidirectional, local_open, handle) {
        (Some(read), Some(write)) => (read, write),
        _ => vstd::pervasive::unreached(),
    }
}

/// The writing half of the unidirectional stream that `handle` leads to, which this side opened.
pub fn send_half<H: Clone>(handle: H) -> (half: WriteStream<H>)
    ensures
        half == WriteStream(handle),
{
    match split_handle(StreamType::Unidirectional, true, handle) {
        (None, Some(write)) => write,
        _ => vstd::pervasive::unreached(),
    }
}

/// Accept a bidirectional stream that the peer opened, as its two halves.
pub fn poll_accept_bidi<S: Clone, T, F>(
    connection: &mut Connection<S, T, F>,
    cx: &Context<'_>,
) -> (answer: Poll<Result<(ReadStream<S>, WriteStream<S>), ConnectionErrorIncoming>>)
    requires
        old(connection).well_formed(),
        old(connection)@.gate() matches Gate::Lost(error) ==> convertible(error),
    ensures
        final(connection).well_formed(),
        match old(connection)@.gate() {
            Gate::NotStarted => {
                &&& answer == Poll::<
                    Result<(ReadStream<S>, WriteStream<S>), ConnectionErrorIncoming>,
                >::Ready(Err(start_error_spec(StartError::ConnectionNotStarted)))
                &&& final(connection)@ == old(connection)@
            },
            Gate::Starting => {
                &&& answer is Pending
                &&& waited_for_connection(old(connection)@, *cx, final(connection)@)
            },
            Gate::Open => if old(connection)@.inbound_streams.len() > 0 {
                let stream = old(connection)@.inbound_streams[0];
                &&& answer matches Poll::Ready(Ok(halves))
                &&& cloned(stream, halves.0.0)
                &&& halves.1 == WriteStream(stream)
                &&& final(connection)@ == (ConnectionView {
                    inbound_streams: old(connection)@.inbound_streams.drop_first(),
                    ..old(connection)@
                })
            } else {
                &&& answer is Pending
                &&& registered(
                    old(connection)@.inbound_stream_waiters,
                    context_waker(*cx),
                    final(connection)@.inbound_stream_waiters,
                )
                &&& final(connection)@ == (ConnectionView {
                    inbound_stream_waiters: final(connection)@.inbound_stream_waiters,
                    ..old(connection)@
                })
            },
            Gate::Lost(error) => {
                &&& answer == Poll::<
                    Result<(ReadStream<S>, WriteStream<S>), ConnectionErrorIncoming>,
                >::Ready(Err(connection_error_spec(error)))
                &&& final(connection)@ == old(connection)@
            },
        },
{
    match connection.poll_accept_inbound_stream(cx) {
        Poll::Ready(Ok(stream)) => Poll::Ready(Ok(bidi_halves(stream, false))),
        Poll::Ready(Err(error)) => Poll::Ready(Err(convert_start_error(error))),
        Poll::Pending => Poll::Pending,
    }
}

/// Accept a unidirectional stream that the peer opened.
pub fn poll_accept_recv<S, T, F>(connection: &mut Connection<S, T, F>, cx: &Context<'_>) -> (answer:
    Poll<Result<ReadStream<S>, ConnectionErrorIncoming>>)
    requires
        old(connection).well_formed(),
        old(connection)@.gate() matches Gate::Lost(error) ==> convertible(error),
    ensures
        final(connection).well_formed(),
        match old(connection)@.gate() {
            Gate::NotStarted => {
                &&& answer == Poll::<Result<ReadStream<S>, ConnectionErrorIncoming>>::Ready(
                    Err(start_error_spec(StartError::ConnectionNotStarted)),
                )
                &&& final(connection)@ == old(connection)@
            },
            Gate::Starting => {
                &&& answer is Pending
                &&& waited_for_connection(old(connection)@, *cx, final(connection)@)
            },
            Gate::Open => if old(connection)@.inbound_uni_streams.len() > 0 {
                &&& answer == Poll::<Result<ReadStream<S>, ConnectionErrorIncoming>>::Ready(
                    Ok(old(connection)@.inbound_uni_streams[0]),
                )
                &&& final(connection)@ == (ConnectionView {
                    inbound_uni_streams: old(connection)@.inbound_uni_streams.drop_first(),
                    ..old(connection)@
                })
            } else {
                &&& answer is Pending
                &&& registered(
                    old(connection)@.inbound_uni_stream_waiters,
                    context_waker(*cx),
                    final(connection)@.inbound_uni_stream_waiters,
                )
                &&& final(connection)@ == (ConnectionView {
                    inbound_uni_stream_waiters: final(connection)@.inbound_uni_stream_waiters,
                    ..old(connection)@
                })
            },
            Gate::Lost(error) => {
                &&& answer == Poll::<Result<ReadStream<S>, ConnectionErrorIncoming>>::Ready(
                    Err(connection_error_spec(error)),
                )
                &&& final(connection)@ == old(connection)@
            },
        },
{
    match connection.poll_accept_inbound_uni_stream(cx) {
        Poll::Ready(Ok(stream)) => Poll::Ready(Ok(stream)),
        Poll::Ready(Err(error)) => Poll::Ready(Err(convert_start_error(error))),
        Poll::Pending => Poll::Pending,
    }
}

/// The two halves of a bidirectional stream, or the reason why it could not be opened.
pub fn opened_bidi<S: Clone>(opened: Result<S, StartError>) -> (answer: Result<
    (ReadStream<S>, WriteStream<S>),
    StreamErrorIncoming,
>)
    requires
        opened matches Err(StartError::ConnectionLost(error)) ==> convertible(error),
    ensures
        match opened {
            Ok(stream) => {
                &&& answer matches Ok(halves)
                &&& cloned(stream, halves.0.0)
                &&& halves.1 == WriteStream(stream)
            },
            Err(error) => answer == Err::<
                (ReadStream<S>, WriteStream<S>),
                StreamErrorIncoming,
            >(
                StreamErrorIncoming::ConnectionErrorIncoming {
                    connection_error: start_error_spec(error),
                },
            ),
        },
{
    match opened {
        Ok(stream) => Ok(bidi_halves(stream, true)),
        Err(error) => Err(
            StreamErrorIncoming::ConnectionErrorIncoming {
                connection_error: convert_start_error(error),
            },
        ),
    }
}

/// The writing half of a unidirectional stream, or the reason why it could not be opened.
pub fn opened_send<S: Clone>(opened: Result<S, StartError>) -> (answer: Result<
    WriteStream<S>,
    StreamErrorIncoming,
>)
    requires
        opened matches Err(StartError::ConnectionLost(error)) ==> convertible(error),
    ensures
        answer == match opened {
            Ok(stream) => Ok::<WriteStream<S>, StreamErrorIncoming>(WriteStream(stream)),
            Err(error) => Err(
                StreamErrorIncoming::ConnectionErrorIncoming {
                    connection_error: start_error_spec(error),
                },
            ),
        },
{
    match opened {
        Ok(stream) => Ok(send_half(stream)),
        Err(error) => Err(
            StreamErrorIncoming::ConnectionErrorIncoming {
                connection_error: convert_start_error(error),
            },
        ),
    }
}

/// Receive a datagram.
pub fn poll_incoming_datagram<S, T, F>(
    connection: &mut Connection<S, T, F>,
    cx: &Context<'_>,
) -> (answer: Poll<Result<Bytes, ConnectionErrorIncoming>>)
    requires
        old(connection).well_formed(),
        old(connection)@.gate() matches Gate::Lost(error) ==> convertible(error),
    ensures
        final(connection).well_formed(),
        match old(connection)@.gate() {
            Gate::NotStarted => {
                &&& answer == Poll::<Result<Bytes, ConnectionErrorIncoming>>::Ready(
                    Err(dgram_recv_error_spec(DgramReceiveError::ConnectionNotStarted)),
                )
                &&& final(connection)@ == old(connection)@
            },
            Gate::Starting => {
                &&& answer is Pending
                &&& waited_for_connection(old(connection)@, *cx, final(connection)@)
            },
            Gate::Open => if old(connection)@.recv_buffers.len() > 0 {
                &&& answer matches Poll::Ready(Ok(datagram))
                &&& bytes_data(datagram) == old(connection)@.recv_buffers[0]
                &&& final(connection)@ == (ConnectionView {
                    recv_buffers: old(connection)@.recv_buffers.drop_first(),
                    ..old(connection)@
                })
            } else {
                &&& answer is Pending
                &&& registered(
                    old(connection)@.recv_waiters,
                    context_waker(*cx),
                    final(connection)@.recv_waiters,
                )
                &&& final(connection)@ == (ConnectionView {
                    recv_waiters: final(connection)@.recv_waiters,
                    ..old(connection)@
                })
            },
            Gate::Lost(error) => {
                &&& answer == Poll::<Result<Bytes, ConnectionErrorIncoming>>::Ready(
                    Err(connection_error_spec(error)),
                )
                &&& final(connection)@ == old(connection)@
            },
        },
{
    match connection.poll_receive_datagram(cx) {
        Poll::Ready(Ok(datagram)) => Poll::Ready(Ok(datagram)),
        Poll::Ready(Err(error)) => Poll::Ready(Err(convert_dgram_recv_error(error))),
        Poll::Pending => Poll::Pending,
    }
}

/// The number of a stream, as HTTP/3 takes it.
pub fn stream_id(number: u64) -> (id: StreamId)
    requires
        number <= MAX_STREAM_NUMBER,
    ensures
        stream_number(id) == number,
{
    try_stream_id(number).unwrap()
}

/// A struct which allows to send datagrams over the connection that `C` leads to.
pub struct SendDatagramHandler<C> {
    pub conn: C,
}

impl<C> SendDatagramHandler<C> {
    /// Send on the connection that `conn` leads to.
    pub fn new(conn: C) -> (handler: Self)
        ensures
            handler.conn == conn,
    {
        SendDatagramHandler { conn }
    }

    /// Send a datagram. Hand the buffer that comes back to MsQuic.
    pub fn send_datagram<S, T, F>(
        &mut self,
        connection: &mut Connection<S, T, F>,
        buf: &Bytes,
    ) -> (answer: Result<WriteBuffer, SendDatagramErrorIncoming>)
        requires
            old(connection).well_formed(),
            old(connection)@.gate() matches Gate::Lost(error) ==> convertible(error),
        ensures
            final(connection).well_formed(),
            final(self).conn == old(self).conn,
            match old(connection)@.gate() {
                Gate::NotStarted | Gate::Starting => {
                    &&& answer == Err::<WriteBuffer, SendDatagramErrorIncoming>(
                        dgram_send_error_spec(DgramSendError::ConnectionNotStarted),
                    )
                    &&& final(connection)@ == old(connection)@
                },
                Gate::Open => if !old(connection)@.dgram_send_enabled {
                    &&& answer == Err::<WriteBuffer, SendDatagramErrorIncoming>(
                        SendDatagramErrorIncoming::NotAvailable,
                    )
                    &&& final(connection)@ == old(connection)@
                } else if bytes_data(*buf).len() > old(connection)@.dgram_max_send_length {
                    &&& answer == Err::<WriteBuffer, SendDatagramErrorIncoming>(
                        SendDatagramErrorIncoming::TooLarge,
                    )
                    &&& final(connection)@ == old(connection)@
                } else {
                    &&& answer matches Ok(buffer)
                    &&& datagram_taken(
                        old(connection)@,
                        bytes_data(*buf),
                        Ok(buffer),
                        final(connection)@,
                    )
                },
                Gate::Lost(error) => {
                    &&& answer == Err::<WriteBuffer, SendDatagramErrorIncoming>(
                        dgram_send_error_spec(DgramSendError::ConnectionLost(error)),
                    )
                    &&& final(connection)@ == old(connection)@
                },
            },
    {
        match connection.send_datagram(buf) {
            Ok(buffer) => Ok(buffer),
            Err(error) => Err(convert_dgram_send_error(error)),
        }
    }
}

/// What is being received on a stream.
pub struct RecvStream {
    /// A read was begun that is not over; until then the stream is not free for anything else.
    pub reading: bool,
}

impl RecvStream {
    pub fn new() -> (recv: Self)
        ensures
            !recv.reading,
    {
        RecvStream { reading: false }
    }

    /// Receive the next data. An empty segment that only tells the end of the stream is not data.
    /// Once the segment that the stream ends with was received, the next answer is the end.
    pub fn poll_data(&mut self, stream: &mut Stream, cx: &Context<'_>) -> (answer: Poll<
        Result<Option<StreamRecvBuffer>, StreamErrorIncoming>,
    >)
        requires
            old(stream).well_formed(),
            old(stream)@.read_gate() matches ReadGate::Lost(error) ==> convertible(error),
        ensures
            final(stream).well_formed(),
            final(self).reading == answer is Pending,
            old(stream)@.read_gate() != ReadGate::Open ==> {
                &&& answer == match old(stream)@.read_gate() {
                    ReadGate::Closed => Poll::<
                        Result<Option<StreamRecvBuffer>, StreamErrorIncoming>,
                    >::Ready(Err(read_error_spec(ReadError::Closed))),
                    ReadGate::Lost(error) => Poll::Ready(
                        Err(read_error_spec(ReadError::ConnectionLost(error))),
                    ),
                    ReadGate::Reset(error_code) => Poll::Ready(
                        Err(read_error_spec(ReadError::Reset(error_code))),
                    ),
                    ReadGate::End => Poll::Ready(Ok(None)),
                    _ => Poll::Pending,
                }
                &&& waited_for_start(
                    old(stream)@,
                    *cx,
                    old(stream)@.read_gate() == ReadGate::Starting,
                    final(stream)@,
                )
            },
            old(stream)@.read_gate() == ReadGate::Open ==> if old(stream)@.recv_buffers.len()
                == 0 {
                &&& answer is Pending
                &&& waited_for_data(old(stream)@, *cx, final(stream)@)
            } else {
                let first = old(stream)@.recv_buffers[0];
                &&& final(stream)@ == old(stream)@.segment_taken()
                &&& if first.data().len() == 0 && first.fin {
                    answer == Poll::<
                        Result<Option<StreamRecvBuffer>, StreamErrorIncoming>,
                    >::Ready(Ok(None))
                } else {
                    &&& answer matches Poll::Ready(Ok(Some(chunk)))
                    &&& chunk.well_formed()
                    &&& chunk@ == first
                }
            },
    {
        match stream.poll_read_chunk(cx) {
            Poll::Ready(chunk) => {
                self.reading = false;
                match chunk {
                    Ok(Some(chunk)) => {
                        if chunk.is_empty() && chunk.fin() {
                            Poll::Ready(Ok(None))
                        } else {
                            Poll::Ready(Ok(Some(chunk)))
                        }
                    },
                    Ok(None) => Poll::Ready(Ok(None)),
                    Err(error) => Poll::Ready(Err(convert_read_error_to_stream_error(error))),
                }
            },
            Poll::Pending => {
                self.reading = true;
                Poll::Pending
            },
        }
    }

    /// Ask the peer to stop sending, where that can be asked. Carry out the shutdown that comes
    /// back.
    pub fn stop_sending(&mut self, stream: &mut Stream, error_code: u64) -> (shutdown: Option<
        StreamShutdown,
    >)
        requires
            !old(self).reading,
            old(stream).well_formed(),
        ensures
            *final(self) == *old(self),
            final(stream).well_formed(),
            if old(stream)@.recv_state == StreamRecvState::StartComplete {
                &&& shutdown == Some(StreamShutdown::abort_receive(error_code))
                &&& final(stream)@ == (StreamView {
                    recv_state: StreamRecvState::ShutdownComplete,
                    ..old(stream)@
                })
            } else {
                &&& shutdown is None
                &&& final(stream)@ == old(stream)@
            },
    {
        let (_, shutdown) = stream.abort_read(error_code);
        shutdown
    }
}

/// What is being sent on a stream.
pub struct SendStream {
    writing: Option<Chunks>,
    blocked: bool,
}

impl SendStream {
    /// The data that is to be written, in the parts in which it is written.
    pub closed spec fn writing(&self) -> Option<Seq<Seq<u8>>> {
        match self.writing {
            Some(chunks) => Some(chunks@.chunks()),
            None => None,
        }
    }

    /// A write was begun that is not over; until then the stream is not free for anything else.
    pub closed spec fn blocked(&self) -> bool {
        self.blocked
    }

    /// The data to be written is consistent.
    pub closed spec fn well_formed(&self) -> bool {
        self.writing matches Some(chunks) ==> chunks.well_formed()
    }

    /// Nothing to be written.
    pub fn new() -> (send: Self)
        ensures
            send.well_formed(),
            send.writing() is None,
            !send.blocked(),
    {
        SendStream { writing: None, blocked: false }
    }

    /// Whether there is data to be written.
    pub fn is_writing(&self) -> (writing: bool)
        ensures
            writing == (self.writing() is Some),
    {
        self.writing.is_some()
    }

    /// Whether a write was begun that is not over.
    pub fn is_blocked(&self) -> (blocked: bool)
        ensures
            blocked == self.blocked(),
    {
        self.blocked
    }

    /// Give data to be written, once what was given before is written.
    pub fn send_data(&mut self, data: Chunks) -> (answer: Result<(), StreamErrorIncoming>)
        requires
            old(self).well_formed(),
            data.well_formed(),
        ensures
            final(self).well_formed(),
            final(self).blocked() == old(self).blocked(),
            if old(self).writing() is Some {
                &&& answer matches Err(StreamErrorIncoming::ConnectionErrorIncoming {
                    connection_error: ConnectionErrorIncoming::InternalError(text),
                })
                &&& text@ == "internal error in the http stack"@
                &&& final(self).writing() == old(self).writing()
            } else {
                &&& answer == Ok::<(), StreamErrorIncoming>(())
                &&& final(self).writing() == Some(data@.chunks())
            },
    {
        if self.writing.is_some() {
            return Err(
                StreamErrorIncoming::ConnectionErrorIncoming {
                    connection_error: ConnectionErrorIncoming::InternalError(
                        String::from_str("internal error in the http stack"),
                    ),
                },
            );
        }
        self.writing = Some(data);
        Ok(())
    }

    /// Write what was given. Carry out the sends that come back, in their order.
    pub fn poll_ready(&mut self, stream: &mut Stream, cx: &Context<'_>) -> (answer: (
        Poll<Result<(), StreamErrorIncoming>>,
        Vec<StreamSend>,
    ))
        requires
            old(self).well_formed(),
            old(stream).well_formed(),
            old(self).writing() matches Some(data) && data.len() > 0 ==> (
            old(stream)@.write_gate() matches WriteGate::Lost(error) ==> convertible(error)),
        ensures
            final(self).well_formed(),
            final(stream).well_formed(),
            final(self).blocked() == answer.0 is Pending,
            ({
                let data = match old(self).writing() {
                    Some(data) => data,
                    None => Seq::empty(),
                };
                if data.len() == 0 || old(stream)@.accepts_data() {
                    &&& answer.0 == Poll::<Result<(), StreamErrorIncoming>>::Ready(Ok(()))
                    &&& final(self).writing() is None
                    &&& sent_plainly(answer.1@, data)
                    &&& final(stream)@ == (StreamView {
                        write_pool: if old(stream)@.write_pool > data.len() {
                            (old(stream)@.write_pool - data.len()) as nat
                        } else if data.len() == 0 {
                            old(stream)@.write_pool
                        } else {
                            0
                        },
                        ..old(stream)@
                    })
                } else {
                    &&& answer.0 == refused_send::<()>(old(stream)@)
                    &&& final(self).writing() == old(self).writing()
                    &&& answer.1@.len() == 0
                    &&& waited_for_start(
                        old(stream)@,
                        *cx,
                        old(stream)@.write_gate() == WriteGate::Starting,
                        final(stream)@,
                    )
                }
            }),
    {
        let mut sends: Vec<StreamSend> = Vec::new();
        let mut data: Chunks = match self.writing.take() {
            Some(data) => data,
            None => {
                self.blocked = false;
                return (Poll::Ready(Ok(())), sends);
            },
        };
        let ghost all = data@.chunks();
        proof {
            data.well_formed_view();
            reading_a_chunk_leaves_the_others(data@.pieces, data@.read as int);
        }
        assert(all.skip(0) =~= all);
        while data.remaining() > 0
            invariant
                data.well_formed(),
                stream.well_formed(),
                self.writing is None,
                old(self).writing() == Some(all),
                all.len() > 0 ==> (old(stream)@.write_gate() matches WriteGate::Lost(error)
                    ==> convertible(error)),
                sends@.len() <= all.len(),
                data@.chunks() == all.skip(sends@.len() as int),
                sent_plainly(sends@, all.take(sends@.len() as int)),
                sends@.len() > 0 ==> old(stream)@.accepts_data(),
                stream@ == (StreamView {
                    write_pool: if old(stream)@.write_pool > sends@.len() {
                        (old(stream)@.write_pool - sends@.len()) as nat
                    } else if sends@.len() == 0 {
                        old(stream)@.write_pool
                    } else {
                        0
                    },
                    ..old(stream)@
                }),
            decreases data@.unread().len(),
        {
            let ghost before = data@;
            let ghost done = sends@.len() as int;
            proof {
                data.well_formed_view();
                chunk_is_prefix_of_unread(before.pieces, before.read as int);
                reading_a_chunk_leaves_the_others(before.pieces, before.read as int);
            }
            let (result, send) = stream.poll_write(cx, data.chunk(), false);
            match result {
                Poll::Ready(Ok(count)) => {
                    data.advance(count);
                    if let Some(send) = send {
                        sends.push(send);
                    }
                    proof {
                        assert(before.chunks()[0] == all[done]);
                        assert(data@.chunks() =~= all.skip(done + 1));
                        assert(all.take(done + 1) =~= all.take(done).push(all[done]));
                    }
                },
                Poll::Ready(Err(error)) => {
                    self.writing = Some(data);
                    self.blocked = false;
                    return (Poll::Ready(Err(convert_write_error_to_stream_error(error))), sends);
                },
                Poll::Pending => {
                    self.writing = Some(data);
                    self.blocked = true;
                    return (Poll::Pending, sends);
                },
            }
        }
        proof {
            data.well_formed_view();
            reading_a_chunk_leaves_the_others(data@.pieces, data@.read as int);
            assert(all.skip(sends@.len() as int).len() == 0);
            assert(all.take(sends@.len() as int) =~= all);
        }
        self.blocked = false;
        (Poll::Ready(Ok(())), sends)
    }

    /// End the stream once all data is delivered, and wait for that. Carry out the shutdown that
    /// comes back.
    pub fn poll_finish(&mut self, stream: &mut Stream, cx: &Context<'_>) -> (answer: (
        Poll<Result<(), StreamErrorIncoming>>,
        Option<StreamShutdown>,
    ))
        requires
            !old(self).blocked(),
            old(stream).well_formed(),
            old(stream)@.write_gate() matches WriteGate::Lost(error) ==> convertible(error),
        ensures
            *final(self) == *old(self),
            final(stream).well_formed(),
            write_shut_down(
                old(stream)@,
                *cx,
                StreamShutdown::graceful(),
                (shut_down_answer(old(stream)@), answer.1),
                final(stream)@,
            ),
            answer.0 == match shut_down_answer(old(stream)@) {
                Poll::Ready(Ok(())) => Poll::<Result<(), StreamErrorIncoming>>::Ready(Ok(())),
                Poll::Ready(Err(error)) => Poll::Ready(Err(write_error_spec(error))),
                Poll::Pending => Poll::Pending,
            },
    {
        let (result, shutdown) = stream.poll_finish_write(cx);
        let answer = match result {
            Poll::Ready(Ok(())) => Poll::Ready(Ok(())),
            Poll::Ready(Err(error)) => Poll::Ready(Err(convert_write_error_to_stream_error(error))),
            Poll::Pending => Poll::Pending,
        };
        (answer, shutdown)
    }

    /// Reset the stream, where that can be done. Carry out the shutdown that comes back.
    pub fn reset(&mut self, stream: &mut Stream, reset_code: u64) -> (shutdown: Option<
        StreamShutdown,
    >)
        requires
            !old(self).blocked(),
            old(stream).well_formed(),
        ensures
            *final(self) == *old(self),
            final(stream).well_formed(),
            if old(stream)@.write_gate() == WriteGate::Open {
                &&& shutdown == Some(StreamShutdown::abort_send(reset_code))
                &&& final(stream)@ == (StreamView {
                    send_state: StreamSendState::Shutdown,
                    ..old(stream)@
                })
            } else {
                &&& shutdown is None
                &&& final(stream)@ == old(stream)@
            },
    {
        let (_, shutdown) = stream.abort_write(reset_code);
        shutdown
    }

    /// Write `chunk`, past the framing. Returns how much was written; carry out the send that
    /// comes back.
    pub fn poll_send(&mut self, stream: &mut Stream, cx: &Context<'_>, chunk: &[u8]) -> (answer: (
        Poll<Result<usize, StreamErrorIncoming>>,
        Option<StreamSend>,
    ))
        requires
            old(self).writing() is None,
            !old(self).blocked(),
            old(stream).well_formed(),
            old(stream)@.write_gate() matches WriteGate::Lost(error) ==> convertible(error),
        ensures
            *final(self) == *old(self),
            final(stream).well_formed(),
            if old(stream)@.accepts_data() {
                &&& answer.0 == Poll::<Result<usize, StreamErrorIncoming>>::Ready(
                    Ok(chunk@.len() as usize),
                )
                &&& answer.1 matches Some(send)
                &&& send.buffer@ == (WriteBufferView { internal: chunk@, zerocopy: Seq::empty() })
                &&& !send.fin
                &&& final(stream)@ == old(stream)@.with_buffer_taken()
            } else {
                &&& answer.0 == refused_send::<usize>(old(stream)@)
                &&& answer.1 is None
                &&& waited_for_start(
                    old(stream)@,
                    *cx,
                    old(stream)@.write_gate() == WriteGate::Starting,
                    final(stream)@,
                )
            },
    {
        let (result, send) = stream.poll_write(cx, chunk, false);
        let answer = match result {
            Poll::Ready(Ok(count)) => Poll::Ready(Ok(count)),
            Poll::Ready(Err(error)) => Poll::Ready(Err(convert_write_error_to_stream_error(error))),
            Poll::Pending => Poll::Pending,
        };
        (answer, send)
    }
}

/// `sends` carry the parts of `data`, each as it is, and none of them ends the stream.
pub open spec fn sent_plainly(sends: Seq<StreamSend>, data: Seq<Seq<u8>>) -> bool {
    &&& sends.len() == data.len()
    &&& forall|i: int|
        #![trigger sends[i]]
        0 <= i < sends.len() ==> {
            &&& sends[i].buffer@ == (WriteBufferView { internal: data[i], zerocopy: Seq::empty() })
            &&& !sends[i].fin
        }
}

/// What HTTP/3 is told where the stream cannot be written to.
pub open spec fn refused_send<T>(stream: StreamView) -> Poll<Result<T, StreamErrorIncoming>> {
    match refused_write::<T>(stream) {
        Poll::Ready(Err(error)) => Poll::Ready(Err(write_error_spec(error))),
        _ => Poll::Pending,
    }
}

/// What is given to be written is what is sent: the sends carry all of its unread bytes, in order,
/// and nothing else.
pub proof fn sends_carry_the_data(sends: Seq<StreamSend>, data: ChunksView)
    requires
        data.read <= data.data().len(),
        sent_plainly(sends, data.chunks()),
    ensures
        sends.map_values(|send: StreamSend| send.buffer@.internal).flatten() == data.unread(),
        forall|i: int|
            0 <= i < sends.len() ==> (#[trigger] sends[i]).buffer@.parts() == seq![
                data.chunks()[i],
            ],
{
    assert(sends.map_values(|send: StreamSend| send.buffer@.internal) =~= data.chunks());
    chunks_make_up_unread(data.pieces, data.read as int);
}

} // verus!
