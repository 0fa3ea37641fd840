//! What HTTP/3 is promised.
use std::task::{Context, Poll};

use bytes::Bytes;
use h3::quic::StreamId;

use vstd::prelude::*;

use crate::buffer::{bytes_data, Chunks, StreamRecvBuffer, WriteBuffer};
use crate::connection::{
    Connection, ConnectionError, ConnectionState, ConnectionView, DgramReceiveError,
    DgramSendError,
};
use crate::http3::{
    bidi_halves, convert_connection_error, convert_dgram_recv_error, convert_dgram_send_error,
    convert_read_error_to_stream_error, convert_start_error, convert_write_error_to_stream_error,
    is_convertible, opened_bidi, opened_send, poll_accept_bidi, poll_accept_recv,
    poll_incoming_datagram, send_half, sends_carry_the_data, sent_plainly, stream_id,
    stream_number, Cause, ConnectionErrorIncoming, RecvStream, SendDatagramErrorIncoming,
    SendDatagramHandler, SendStream, StreamErrorIncoming,
};
use crate::laws::connection::waits_for_the_start;
use crate::laws::stream::{ended_once, joined, took_data};
use crate::laws::{listed, registered_is_listed};
use crate::status::StatusCode;
use crate::stream::{
    ReadError, ReadStream, StartError, Stream, StreamRecvState, StreamSend, StreamSendState,
    StreamShutdown, StreamView, WriteError, WriteStream,
};

verus! {

/// HTTP/3 is told by which error code the peer closed a connection, and that it timed out where it
/// did; of everything else it is told the error itself. No error is told as another one.
pub proof fn connection_errors_are_told(
    error: ConnectionError,
    told: ConnectionErrorIncoming,
    known: bool,
)
    requires
        call_ensures(is_convertible, (&error,), known),
        call_ensures(convert_connection_error, (error,), told),
    ensures
        match error {
            ConnectionError::ShutdownByPeer(code) => {
                &&& known
                &&& told matches ConnectionErrorIncoming::ApplicationClose { error_code }
                &&& error_code == code
            },
            ConnectionError::ShutdownByTransport(status, _) => {
                let timed_out = status.code == Some(StatusCode::ConnectionTimeout) || status.code
                    == Some(StatusCode::ConnectionIdle);
                &&& known <==> status.code is Some
                &&& timed_out ==> told is Timeout
                &&& !timed_out ==> told == ConnectionErrorIncoming::Undefined(
                    Cause::Connection(error),
                )
            },
            _ => known && told == ConnectionErrorIncoming::Undefined(Cause::Connection(error)),
        },
{
}

/// A lost connection is told alike to everybody who finds it lost: to those who want a stream, who
/// read, who write, and who send or receive datagrams. The other errors are told as what they are.
pub proof fn a_lost_connection_is_told_alike(
    error: ConnectionError,
    told: ConnectionErrorIncoming,
    start: ConnectionErrorIncoming,
    read: StreamErrorIncoming,
    write: StreamErrorIncoming,
    sent: SendDatagramErrorIncoming,
    received: ConnectionErrorIncoming,
)
    requires
        call_ensures(convert_connection_error, (error,), told),
        call_ensures(convert_start_error, (StartError::ConnectionLost(error),), start),
        call_ensures(
            convert_read_error_to_stream_error,
            (ReadError::ConnectionLost(error),),
            read,
        ),
        call_ensures(
            convert_write_error_to_stream_error,
            (WriteError::ConnectionLost(error),),
            write,
        ),
        call_ensures(convert_dgram_send_error, (DgramSendError::ConnectionLost(error),), sent),
        call_ensures(
            convert_dgram_recv_error,
            (DgramReceiveError::ConnectionLost(error),),
            received,
        ),
    ensures
        start == told,
        read == (StreamErrorIncoming::ConnectionErrorIncoming { connection_error: told }),
        write == (StreamErrorIncoming::ConnectionErrorIncoming { connection_error: told }),
        sent == SendDatagramErrorIncoming::ConnectionError(told),
        received == told,
{
}

/// A reset or a stop by the peer is told with its error code; a datagram that the peer does not
/// take or that is too long is told as that; every other error that is none of the connection is
/// told as what it is.
pub proof fn other_errors_are_told(
    start: StartError,
    start_told: ConnectionErrorIncoming,
    read: ReadError,
    read_told: StreamErrorIncoming,
    write: WriteError,
    write_told: StreamErrorIncoming,
    sent: DgramSendError,
    sent_told: SendDatagramErrorIncoming,
    received: DgramReceiveError,
    received_told: ConnectionErrorIncoming,
)
    requires
        call_ensures(convert_start_error, (start,), start_told),
        call_ensures(convert_read_error_to_stream_error, (read,), read_told),
        call_ensures(convert_write_error_to_stream_error, (write,), write_told),
        call_ensures(convert_dgram_send_error, (sent,), sent_told),
        call_ensures(convert_dgram_recv_error, (received,), received_told),
    ensures
        !(start is ConnectionLost) ==> start_told == ConnectionErrorIncoming::Undefined(
            Cause::Start(start),
        ),
        read matches ReadError::Reset(code) ==> (
        read_told matches StreamErrorIncoming::StreamTerminated { error_code } && error_code
            == code),
        read == ReadError::Closed ==> read_told == StreamErrorIncoming::Unknown(Cause::Read(read)),
        write matches WriteError::Stopped(code) ==> (
        write_told matches StreamErrorIncoming::StreamTerminated { error_code } && error_code
            == code),
        write == WriteError::Closed || write == WriteError::Finished ==> write_told
            == StreamErrorIncoming::Unknown(Cause::Write(write)),
        sent == DgramSendError::Denied ==> sent_told is NotAvailable,
        sent == DgramSendError::TooBig ==> sent_told is TooLarge,
        sent == DgramSendError::ConnectionNotStarted || sent is OtherError ==> sent_told
            == SendDatagramErrorIncoming::ConnectionError(
            ConnectionErrorIncoming::Undefined(Cause::DgramSend(sent)),
        ),
        !(received is ConnectionLost) ==> received_told == ConnectionErrorIncoming::Undefined(
            Cause::DgramReceive(received),
        ),
{
}

/// The halves of a stream lead to that stream.
pub proof fn halves_lead_to_the_stream<H: Clone>(
    handle: H,
    local_open: bool,
    halves: (ReadStream<H>, WriteStream<H>),
    half: WriteStream<H>,
)
    requires
        call_ensures(bidi_halves::<H>, (handle, local_open), halves),
        call_ensures(send_half::<H>, (handle,), half),
    ensures
        cloned(handle, halves.0.0),
        halves.1.0 == handle,
        half.0 == handle,
{
}

/// A stream that was opened is handed to HTTP/3, and an error with which that failed is told as one
/// of the connection.
pub proof fn an_opened_stream_is_handed_over<S: Clone>(
    opened: Result<S, StartError>,
    bidi: Result<(ReadStream<S>, WriteStream<S>), StreamErrorIncoming>,
    send: Result<WriteStream<S>, StreamErrorIncoming>,
    error: StartError,
    told: ConnectionErrorIncoming,
)
    requires
        call_ensures(opened_bidi::<S>, (opened,), bidi),
        call_ensures(opened_send::<S>, (opened,), send),
        call_ensures(convert_start_error, (error,), told),
        opened matches Err(failed) ==> failed == error,
    ensures
        match opened {
            Ok(stream) => {
                &&& bidi matches Ok(halves)
                &&& cloned(stream, halves.0.0)
                &&& halves.1.0 == stream
                &&& send matches Ok(half)
                &&& half.0 == stream
            },
            Err(_) => {
                &&& bidi == Err::<(ReadStream<S>, WriteStream<S>), StreamErrorIncoming>(
                    StreamErrorIncoming::ConnectionErrorIncoming { connection_error: told },
                )
                &&& send == Err::<WriteStream<S>, StreamErrorIncoming>(
                    StreamErrorIncoming::ConnectionErrorIncoming { connection_error: told },
                )
            },
        },
{
}

/// HTTP/3 accepts the streams that the connection has waiting, in their order and each once; where
/// there is none it waits, and where there cannot be one it is told why.
pub proof fn streams_are_accepted_in_order<S: Clone, T, F>(
    connection: &mut Connection<S, T, F>,
    cx: &Context<'_>,
    accepted: Poll<Result<(ReadStream<S>, WriteStream<S>), ConnectionErrorIncoming>>,
    error: ConnectionError,
    told: ConnectionErrorIncoming,
)
    requires
        call_ensures(poll_accept_bidi::<S, T, F>, (connection, cx), accepted),
        call_ensures(convert_connection_error, (error,), told),
        old(connection)@.error matches Some(known) ==> known == error,
    ensures
        ({
            let before = old(connection)@;
            let after = final(connection)@;
            match before.state {
                ConnectionState::Open => {
                    &&& accepted matches Poll::Ready(Err(told))
                    &&& told == ConnectionErrorIncoming::Undefined(
                        Cause::Start(StartError::ConnectionNotStarted),
                    )
                    &&& after == before
                },
                ConnectionState::Connecting => {
                    &&& accepted is Pending
                    &&& waits_for_the_start(before, *cx, after)
                },
                ConnectionState::Connected => {
                    &&& before.inbound_streams.len() > 0 ==> {
                        &&& accepted matches Poll::Ready(Ok(halves))
                        &&& before.inbound_streams == seq![halves.1.0] + after.inbound_streams
                        &&& cloned(halves.1.0, halves.0.0)
                        &&& after == (ConnectionView {
                            inbound_streams: after.inbound_streams,
                            ..before
                        })
                    }
                    &&& before.inbound_streams.len() == 0 ==> {
                        &&& accepted is Pending
                        &&& listed(
                            before.inbound_stream_waiters,
                            *cx,
                            after.inbound_stream_waiters,
                        )
                        &&& after == (ConnectionView {
                            inbound_stream_waiters: after.inbound_stream_waiters,
                            ..before
                        })
                    }
                },
                _ => {
                    &&& before.error is Some ==> (accepted matches Poll::Ready(Err(lost)) && lost
                        == told)
                    &&& after == before
                },
            }
        }),
{
    let before = old(connection)@;
    let after = final(connection)@;
    if before.state == ConnectionState::Connecting {
        registered_is_listed(before.start_waiters, *cx, after.start_waiters);
    } else if before.state == ConnectionState::Connected {
        if before.inbound_streams.len() > 0 {
            assert(before.inbound_streams =~= seq![before.inbound_streams[0]]
                + before.inbound_streams.drop_first());
        } else {
            registered_is_listed(
                before.inbound_stream_waiters,
                *cx,
                after.inbound_stream_waiters,
            );
        }
    }
}

/// HTTP/3 accepts unidirectional streams in their order too.
pub proof fn uni_streams_are_accepted_in_order<S, T, F>(
    connection: &mut Connection<S, T, F>,
    cx: &Context<'_>,
    accepted: Poll<Result<ReadStream<S>, ConnectionErrorIncoming>>,
    error: ConnectionError,
    told: ConnectionErrorIncoming,
)
    requires
        call_ensures(poll_accept_recv::<S, T, F>, (connection, cx), accepted),
        call_ensures(convert_connection_error, (error,), told),
        old(connection)@.error matches Some(known) ==> known == error,
    ensures
        ({
            let before = old(connection)@;
            let after = final(connection)@;
            match before.state {
                ConnectionState::Open => {
                    &&& accepted matches Poll::Ready(Err(told))
                    &&& told == ConnectionErrorIncoming::Undefined(
                        Cause::Start(StartError::ConnectionNotStarted),
                    )
                    &&& after == before
                },
                ConnectionState::Connecting => {
                    &&& accepted is Pending
                    &&& waits_for_the_start(before, *cx, after)
                },
                ConnectionState::Connected => {
                    &&& before.inbound_uni_streams.len() > 0 ==> {
                        &&& accepted matches Poll::Ready(Ok(stream))
                        &&& before.inbound_uni_streams == seq![stream] + after.inbound_uni_streams
                        &&& after == (ConnectionView {
                            inbound_uni_streams: after.inbound_uni_streams,
                            ..before
                        })
                    }
                    &&& before.inbound_uni_streams.len() == 0 ==> {
                        &&& accepted is Pending
                        &&& listed(
                            before.inbound_uni_stream_waiters,
                            *cx,
                            after.inbound_uni_stream_waiters,
                        )
                        &&& after == (ConnectionView {
                            inbound_uni_stream_waiters: after.inbound_uni_stream_waiters,
                            ..before
                        })
                    }
                },
                _ => {
                    &&& before.error is Some ==> (accepted matches Poll::Ready(Err(lost)) && lost
                        == told)
                    &&& after == before
                },
            }
        }),
{
    let before = old(connection)@;
    let after = final(connection)@;
    if before.state == ConnectionState::Connecting {
        registered_is_listed(before.start_waiters, *cx, after.start_waiters);
    } else if before.state == ConnectionState::Connected {
        if before.inbound_uni_streams.len() > 0 {
            assert(before.inbound_uni_streams =~= seq![before.inbound_uni_streams[0]]
                + before.inbound_uni_streams.drop_first());
        } else {
            registered_is_listed(
                before.inbound_uni_stream_waiters,
                *cx,
                after.inbound_uni_stream_waiters,
            );
        }
    }
}

/// HTTP/3 receives the datagrams that the connection has waiting, in their order, each once and
/// whole.
pub proof fn datagrams_are_received_in_order<S, T, F>(
    connection: &mut Connection<S, T, F>,
    cx: &Context<'_>,
    received: Poll<Result<Bytes, ConnectionErrorIncoming>>,
    error: ConnectionError,
    told: ConnectionErrorIncoming,
)
    requires
        call_ensures(poll_incoming_datagram::<S, T, F>, (connection, cx), received),
        call_ensures(convert_connection_error, (error,), told),
        old(connection)@.error matches Some(known) ==> known == error,
    ensures
        ({
            let before = old(connection)@;
            let after = final(connection)@;
            match before.state {
                ConnectionState::Open => {
                    &&& received matches Poll::Ready(Err(told))
                    &&& told == ConnectionErrorIncoming::Undefined(
                        Cause::DgramReceive(DgramReceiveError::ConnectionNotStarted),
                    )
                    &&& after == before
                },
                ConnectionState::Connecting => {
                    &&& received is Pending
                    &&& waits_for_the_start(before, *cx, after)
                },
                ConnectionState::Connected => {
                    &&& before.recv_buffers.len() > 0 ==> {
                        &&& received matches Poll::Ready(Ok(datagram))
                        &&& before.recv_buffers == seq![bytes_data(datagram)] + after.recv_buffers
                        &&& after == (ConnectionView { recv_buffers: after.recv_buffers, ..before })
                    }
                    &&& before.recv_buffers.len() == 0 ==> {
                        &&& received is Pending
                        &&& listed(before.recv_waiters, *cx, after.recv_waiters)
                        &&& after == (ConnectionView { recv_waiters: after.recv_waiters, ..before })
                    }
                },
                _ => {
                    &&& before.error is Some ==> (received matches Poll::Ready(Err(lost)) && lost
                        == told)
                    &&& after == before
                },
            }
        }),
{
    let before = old(connection)@;
    let after = final(connection)@;
    if before.state == ConnectionState::Connecting {
        registered_is_listed(before.start_waiters, *cx, after.start_waiters);
    } else if before.state == ConnectionState::Connected {
        if before.recv_buffers.len() > 0 {
            assert(before.recv_buffers =~= seq![before.recv_buffers[0]]
                + before.recv_buffers.drop_first());
        } else {
            registered_is_listed(before.recv_waiters, *cx, after.recv_waiters);
        }
    }
}

/// A datagram is sent for HTTP/3 as the connection sends it, and an error is told as the error of
/// the connection is.
pub proof fn datagrams_are_sent_alike<C, S, T, F>(
    handler: &mut SendDatagramHandler<C>,
    connection: &mut Connection<S, T, F>,
    datagram: &Bytes,
    answer: Result<WriteBuffer, SendDatagramErrorIncoming>,
    plain: &mut Connection<S, T, F>,
    sent: Result<WriteBuffer, DgramSendError>,
    error: DgramSendError,
    told: SendDatagramErrorIncoming,
    conn: C,
    fresh: SendDatagramHandler<C>,
)
    requires
        call_ensures(
            SendDatagramHandler::<C>::send_datagram::<S, T, F>,
            (handler, connection, datagram),
            answer,
        ),
        *old(plain) == *old(connection),
        call_ensures(Connection::<S, T, F>::send_datagram, (plain, datagram), sent),
        sent matches Err(failed) ==> failed == error,
        call_ensures(convert_dgram_send_error, (error,), told),
        call_ensures(SendDatagramHandler::<C>::new, (conn,), fresh),
    ensures
        fresh.conn == conn,
        final(handler).conn == old(handler).conn,
        final(connection)@ == final(plain)@,
        sent matches Ok(buffer) ==> (answer matches Ok(handed) && handed@ == buffer@),
        sent is Err ==> answer == Err::<WriteBuffer, SendDatagramErrorIncoming>(told),
{
}

/// The number of a stream is the same to HTTP/3.
pub proof fn a_stream_keeps_its_number(number: u64, id: StreamId)
    requires
        call_ensures(stream_id, (number,), id),
    ensures
        stream_number(id) == number,
{
}

/// HTTP/3 receives the segments of a stream in order, each once; a segment without data that only
/// tells the end is told as the end, and all others are handed out as they arrived.
pub proof fn data_is_received_in_order(
    recv: &mut RecvStream,
    stream: &mut Stream,
    cx: &Context<'_>,
    answer: Poll<Result<Option<StreamRecvBuffer>, StreamErrorIncoming>>,
)
    requires
        old(stream)@.recv_state == StreamRecvState::StartComplete,
        !old(stream)@.end_read,
        call_ensures(RecvStream::poll_data, (recv, stream, cx), answer),
    ensures
        final(recv).reading <==> answer is Pending,
        ({
            let before = old(stream)@;
            let after = final(stream)@;
            &&& before.recv_buffers.len() == 0 ==> {
                &&& answer is Pending
                &&& listed(before.read_waiters, *cx, after.read_waiters)
                &&& after == (StreamView { read_waiters: after.read_waiters, ..before })
            }
            &&& before.recv_buffers.len() > 0 ==> {
                let first = before.recv_buffers[0];
                let only_end = first.fin && first.pieces.flatten().len() == 0;
                &&& before.recv_buffers == seq![first] + after.recv_buffers
                &&& after.end_read == first.fin
                &&& after == (StreamView {
                    recv_buffers: after.recv_buffers,
                    end_read: after.end_read,
                    ..before
                })
                &&& answer matches Poll::Ready(Ok(data))
                &&& only_end ==> data is None
                &&& !only_end ==> (data matches Some(segment) && segment@ == first)
            }
        }),
{
    let before = old(stream)@;
    if before.recv_buffers.len() > 0 {
        assert(before.recv_buffers =~= seq![before.recv_buffers[0]]
            + before.recv_buffers.drop_first());
    } else {
        registered_is_listed(before.read_waiters, *cx, final(stream)@.read_waiters);
    }
}

/// Where no data can be handed out, HTTP/3 is told what a reader of the stream is told.
pub proof fn the_end_of_data_is_told_alike(
    recv: &mut RecvStream,
    stream: &mut Stream,
    cx: &Context<'_>,
    answer: Poll<Result<Option<StreamRecvBuffer>, StreamErrorIncoming>>,
    plain: &mut Stream,
    chunk: Poll<Result<Option<StreamRecvBuffer>, ReadError>>,
    error: ReadError,
    told: StreamErrorIncoming,
    fresh: RecvStream,
)
    requires
        old(stream)@.recv_state != StreamRecvState::StartComplete || old(stream)@.end_read,
        call_ensures(RecvStream::poll_data, (recv, stream, cx), answer),
        *old(plain) == *old(stream),
        call_ensures(Stream::poll_read_chunk, (plain, cx), chunk),
        chunk matches Poll::Ready(Err(failed)) ==> failed == error,
        call_ensures(convert_read_error_to_stream_error, (error,), told),
        call_ensures(RecvStream::new, (), fresh),
    ensures
        !fresh.reading,
        final(recv).reading <==> answer is Pending,
        answer is Pending <==> chunk is Pending,
        chunk matches Poll::Ready(Ok(_)) ==> (answer matches Poll::Ready(Ok(data)) && data is None),
        chunk matches Poll::Ready(Err(_)) ==> (answer matches Poll::Ready(Err(known)) && known
            == told),
        !(answer is Pending) ==> final(stream)@ == old(stream)@,
        answer is Pending ==> {
            &&& listed(old(stream)@.start_waiters, *cx, final(stream)@.start_waiters)
            &&& final(stream)@ == (StreamView {
                start_waiters: final(stream)@.start_waiters,
                ..old(stream)@
            })
        },
{
    if old(stream)@.recv_state == StreamRecvState::Start {
        registered_is_listed(old(stream)@.start_waiters, *cx, final(stream)@.start_waiters);
    }
}

/// The peer is asked to stop sending with the given error code wherever the stream is started and
/// its receiving direction is not shut down, and nowhere else.
pub proof fn the_peer_is_asked_to_stop(
    recv: &mut RecvStream,
    stream: &mut Stream,
    error_code: u64,
    shutdown: Option<StreamShutdown>,
)
    requires
        call_ensures(RecvStream::stop_sending, (recv, stream, error_code), shutdown),
    ensures
        *final(recv) == *old(recv),
        shutdown is Some <==> old(stream)@.recv_state == StreamRecvState::StartComplete,
        shutdown matches Some(shutdown) ==> {
            &&& shutdown.abort_receive && !shutdown.abort_send && !shutdown.graceful
                && !shutdown.immediate
            &&& shutdown.error_code == error_code
            &&& final(stream)@ == (StreamView {
                recv_state: StreamRecvState::ShutdownComplete,
                ..old(stream)@
            })
        },
        shutdown is None ==> final(stream)@ == old(stream)@,
{
}

/// Data that HTTP/3 gives to be written is kept until it is written, and no other is taken
/// meanwhile; nothing is to be written at first.
pub proof fn data_is_given_once(
    send: &mut SendStream,
    data: Chunks,
    answer: Result<(), StreamErrorIncoming>,
    was_writing: bool,
    was_blocked: bool,
    is_writing: bool,
    is_blocked: bool,
    fresh: SendStream,
)
    requires
        call_ensures(SendStream::new, (), fresh),
        call_ensures(SendStream::is_writing, (&*old(send),), was_writing),
        call_ensures(SendStream::is_blocked, (&*old(send),), was_blocked),
        call_ensures(SendStream::send_data, (send, data), answer),
        call_ensures(SendStream::is_writing, (&*final(send),), is_writing),
        call_ensures(SendStream::is_blocked, (&*final(send),), is_blocked),
    ensures
        fresh.writing() is None,
        !fresh.blocked(),
        was_writing <==> old(send).writing() is Some,
        answer is Ok <==> !was_writing,
        answer matches Err(error) ==> {
            &&& error matches StreamErrorIncoming::ConnectionErrorIncoming { connection_error }
            &&& connection_error matches ConnectionErrorIncoming::InternalError(text)
            &&& text@ == "internal error in the http stack"@
            &&& final(send).writing() == old(send).writing()
        },
        answer is Ok ==> final(send).writing() == Some(data@.chunks()),
        is_writing,
        is_blocked == was_blocked,
        was_blocked == old(send).blocked(),
{
}

/// What HTTP/3 gives to be written is what is sent: on a stream that takes data all of its unread
/// bytes are sent at once, in order and nothing else, and none of the sends ends the stream. Then
/// nothing is left to be written.
pub proof fn what_is_given_is_sent(
    send: &mut SendStream,
    data: Chunks,
    given: Result<(), StreamErrorIncoming>,
    sending: &mut SendStream,
    stream: &mut Stream,
    cx: &Context<'_>,
    answer: (Poll<Result<(), StreamErrorIncoming>>, Vec<StreamSend>),
)
    requires
        data.well_formed(),
        call_ensures(SendStream::send_data, (send, data), given),
        given is Ok,
        *old(sending) == *final(send),
        old(stream)@.send_state == StreamSendState::StartComplete,
        !old(stream)@.fin_sent,
        call_ensures(SendStream::poll_ready, (sending, stream, cx), answer),
    ensures
        answer.0 == Poll::Ready(Ok::<(), StreamErrorIncoming>(())),
        answer.1@.map_values(|sent: StreamSend| sent.buffer@.internal).flatten()
            == data@.pieces.flatten().skip(data@.read as int),
        forall|i: int|
            0 <= i < answer.1@.len() ==> !(#[trigger] answer.1@[i]).fin
                && answer.1@[i].buffer@.zerocopy.len() == 0,
        final(sending).writing() is None,
        !final(sending).blocked(),
        final(stream)@ == (StreamView {
            write_pool: final(stream)@.write_pool,
            ..old(stream)@
        }),
        final(stream)@.write_pool <= old(stream)@.write_pool <= final(stream)@.write_pool
            + answer.1@.len(),
        final(stream)@.write_pool > 0 ==> old(stream)@.write_pool == final(stream)@.write_pool
            + answer.1@.len(),
{
    data.well_formed_view();
    assert(sent_plainly(answer.1@, data@.chunks()));
    sends_carry_the_data(answer.1@, data@);
    let sends = answer.1@;
    assert forall|i: int| 0 <= i < sends.len() implies !(#[trigger] sends[i]).fin
        && sends[i].buffer@.zerocopy.len() == 0 by {}
}

/// What cannot be written now is not lost: where the stream takes no data, what was given stays to
/// be written, nothing is sent, and HTTP/3 is told what a writer of the stream is told.
pub proof fn what_is_not_sent_stays(
    sending: &mut SendStream,
    stream: &mut Stream,
    cx: &Context<'_>,
    answer: (Poll<Result<(), StreamErrorIncoming>>, Vec<StreamSend>),
    plain: &mut Stream,
    data: &[u8],
    fin: bool,
    written: (Poll<Result<usize, WriteError>>, Option<StreamSend>),
    error: WriteError,
    told: StreamErrorIncoming,
)
    requires
        old(sending).writing() matches Some(parts) && parts.len() > 0,
        old(stream)@.send_state != StreamSendState::StartComplete || old(stream)@.fin_sent,
        call_ensures(SendStream::poll_ready, (sending, stream, cx), answer),
        *old(plain) == *old(stream),
        call_ensures(Stream::poll_write, (plain, cx, data, fin), written),
        written.0 matches Poll::Ready(Err(failed)) ==> failed == error,
        call_ensures(convert_write_error_to_stream_error, (error,), told),
    ensures
        final(sending).writing() == old(sending).writing(),
        final(sending).blocked() <==> answer.0 is Pending,
        answer.1@.len() == 0,
        answer.0 is Pending <==> written.0 is Pending,
        !(answer.0 is Pending) ==> {
            &&& answer.0 == Poll::Ready(Err::<(), StreamErrorIncoming>(told))
            &&& final(stream)@ == old(stream)@
        },
        answer.0 is Pending ==> {
            &&& listed(old(stream)@.start_waiters, *cx, final(stream)@.start_waiters)
            &&& final(stream)@ == (StreamView {
                start_waiters: final(stream)@.start_waiters,
                ..old(stream)@
            })
        },
{
    if old(stream)@.send_state == StreamSendState::Start {
        registered_is_listed(old(stream)@.start_waiters, *cx, final(stream)@.start_waiters);
    }
}

/// Where nothing is left to be written, HTTP/3 is told at once that all is, whatever the stream.
pub proof fn nothing_to_send_is_sent(
    sending: &mut SendStream,
    stream: &mut Stream,
    cx: &Context<'_>,
    answer: (Poll<Result<(), StreamErrorIncoming>>, Vec<StreamSend>),
)
    requires
        old(sending).writing() matches Some(parts) ==> parts.len() == 0,
        call_ensures(SendStream::poll_ready, (sending, stream, cx), answer),
    ensures
        answer.0 == Poll::Ready(Ok::<(), StreamErrorIncoming>(())),
        answer.1@.len() == 0,
        final(sending).writing() is None,
        !final(sending).blocked(),
        final(stream)@ == old(stream)@,
{
}

/// A stream is ended for HTTP/3 gracefully and once, as it is for every other writer; an error is
/// told as the error of the stream is.
pub proof fn a_stream_is_ended_once(
    sending: &mut SendStream,
    stream: &mut Stream,
    cx: &Context<'_>,
    answer: (Poll<Result<(), StreamErrorIncoming>>, Option<StreamShutdown>),
    plain: &mut Stream,
    finished: (Poll<Result<(), WriteError>>, Option<StreamShutdown>),
    error: WriteError,
    told: StreamErrorIncoming,
)
    requires
        call_ensures(SendStream::poll_finish, (sending, stream, cx), answer),
        *old(plain) == *old(stream),
        call_ensures(Stream::poll_finish_write, (plain, cx), finished),
        finished.0 matches Poll::Ready(Err(failed)) ==> failed == error,
        call_ensures(convert_write_error_to_stream_error, (error,), told),
    ensures
        *final(sending) == *old(sending),
        answer.1 == finished.1,
        ended_once(
            old(stream)@,
            *cx,
            StreamShutdown {
                graceful: true,
                abort_send: false,
                abort_receive: false,
                immediate: false,
                error_code: 0,
            },
            (finished.0, answer.1),
            final(stream)@,
        ),
        answer.0 is Pending <==> finished.0 is Pending,
        finished.0 matches Poll::Ready(Ok(())) ==> answer.0 == Poll::Ready(
            Ok::<(), StreamErrorIncoming>(()),
        ),
        finished.0 matches Poll::Ready(Err(_)) ==> answer.0 == Poll::Ready(
            Err::<(), StreamErrorIncoming>(told),
        ),
{
    let before = old(stream)@;
    match before.send_state {
        StreamSendState::Start => {
            registered_is_listed(before.start_waiters, *cx, final(stream)@.start_waiters);
        },
        StreamSendState::StartComplete | StreamSendState::Shutdown => {
            registered_is_listed(
                before.write_shutdown_waiters,
                *cx,
                final(stream)@.write_shutdown_waiters,
            );
        },
        _ => {},
    }
}

/// A stream is reset with the given error code wherever it is started and not being ended, and
/// nowhere else.
pub proof fn a_stream_is_reset_once(
    sending: &mut SendStream,
    stream: &mut Stream,
    reset_code: u64,
    shutdown: Option<StreamShutdown>,
)
    requires
        call_ensures(SendStream::reset, (sending, stream, reset_code), shutdown),
    ensures
        *final(sending) == *old(sending),
        shutdown is Some <==> old(stream)@.send_state == StreamSendState::StartComplete,
        shutdown matches Some(shutdown) ==> {
            &&& shutdown.abort_send && !shutdown.abort_receive && !shutdown.graceful
                && !shutdown.immediate
            &&& shutdown.error_code == reset_code
            &&& final(stream)@ == (StreamView {
                send_state: StreamSendState::Shutdown,
                ..old(stream)@
            })
        },
        shutdown is None ==> final(stream)@ == old(stream)@,
{
}

/// Data that is written past the framing is taken whole and sent as it is where the stream takes
/// data, without ending it; elsewhere HTTP/3 is told what a writer of the stream is told.
pub proof fn plain_data_is_sent(
    sending: &mut SendStream,
    stream: &mut Stream,
    cx: &Context<'_>,
    chunk: &[u8],
    answer: (Poll<Result<usize, StreamErrorIncoming>>, Option<StreamSend>),
    send: StreamSend,
    parts: Vec<&[u8]>,
    plain: &mut Stream,
    written: (Poll<Result<usize, WriteError>>, Option<StreamSend>),
    error: WriteError,
    told: StreamErrorIncoming,
)
    requires
        call_ensures(SendStream::poll_send, (sending, stream, cx, chunk), answer),
        answer.1 matches Some(sent) ==> sent == send,
        call_ensures(WriteBuffer::get_buffers, (&send.buffer,), parts),
        *old(plain) == *old(stream),
        call_ensures(Stream::poll_write, (plain, cx, chunk, false), written),
        written.0 matches Poll::Ready(Err(failed)) ==> failed == error,
        call_ensures(convert_write_error_to_stream_error, (error,), told),
    ensures
        *final(sending) == *old(sending),
        answer.1 is Some <==> old(stream)@.send_state == StreamSendState::StartComplete && !old(
            stream,
        )@.fin_sent,
        answer.1 is Some ==> {
            &&& answer.0 == Poll::Ready(Ok::<usize, StreamErrorIncoming>(chunk@.len() as usize))
            &&& joined(parts@) == chunk@
            &&& !send.fin
            &&& took_data(old(stream)@, false, final(stream)@)
        },
        answer.1 is None ==> {
            &&& answer.0 is Pending <==> written.0 is Pending
            &&& !(answer.0 is Pending) ==> {
                &&& answer.0 == Poll::Ready(Err::<usize, StreamErrorIncoming>(told))
                &&& final(stream)@ == old(stream)@
            }
            &&& answer.0 is Pending ==> {
                &&& listed(old(stream)@.start_waiters, *cx, final(stream)@.start_waiters)
                &&& final(stream)@ == (StreamView {
                    start_waiters: final(stream)@.start_waiters,
                    ..old(stream)@
                })
            }
        },
{
    seq![chunk@].lemma_flatten_one_element();
    if old(stream)@.send_state == StreamSendState::Start {
        registered_is_listed(old(stream)@.start_waiters, *cx, final(stream)@.start_waiters);
    }
}

} // verus!
