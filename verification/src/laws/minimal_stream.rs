//! What the streams of the minimal API promise.
use std::task::{Context, Poll, Waker};

use bytes::Bytes;

use vstd::prelude::*;

use crate::buffer::{bytes_data, contents_of, WriteBuffer};
use crate::laws::stream::{
    joined, reading_splits_buffers, unread_bytes, unread_bytes_are_pending, unread_bytes_of_last,
};
use crate::laws::{appended_is_listed, listed};
use crate::minimal::connection::ConnectionError;
use crate::minimal::stream::{
    ConnectionShutdown, ReadError, ReadGate, StartError, Stream, StreamEvent, StreamView,
    WriteError, WriteGate,
};
use crate::status::{Status, StatusCode};
use crate::stream::{
    finished_by, IoErrorKind, StreamRecvState, StreamSend, StreamSendState, StreamShutdown,
    StreamStart, StreamState, StreamType,
};

verus! {

/// A start that succeeded and was accepted by the peer is over, and every task that waits for it is
/// woken: whoever asks next is told of the success, data is taken at once, and on a stream that
/// goes both ways a reader waits for data, no longer for the start.
pub proof fn an_accepted_start_is_over(
    stream: &mut Stream,
    status: Status,
    reply: (StatusCode, Vec<Waker>),
    starting: &mut Stream,
    cx: &Context<'_>,
    failed_on_block: bool,
    started: (Poll<Result<(), StartError>>, Option<StreamStart>),
    writing: &mut Stream,
    data: &[u8],
    fin: bool,
    written: (Poll<Result<usize, WriteError>>, Option<StreamSend>),
    gate: ReadGate,
)
    requires
        status.ok,
        call_ensures(
            Stream::handle_event,
            (stream, StreamEvent::StartComplete { status, peer_accepted: true }),
            reply,
        ),
        *old(starting) == *final(stream),
        call_ensures(Stream::poll_start, (starting, cx, failed_on_block), started),
        *old(writing) == *final(stream),
        call_ensures(Stream::poll_write, (writing, cx, data, fin), written),
        call_ensures(Stream::read_gate, (&*final(stream),), gate),
    ensures
        reply.1@ == old(stream)@.start_waiters,
        started.0 == Poll::Ready(Ok::<(), StartError>(())),
        started.1 is None,
        written.0 == Poll::Ready(Ok::<usize, WriteError>(data@.len() as usize)),
        written.1 is Some,
        old(stream)@.stream_type == StreamType::Bidirectional ==> gate == ReadGate::Open,
{
    assert(reply.1@ =~= old(stream)@.start_waiters);
}

/// A start that waits for the peer is over once the peer accepted the stream, with the status that
/// was told before.
pub proof fn acceptance_ends_the_start(
    stream: &mut Stream,
    reply: (StatusCode, Vec<Waker>),
    starting: &mut Stream,
    cx: &Context<'_>,
    failed_on_block: bool,
    started: (Poll<Result<(), StartError>>, Option<StreamStart>),
)
    requires
        old(stream)@.start_status matches Some(status) ==> status.ok,
        call_ensures(Stream::handle_event, (stream, StreamEvent::PeerAccepted), reply),
        *old(starting) == *final(stream),
        call_ensures(Stream::poll_start, (starting, cx, failed_on_block), started),
    ensures
        reply.1@ == old(stream)@.start_waiters,
        started.0 == Poll::Ready(Ok::<(), StartError>(())),
        started.1 is None,
{
    assert(reply.1@ =~= old(stream)@.start_waiters);
}

/// A stream that this side opens is asked to start once, as it was wanted, and is then starting in
/// the directions that it has. Whoever asks has to wait.
pub proof fn a_stream_is_started_once(
    stream: &mut Stream,
    cx: &Context<'_>,
    failed_on_block: bool,
    answer: (Poll<Result<(), StartError>>, Option<StreamStart>),
)
    requires
        old(stream)@.state == StreamState::Open || old(stream)@.state == StreamState::Start,
        call_ensures(Stream::poll_start, (stream, cx, failed_on_block), answer),
    ensures
        answer.0 is Pending,
        answer.1 == if old(stream)@.state == StreamState::Open {
            Some(StreamStart { fail_blocked: failed_on_block })
        } else {
            None
        },
        ({
            let before = old(stream)@;
            let after = final(stream)@;
            let fresh = before.state == StreamState::Open;
            &&& listed(before.start_waiters, *cx, after.start_waiters)
            &&& after.state == StreamState::Start
            &&& after.send_state == if fresh {
                StreamSendState::Start
            } else {
                before.send_state
            }
            &&& after.recv_state == if fresh && before.stream_type == StreamType::Bidirectional {
                StreamRecvState::Start
            } else {
                before.recv_state
            }
            &&& after == (StreamView {
                state: after.state,
                recv_state: after.recv_state,
                send_state: after.send_state,
                start_waiters: after.start_waiters,
                ..before
            })
        }),
{
    appended_is_listed(old(stream)@.start_waiters, *cx, final(stream)@.start_waiters);
}

/// How a start ended is told to everybody who asks once it is over, and never changes by asking:
/// success, the peer's limit, the connection that went away, or the status itself.
pub proof fn the_outcome_of_a_start_is_told(
    stream: &mut Stream,
    cx: &Context<'_>,
    failed_on_block: bool,
    answer: (Poll<Result<(), StartError>>, Option<StreamStart>),
)
    requires
        old(stream)@.state == StreamState::StartComplete || old(stream)@.state
            == StreamState::ShutdownComplete,
        call_ensures(Stream::poll_start, (stream, cx, failed_on_block), answer),
    ensures
        answer.1 is None,
        final(stream)@ == old(stream)@,
        answer.0 matches Poll::Ready(outcome) && match old(stream)@.start_status {
            None => outcome is Ok,
            Some(status) => {
                &&& outcome is Ok <==> status.ok
                &&& !status.ok ==> outcome == Err::<(), StartError>(
                    if status.raw == 0x80410008 {
                        StartError::LimitReached
                    } else if status.raw == 0x80004004 || status.raw == 0x8007139f {
                        match old(stream)@.conn_error {
                            Some(error) => StartError::ConnectionLost(error),
                            None => StartError::ConnectionClosed,
                        }
                    } else {
                        StartError::Unknown(status.raw)
                    },
                )
            },
        },
{
}

/// A reset by the peer is told to whoever reads next, by its error code, and no data is handed out
/// with it.
pub proof fn a_reset_is_told(
    stream: &mut Stream,
    error_code: u64,
    reply: (StatusCode, Vec<Waker>),
    reading: &mut Stream,
    cx: &Context<'_>,
    buf: &mut [u8],
    read: (Poll<Result<usize, ReadError>>, Vec<usize>),
)
    requires
        old(stream)@.conn_error is None,
        call_ensures(
            Stream::handle_event,
            (stream, StreamEvent::PeerSendAborted { error_code }),
            reply,
        ),
        *old(reading) == *final(stream),
        call_ensures(Stream::poll_read, (reading, cx, buf), read),
    ensures
        read.0 == Poll::Ready(Err::<usize, ReadError>(ReadError::Reset(error_code))),
        final(buf)@ == old(buf)@,
        read.1@.len() == 0,
{
}

/// A reader finds the end only where the peer ended its direction, or where the stream was shut
/// down with its connection in place and no reset.
pub proof fn the_end_is_told_of_an_end(
    stream: &mut Stream,
    event: StreamEvent,
    reply: (StatusCode, Vec<Waker>),
    before: ReadGate,
    after: ReadGate,
)
    requires
        call_ensures(Stream::read_gate, (&*old(stream),), before),
        call_ensures(Stream::handle_event, (stream, event), reply),
        call_ensures(Stream::read_gate, (&*final(stream),), after),
        after == ReadGate::End,
    ensures
        before == ReadGate::End || event is PeerSendShutdown || event == (
        StreamEvent::ShutdownComplete { lost: None }),
        old(stream)@.recv_error_code is None,
        old(stream)@.conn_error is None,
{
}

/// A stream whose connection went away tells so to its readers, to its writers, and to those who
/// end it: by whom the connection was closed, and with which error code.
pub proof fn a_lost_connection_is_told(
    stream: &mut Stream,
    lost: ConnectionShutdown,
    reply: (StatusCode, Vec<Waker>),
    error: ConnectionError,
    reading: &mut Stream,
    cx: &Context<'_>,
    buf: &mut [u8],
    read: (Poll<Result<usize, ReadError>>, Vec<usize>),
    writing: &mut Stream,
    data: &[u8],
    fin: bool,
    written: (Poll<Result<usize, WriteError>>, Option<StreamSend>),
    finishing: &mut Stream,
    finished: (Poll<Result<(), WriteError>>, Option<StreamShutdown>),
)
    requires
        call_ensures(
            Stream::handle_event,
            (stream, StreamEvent::ShutdownComplete { lost: Some(lost) }),
            reply,
        ),
        !lost.by_app ==> error == ConnectionError::ShutdownByTransport(
            lost.close_status,
            lost.error_code,
        ),
        lost.by_app && lost.closed_remotely ==> error == ConnectionError::ShutdownByPeer(
            lost.error_code,
        ),
        lost.by_app && !lost.closed_remotely ==> error == ConnectionError::ShutdownByLocal,
        *old(reading) == *final(stream),
        call_ensures(Stream::poll_read, (reading, cx, buf), read),
        *old(writing) == *final(stream),
        call_ensures(Stream::poll_write, (writing, cx, data, fin), written),
        *old(finishing) == *final(stream),
        call_ensures(Stream::poll_finish_write, (finishing, cx), finished),
    ensures
        read.0 == Poll::Ready(Err::<usize, ReadError>(ReadError::ConnectionLost(error))),
        written.0 == Poll::Ready(Err::<usize, WriteError>(WriteError::ConnectionLost(error))),
        written.1 is None,
        finished.0 == Poll::Ready(Err::<(), WriteError>(WriteError::ConnectionLost(error))),
        finished.1 is None,
{
}

/// That the peer stopped reading is told to whoever writes or ends the stream next, by its error
/// code; nothing more is sent.
pub proof fn a_stop_is_told(
    stream: &mut Stream,
    error_code: u64,
    reply: (StatusCode, Vec<Waker>),
    writing: &mut Stream,
    cx: &Context<'_>,
    data: &[u8],
    fin: bool,
    written: (Poll<Result<usize, WriteError>>, Option<StreamSend>),
    finishing: &mut Stream,
    finished: (Poll<Result<(), WriteError>>, Option<StreamShutdown>),
)
    requires
        old(stream)@.conn_error is None,
        call_ensures(
            Stream::handle_event,
            (stream, StreamEvent::PeerReceiveAborted { error_code }),
            reply,
        ),
        *old(writing) == *final(stream),
        call_ensures(Stream::poll_write, (writing, cx, data, fin), written),
        *old(finishing) == *final(stream),
        call_ensures(Stream::poll_finish_write, (finishing, cx), finished),
    ensures
        written.0 == Poll::Ready(Err::<usize, WriteError>(WriteError::Stopped(error_code))),
        written.1 is None,
        finished.0 == Poll::Ready(Err::<(), WriteError>(WriteError::Stopped(error_code))),
        finished.1 is None,
{
}

/// An event changes what it tells of, and nothing else: errors are told once and stay, and a
/// direction is opened and closed only by the events that say so.
pub proof fn an_event_changes_what_it_tells(
    stream: &mut Stream,
    event: StreamEvent,
    reply: (StatusCode, Vec<Waker>),
)
    requires
        call_ensures(Stream::handle_event, (stream, event), reply),
    ensures
        ({
            let before = old(stream)@;
            let after = final(stream)@;
            let accepted = event is PeerAccepted || (
            event matches StreamEvent::StartComplete { status, peer_accepted } && status.ok
                && peer_accepted);
            let both_ways = before.stream_type == StreamType::Bidirectional;
            &&& after.stream_type == before.stream_type
            &&& match event {
                StreamEvent::StartComplete { status, .. } => after.start_status == Some(status),
                _ => after.start_status == before.start_status,
            }
            &&& after.write_pool == before.write_pool + if event is SendComplete {
                1nat
            } else {
                0nat
            }
            &&& match event {
                StreamEvent::PeerSendAborted { error_code } => after.recv_error_code == Some(
                    error_code,
                ),
                _ => after.recv_error_code == before.recv_error_code,
            }
            &&& match event {
                StreamEvent::PeerReceiveAborted { error_code } => after.send_error_code == Some(
                    error_code,
                ),
                _ => after.send_error_code == before.send_error_code,
            }
            &&& !(event matches StreamEvent::ShutdownComplete { lost: Some(_) })
                ==> after.conn_error == before.conn_error
            &&& after.state == if accepted {
                StreamState::StartComplete
            } else if event is ShutdownComplete {
                StreamState::ShutdownComplete
            } else {
                before.state
            }
            &&& after.recv_state == if accepted && both_ways {
                StreamRecvState::StartComplete
            } else if event is PeerSendShutdown || event is PeerSendAborted || event
                is ShutdownComplete {
                StreamRecvState::ShutdownComplete
            } else {
                before.recv_state
            }
            &&& after.send_state == if accepted {
                StreamSendState::StartComplete
            } else if event is PeerReceiveAborted || event is SendShutdownComplete || event
                is ShutdownComplete {
                StreamSendState::ShutdownComplete
            } else {
                before.send_state
            }
            &&& !(event is Receive) ==> after.recv_buffers == before.recv_buffers
        }),
        reply.0 == if event is Receive {
            StatusCode::Pending
        } else {
            StatusCode::Success
        },
{
}

/// Those who wait are woken by what they wait for, all of them and nobody else; who is not woken
/// goes on waiting.
pub proof fn those_who_wait_are_woken(
    stream: &mut Stream,
    event: StreamEvent,
    reply: (StatusCode, Vec<Waker>),
)
    requires
        call_ensures(Stream::handle_event, (stream, event), reply),
    ensures
        ({
            let before = old(stream)@;
            let after = final(stream)@;
            let start = match event {
                StreamEvent::StartComplete { status, peer_accepted } => peer_accepted
                    || !status.ok,
                StreamEvent::PeerAccepted | StreamEvent::ShutdownComplete { .. } => true,
                _ => false,
            };
            let data = event is Receive || event is PeerSendShutdown || event is PeerSendAborted
                || event is ShutdownComplete;
            let end = event is PeerReceiveAborted || event is SendShutdownComplete;
            &&& start ==> after.start_waiters.len() == 0
            &&& !start ==> after.start_waiters == before.start_waiters
            &&& data ==> after.read_waiters.len() == 0
            &&& !data ==> after.read_waiters == before.read_waiters
            &&& end ==> after.write_shutdown_waiters.len() == 0
            &&& !end ==> after.write_shutdown_waiters == before.write_shutdown_waiters
            &&& start && data ==> reply.1@ == before.start_waiters + before.read_waiters
            &&& start && !data ==> reply.1@ == before.start_waiters
            &&& !start && data ==> reply.1@ == before.read_waiters
            &&& end ==> reply.1@ == before.write_shutdown_waiters
            &&& !start && !data && !end ==> reply.1@.len() == 0
        }),
{
}

/// Data that arrives is there to be read, whole and after all that arrived before it.
pub proof fn what_arrives_is_there_to_read(
    stream: &mut Stream,
    buffers: Vec<Vec<u8>>,
    fin: bool,
    reply: (StatusCode, Vec<Waker>),
)
    requires
        call_ensures(
            Stream::handle_event,
            (stream, StreamEvent::Receive { buffers, fin }),
            reply,
        ),
    ensures
        ({
            let before = old(stream)@.recv_buffers;
            let after = final(stream)@.recv_buffers;
            let arrived = buffers@.map_values(|piece: Vec<u8>| piece@).flatten();
            &&& after.len() == before.len() + 1
            &&& after.drop_last() == before
            &&& after.last().pieces.flatten() == arrived
            &&& after.last().read == 0
            &&& after.last().fin == fin
            &&& unread_bytes(after) == unread_bytes(before) + arrived
        }),
{
    let before = old(stream)@.recv_buffers;
    let after = final(stream)@.recv_buffers;
    unread_bytes_of_last(before, after.last());
    assert(after =~= before.push(after.last()));
    assert(after.drop_last() =~= before);
    assert(after.last().pieces =~= buffers@.map_values(|piece: Vec<u8>| piece@));
    assert(after.last().pieces.flatten().skip(0) =~= after.last().pieces.flatten());
}

/// Reading hands out the bytes that arrived, in order and from where the last read stopped: as
/// many as there are and as there is room for, none twice and none passed over. The lengths that
/// come back are those of the buffers whose bytes were all read, and the other buffers stay.
pub proof fn reading_takes_the_next_bytes(
    stream: &mut Stream,
    cx: &Context<'_>,
    buf: &mut [u8],
    read: (Poll<Result<usize, ReadError>>, Vec<usize>),
)
    requires
        old(stream).well_formed(),
        old(stream)@.recv_state == StreamRecvState::StartComplete,
        call_ensures(Stream::poll_read, (stream, cx, buf), read),
    ensures
        ({
            let before = old(stream)@;
            let after = final(stream)@;
            let unread = unread_bytes(before.recv_buffers);
            let room = old(buf)@.len();
            let count = if unread.len() < room {
                unread.len()
            } else {
                room
            };
            let ended = before.recv_buffers.len() > 0 && before.recv_buffers.last().fin;
            let done = read.1@.len();
            &&& final(buf)@ == unread.take(count as int) + old(buf)@.skip(count as int)
            &&& unread_bytes(after.recv_buffers) == unread.skip(count as int)
            &&& count == 0 && room > 0 && !ended ==> {
                &&& read.0 == Poll::<Result<usize, ReadError>>::Pending
                &&& listed(before.read_waiters, *cx, after.read_waiters)
            }
            &&& count > 0 || room == 0 || ended ==> {
                &&& read.0 == Poll::Ready(Ok::<usize, ReadError>(count as usize))
                &&& after.read_waiters == before.read_waiters
            }
            &&& done + after.recv_buffers.len() == before.recv_buffers.len()
            &&& forall|i: int|
                0 <= i < done ==> #[trigger] read.1@[i]
                    == before.recv_buffers[i].pieces.flatten().len() as usize
            &&& forall|i: int|
                0 <= i < after.recv_buffers.len() ==> {
                    &&& (#[trigger] after.recv_buffers[i]).pieces == before.recv_buffers[done
                        + i].pieces
                    &&& after.recv_buffers[i].fin == before.recv_buffers[done + i].fin
                }
            &&& after == (StreamView {
                recv_buffers: after.recv_buffers,
                read_waiters: after.read_waiters,
                ..before
            })
        }),
{
    let before = old(stream)@;
    let after = final(stream)@;
    let room = old(buf)@.len();
    let unread = unread_bytes(before.recv_buffers);
    unread_bytes_are_pending(before.recv_buffers);
    unread_bytes_are_pending(after.recv_buffers);
    reading_splits_buffers(before.recv_buffers, room);
    let finished = finished_by(before.recv_buffers, room);
    let count = if unread.len() < room {
        unread.len()
    } else {
        room
    };
    assert(unread_bytes(after.recv_buffers) =~= unread.skip(count as int));
    assert(read.1@.len() == finished.len());
    assert forall|i: int| 0 <= i < read.1@.len() implies #[trigger] read.1@[i]
        == before.recv_buffers[i].pieces.flatten().len() as usize by {
        assert(finished[i].pieces == before.recv_buffers[i].pieces);
    }
    if count == 0 && room > 0 {
        if before.recv_buffers.len() > 0 {
            assert(finished.last().fin == before.recv_buffers.last().fin);
        }
        if read.0 is Pending {
            appended_is_listed(before.read_waiters, *cx, after.read_waiters);
        }
    }
}

/// A reader that data cannot be handed to is told why, and only one that comes before the stream
/// is started has to wait; nothing is read.
pub proof fn readers_are_told_why(
    stream: &mut Stream,
    cx: &Context<'_>,
    buf: &mut [u8],
    read: (Poll<Result<usize, ReadError>>, Vec<usize>),
)
    requires
        old(stream)@.recv_state != StreamRecvState::StartComplete,
        call_ensures(Stream::poll_read, (stream, cx, buf), read),
    ensures
        final(buf)@ == old(buf)@,
        read.1@.len() == 0,
        ({
            let before = old(stream)@;
            let after = final(stream)@;
            match before.recv_state {
                StreamRecvState::Start => {
                    &&& read.0 is Pending
                    &&& listed(before.start_waiters, *cx, after.start_waiters)
                    &&& after == (StreamView { start_waiters: after.start_waiters, ..before })
                },
                StreamRecvState::Closed => {
                    &&& read.0 == Poll::Ready(Err::<usize, ReadError>(ReadError::Closed))
                    &&& after == before
                },
                _ => {
                    &&& before.conn_error matches Some(error) ==> read.0 == Poll::Ready(
                        Err::<usize, ReadError>(ReadError::ConnectionLost(error)),
                    )
                    &&& before.conn_error is None ==> (before.recv_error_code matches Some(code)
                        ==> read.0 == Poll::Ready(Err::<usize, ReadError>(ReadError::Reset(code))))
                    &&& before.conn_error is None && before.recv_error_code is None ==> read.0
                        == Poll::Ready(Ok::<usize, ReadError>(0))
                    &&& after == before
                },
            }
        }),
{
    if old(stream)@.recv_state == StreamRecvState::Start {
        appended_is_listed(old(stream)@.start_waiters, *cx, final(stream)@.start_waiters);
    }
}

/// `before` took data: a blank buffer was used up, if one was kept.
pub open spec fn took_data(before: StreamView, after: StreamView) -> bool {
    &&& before.write_pool == 0 ==> after.write_pool == 0
    &&& before.write_pool > 0 ==> after.write_pool == before.write_pool - 1
    &&& after == (StreamView { write_pool: after.write_pool, ..before })
}

/// Data that is written is taken whole wherever a stream is started and not shut down, and nowhere
/// else; what MsQuic is handed is exactly that data, and that the stream ends with it where that
/// was said.
pub proof fn what_is_written_is_sent(
    stream: &mut Stream,
    cx: &Context<'_>,
    data: &[u8],
    fin: bool,
    written: (Poll<Result<usize, WriteError>>, Option<StreamSend>),
    send: StreamSend,
    parts: Vec<&[u8]>,
)
    requires
        call_ensures(Stream::poll_write, (stream, cx, data, fin), written),
        written.1 == Some(send),
        call_ensures(WriteBuffer::get_buffers, (&send.buffer,), parts),
    ensures
        old(stream)@.send_state == StreamSendState::StartComplete,
        written.0 == Poll::Ready(Ok::<usize, WriteError>(data@.len() as usize)),
        joined(parts@) == data@,
        send.fin == fin,
        took_data(old(stream)@, final(stream)@),
{
    seq![data@].lemma_flatten_one_element();
}

/// Data that is written without copying is taken and sent just as copied data is.
pub proof fn shared_data_is_sent(
    stream: &mut Stream,
    cx: &Context<'_>,
    data: &Bytes,
    fin: bool,
    written: (Poll<Result<usize, WriteError>>, Option<StreamSend>),
    send: StreamSend,
    parts: Vec<&[u8]>,
)
    requires
        call_ensures(Stream::zerocopy_write, (stream, cx, data, fin), written),
        written.1 == Some(send),
        call_ensures(WriteBuffer::get_buffers, (&send.buffer,), parts),
    ensures
        old(stream)@.send_state == StreamSendState::StartComplete,
        written.0 == Poll::Ready(Ok::<usize, WriteError>(bytes_data(*data).len() as usize)),
        joined(parts@) == bytes_data(*data),
        send.fin == fin,
        took_data(old(stream)@, final(stream)@),
{
    seq![bytes_data(*data)].lemma_flatten_one_element();
}

/// Buffers that are written together are taken and sent one after the other, all of them.
pub proof fn shared_buffers_are_sent(
    stream: &mut Stream,
    cx: &Context<'_>,
    data: &[Bytes],
    fin: bool,
    written: (Poll<Result<usize, WriteError>>, Option<StreamSend>),
    send: StreamSend,
    parts: Vec<&[u8]>,
)
    requires
        call_ensures(Stream::zerocopy_write_vectored, (stream, cx, data, fin), written),
        written.1 == Some(send),
        call_ensures(WriteBuffer::get_buffers, (&send.buffer,), parts),
    ensures
        old(stream)@.send_state == StreamSendState::StartComplete,
        joined(parts@) == data@.map_values(|chunk: Bytes| bytes_data(chunk)).flatten(),
        written.0 == Poll::Ready(Ok::<usize, WriteError>(joined(parts@).len() as usize)),
        send.fin == fin,
        took_data(old(stream)@, final(stream)@),
{
    let contents = data@.map_values(|chunk: Bytes| bytes_data(chunk));
    assert(contents =~= contents_of(data@));
    if data@.len() == 0 {
        let nothing: Seq<u8> = Seq::empty();
        seq![nothing].lemma_flatten_one_element();
        assert(contents =~= Seq::empty());
        assert(contents.flatten() =~= nothing);
    }
}

/// A writer is refused only where the stream is not started or is shut down, and is told why; one
/// that comes before the stream is started has to wait. Nothing is sent. The ways to write agree
/// in that.
pub proof fn writers_are_told_why(
    stream: &mut Stream,
    cx: &Context<'_>,
    data: &[u8],
    fin: bool,
    written: (Poll<Result<usize, WriteError>>, Option<StreamSend>),
    sharing: &mut Stream,
    chunk: &Bytes,
    chunk_written: (Poll<Result<usize, WriteError>>, Option<StreamSend>),
    listing: &mut Stream,
    chunks: &[Bytes],
    chunks_written: (Poll<Result<usize, WriteError>>, Option<StreamSend>),
)
    requires
        call_ensures(Stream::poll_write, (stream, cx, data, fin), written),
        *old(sharing) == *old(stream),
        call_ensures(Stream::zerocopy_write, (sharing, cx, chunk, fin), chunk_written),
        *old(listing) == *old(stream),
        call_ensures(Stream::zerocopy_write_vectored, (listing, cx, chunks, fin), chunks_written),
    ensures
        ({
            let before = old(stream)@;
            let after = final(stream)@;
            let takes = before.send_state == StreamSendState::StartComplete;
            &&& written.1 is Some <==> takes
            &&& chunk_written.1 is Some <==> takes
            &&& chunks_written.1 is Some <==> takes
            &&& !takes ==> {
                &&& chunk_written.0 == written.0
                &&& chunks_written.0 == written.0
                &&& before.send_state == StreamSendState::Start ==> {
                    &&& written.0 is Pending
                    &&& listed(before.start_waiters, *cx, after.start_waiters)
                    &&& listed(before.start_waiters, *cx, final(sharing)@.start_waiters)
                    &&& listed(before.start_waiters, *cx, final(listing)@.start_waiters)
                    &&& after == (StreamView { start_waiters: after.start_waiters, ..before })
                    &&& final(sharing)@ == (StreamView {
                        start_waiters: final(sharing)@.start_waiters,
                        ..before
                    })
                    &&& final(listing)@ == (StreamView {
                        start_waiters: final(listing)@.start_waiters,
                        ..before
                    })
                }
                &&& before.send_state != StreamSendState::Start ==> {
                    &&& written.0 matches Poll::Ready(Err(error))
                    &&& error == match before.send_state {
                        StreamSendState::Closed => WriteError::Closed,
                        StreamSendState::ShutdownComplete => match (
                            before.conn_error,
                            before.send_error_code,
                        ) {
                            (Some(error), _) => WriteError::ConnectionLost(error),
                            (None, Some(code)) => WriteError::Stopped(code),
                            (None, None) => WriteError::Finished,
                        },
                        _ => WriteError::Finished,
                    }
                    &&& after == before
                    &&& final(sharing)@ == before
                    &&& final(listing)@ == before
                }
            }
        }),
{
    if old(stream)@.send_state == StreamSendState::Start {
        appended_is_listed(old(stream)@.start_waiters, *cx, final(stream)@.start_waiters);
        appended_is_listed(old(stream)@.start_waiters, *cx, final(sharing)@.start_waiters);
        appended_is_listed(old(stream)@.start_waiters, *cx, final(listing)@.start_waiters);
    }
}

/// `answer` is that of a stream whose sending direction is to be shut down in the way of
/// `shutdown`: it is asked for once, by the first who does so on a started stream, and all wait
/// until it is done.
pub open spec fn ended_once(
    before: StreamView,
    cx: Context<'_>,
    shutdown: StreamShutdown,
    answer: (Poll<Result<(), WriteError>>, Option<StreamShutdown>),
    after: StreamView,
) -> bool {
    match before.send_state {
        StreamSendState::Start => {
            &&& answer.0 is Pending
            &&& answer.1 is None
            &&& listed(before.start_waiters, cx, after.start_waiters)
            &&& after == (StreamView { start_waiters: after.start_waiters, ..before })
        },
        StreamSendState::StartComplete | StreamSendState::Shutdown => {
            &&& answer.0 is Pending
            &&& answer.1 == if before.send_state == StreamSendState::StartComplete {
                Some(shutdown)
            } else {
                None
            }
            &&& listed(before.write_shutdown_waiters, cx, after.write_shutdown_waiters)
            &&& after.send_state == StreamSendState::Shutdown
            &&& after == (StreamView {
                send_state: after.send_state,
                write_shutdown_waiters: after.write_shutdown_waiters,
                ..before
            })
        },
        StreamSendState::Closed => {
            &&& answer.0 == Poll::Ready(Err::<(), WriteError>(WriteError::Closed))
            &&& answer.1 is None
            &&& after == before
        },
        StreamSendState::ShutdownComplete => {
            &&& answer.0 == Poll::Ready(
                match (before.conn_error, before.send_error_code) {
                    (Some(error), _) => Err::<(), WriteError>(WriteError::ConnectionLost(error)),
                    (None, Some(code)) => Err(WriteError::Stopped(code)),
                    (None, None) => Ok(()),
                },
            )
            &&& answer.1 is None
            &&& after == before
        },
    }
}

/// The sending direction is ended in the way that was asked for: gracefully, so that all data that
/// was written is delivered, or by a reset with the given error code. Nothing is asked of the
/// other direction.
pub proof fn the_sending_direction_is_ended_once(
    stream: &mut Stream,
    cx: &Context<'_>,
    finished: (Poll<Result<(), WriteError>>, Option<StreamShutdown>),
    aborting: &mut Stream,
    error_code: u64,
    aborted: (Poll<Result<(), WriteError>>, Option<StreamShutdown>),
)
    requires
        call_ensures(Stream::poll_finish_write, (stream, cx), finished),
        *old(aborting) == *old(stream),
        call_ensures(Stream::poll_abort_write, (aborting, cx, error_code), aborted),
    ensures
        ended_once(
            old(stream)@,
            *cx,
            StreamShutdown {
                graceful: true,
                abort_send: false,
                abort_receive: false,
                immediate: false,
                error_code: 0,
            },
            finished,
            final(stream)@,
        ),
        ended_once(
            old(stream)@,
            *cx,
            StreamShutdown {
                graceful: false,
                abort_send: true,
                abort_receive: false,
                immediate: false,
                error_code,
            },
            aborted,
            final(aborting)@,
        ),
{
    let before = old(stream)@;
    match before.send_state {
        StreamSendState::Start => {
            appended_is_listed(before.start_waiters, *cx, final(stream)@.start_waiters);
            appended_is_listed(before.start_waiters, *cx, final(aborting)@.start_waiters);
        },
        StreamSendState::StartComplete | StreamSendState::Shutdown => {
            appended_is_listed(
                before.write_shutdown_waiters,
                *cx,
                final(stream)@.write_shutdown_waiters,
            );
            appended_is_listed(
                before.write_shutdown_waiters,
                *cx,
                final(aborting)@.write_shutdown_waiters,
            );
        },
        _ => {},
    }
}

/// The peer is asked to stop sending, with the given error code, on a stream that is started and
/// whose receiving direction is not shut down; it is asked once, and those who wait for data are
/// woken.
pub proof fn the_peer_is_asked_to_stop_once(
    stream: &mut Stream,
    cx: &Context<'_>,
    error_code: u64,
    polled: (Poll<Result<(), ReadError>>, Option<StreamShutdown>, Vec<Waker>),
)
    requires
        call_ensures(Stream::poll_abort_read, (stream, cx, error_code), polled),
    ensures
        ({
            let before = old(stream)@;
            let after = final(stream)@;
            let shutdown = StreamShutdown {
                graceful: false,
                abort_send: false,
                abort_receive: true,
                immediate: false,
                error_code,
            };
            if before.recv_state == StreamRecvState::StartComplete {
                &&& polled.0 == Poll::Ready(Ok::<(), ReadError>(()))
                &&& polled.1 == Some(shutdown)
                &&& polled.2@ == before.read_waiters
                &&& after.recv_state == StreamRecvState::ShutdownComplete
                &&& after.read_waiters.len() == 0
                &&& after == (StreamView {
                    recv_state: after.recv_state,
                    read_waiters: after.read_waiters,
                    ..before
                })
            } else {
                &&& polled.1 is None
                &&& polled.2@.len() == 0
                &&& match before.recv_state {
                    StreamRecvState::Start => {
                        &&& polled.0 is Pending
                        &&& listed(before.start_waiters, *cx, after.start_waiters)
                        &&& after == (StreamView { start_waiters: after.start_waiters, ..before })
                    },
                    StreamRecvState::Closed => {
                        &&& polled.0 == Poll::Ready(Err::<(), ReadError>(ReadError::Closed))
                        &&& after == before
                    },
                    _ => {
                        &&& polled.0 == Poll::Ready(
                            match (before.conn_error, before.recv_error_code) {
                                (Some(error), _) => Err::<(), ReadError>(
                                    ReadError::ConnectionLost(error),
                                ),
                                (None, Some(code)) => Err(ReadError::Reset(code)),
                                (None, None) => Ok(()),
                            },
                        )
                        &&& after == before
                    },
                }
            }
        }),
{
    if old(stream)@.recv_state == StreamRecvState::Start {
        appended_is_listed(old(stream)@.start_waiters, *cx, final(stream)@.start_waiters);
    }
}

/// A stream that is dropped before it is shut down is given up in both directions at once; what was
/// received and not read is counted as done with, each buffer by its whole length.
pub proof fn a_dropped_stream_is_given_up(
    stream: &mut Stream,
    shutdown: Option<StreamShutdown>,
    shut_down: bool,
    lengths: Vec<usize>,
)
    requires
        call_ensures(Stream::close, (&*old(stream),), shutdown),
        call_ensures(Stream::is_shut_down, (&*old(stream),), shut_down),
        call_ensures(Stream::drop_received, (stream,), lengths),
    ensures
        shut_down <==> old(stream)@.state == StreamState::ShutdownComplete,
        shutdown is Some <==> !shut_down,
        shutdown matches Some(shutdown) ==> shutdown.abort_send && shutdown.abort_receive
            && shutdown.immediate && !shutdown.graceful && shutdown.error_code == 0,
        lengths@.len() == old(stream)@.recv_buffers.len(),
        forall|i: int|
            0 <= i < lengths@.len() ==> #[trigger] lengths@[i] == old(
                stream,
            )@.recv_buffers[i].pieces.flatten().len() as usize,
        final(stream)@.recv_buffers.len() == 0,
        final(stream)@ == (StreamView {
            recv_buffers: final(stream)@.recv_buffers,
            ..old(stream)@
        }),
{
}

/// A stream that this side opens can be used in neither direction before it is started; one that
/// the peer opened can be read from at once, and be written to where it goes both ways.
pub proof fn a_new_stream_is_blank(stream_type: StreamType, opened: Stream, inbound: Stream)
    requires
        call_ensures(Stream::open, (stream_type,), opened),
        call_ensures(Stream::from_handle, (stream_type,), inbound),
    ensures
        opened.well_formed(),
        inbound.well_formed(),
        opened@.stream_type == stream_type,
        opened@.state == StreamState::Open,
        opened@.recv_state == StreamRecvState::Closed,
        opened@.send_state == StreamSendState::Closed,
        nothing_happened(opened@),
        inbound@.stream_type == stream_type,
        inbound@.state == StreamState::StartComplete,
        inbound@.recv_state == StreamRecvState::StartComplete,
        inbound@.send_state == if stream_type == StreamType::Bidirectional {
            StreamSendState::StartComplete
        } else {
            StreamSendState::Closed
        },
        nothing_happened(inbound@),
{
}

/// Nothing was received, sent, waited for or gone wrong.
pub open spec fn nothing_happened(stream: StreamView) -> bool {
    &&& stream.start_status is None
    &&& stream.recv_buffers.len() == 0
    &&& stream.write_pool == 0
    &&& stream.recv_error_code is None
    &&& stream.send_error_code is None
    &&& stream.conn_error is None
    &&& stream.start_waiters.len() == 0
    &&& stream.read_waiters.len() == 0
    &&& stream.write_shutdown_waiters.len() == 0
}

/// The kind of I/O error tells apart what a reader or writer has to tell apart: that the stream
/// cannot be used, that the peer ended it, and that the connection went away.
pub proof fn io_errors_tell_what_happened(
    read: &ReadError,
    read_kind: IoErrorKind,
    write: &WriteError,
    write_kind: IoErrorKind,
)
    requires
        call_ensures(ReadError::io_kind, (read,), read_kind),
        call_ensures(WriteError::io_kind, (write,), write_kind),
    ensures
        read_kind == IoErrorKind::ConnectionReset <==> *read is Reset,
        read_kind == IoErrorKind::NotConnected <==> *read == ReadError::Closed || *read
            == ReadError::ConnectionLost(ConnectionError::ConnectionClosed),
        write_kind == IoErrorKind::ConnectionReset <==> *write is Stopped,
        write_kind == IoErrorKind::NotConnected <==> *write == WriteError::Closed || *write
            == WriteError::Finished || *write == WriteError::ConnectionLost(
            ConnectionError::ConnectionClosed,
        ),
{
}

/// What a reader finds is what the receiving direction is in, and what a writer finds is what the
/// sending direction is in; once a direction is shut down, a lost connection counts before an
/// error of the peer, and that before a regular end.
pub proof fn users_find_the_state_of_their_direction(
    stream: &Stream,
    read: ReadGate,
    write: WriteGate,
)
    requires
        call_ensures(Stream::read_gate, (stream,), read),
        call_ensures(Stream::write_gate, (stream,), write),
    ensures
        read == match stream@.recv_state {
            StreamRecvState::Closed => ReadGate::Closed,
            StreamRecvState::Start => ReadGate::Starting,
            StreamRecvState::StartComplete => ReadGate::Open,
            StreamRecvState::ShutdownComplete => if stream@.conn_error is Some {
                ReadGate::Lost(stream@.conn_error->0)
            } else if stream@.recv_error_code is Some {
                ReadGate::Reset(stream@.recv_error_code->0)
            } else {
                ReadGate::End
            },
        },
        write == match stream@.send_state {
            StreamSendState::Closed => WriteGate::Closed,
            StreamSendState::Start => WriteGate::Starting,
            StreamSendState::StartComplete => WriteGate::Open,
            StreamSendState::Shutdown => WriteGate::ShuttingDown,
            StreamSendState::ShutdownComplete => if stream@.conn_error is Some {
                WriteGate::Lost(stream@.conn_error->0)
            } else if stream@.send_error_code is Some {
                WriteGate::Stopped(stream@.send_error_code->0)
            } else {
                WriteGate::Done
            },
        },
{
}

/// What the peer sends on a stream that it opened is read as it was sent: the first data that
/// arrives is what the first read hands out.
pub proof fn what_the_peer_sends_is_read(
    stream_type: StreamType,
    fresh: Stream,
    stream: &mut Stream,
    buffers: Vec<Vec<u8>>,
    fin: bool,
    reply: (StatusCode, Vec<Waker>),
    reading: &mut Stream,
    cx: &Context<'_>,
    buf: &mut [u8],
    read: (Poll<Result<usize, ReadError>>, Vec<usize>),
)
    requires
        call_ensures(Stream::from_handle, (stream_type,), fresh),
        *old(stream) == fresh,
        call_ensures(
            Stream::handle_event,
            (stream, StreamEvent::Receive { buffers, fin }),
            reply,
        ),
        *old(reading) == *final(stream),
        call_ensures(Stream::poll_read, (reading, cx, buf), read),
    ensures
        ({
            let sent = buffers@.map_values(|piece: Vec<u8>| piece@).flatten();
            let count = if sent.len() < old(buf)@.len() {
                sent.len()
            } else {
                old(buf)@.len()
            };
            &&& count > 0 ==> read.0 == Poll::Ready(Ok::<usize, ReadError>(count as usize))
            &&& final(buf)@.take(count as int) == sent.take(count as int)
            &&& final(buf)@.skip(count as int) == old(buf)@.skip(count as int)
        }),
{
    let sent = buffers@.map_values(|piece: Vec<u8>| piece@).flatten();
    what_arrives_is_there_to_read(stream, buffers, fin, reply);
    let after = final(stream)@.recv_buffers;
    unread_bytes_are_pending(after);
    assert(old(stream)@.recv_buffers =~= Seq::empty());
    assert(unread_bytes(after) =~= sent);
    let count = if sent.len() < old(buf)@.len() {
        sent.len()
    } else {
        old(buf)@.len()
    };
    assert(final(buf)@.take(count as int) =~= sent.take(count as int));
    assert(final(buf)@.skip(count as int) =~= old(buf)@.skip(count as int));
}

/// A stream that this side opens is usable once it is started: it is asked to start, MsQuic tells
/// that it did, and what is then written is what is sent.
pub proof fn an_opened_stream_sends_what_is_written(
    stream_type: StreamType,
    fresh: Stream,
    starting: &mut Stream,
    cx: &Context<'_>,
    failed_on_block: bool,
    start: (Poll<Result<(), StartError>>, Option<StreamStart>),
    stream: &mut Stream,
    status: Status,
    reply: (StatusCode, Vec<Waker>),
    writing: &mut Stream,
    data: &[u8],
    fin: bool,
    written: (Poll<Result<usize, WriteError>>, Option<StreamSend>),
    send: StreamSend,
    parts: Vec<&[u8]>,
)
    requires
        call_ensures(Stream::open, (stream_type,), fresh),
        *old(starting) == fresh,
        call_ensures(Stream::poll_start, (starting, cx, failed_on_block), start),
        *old(stream) == *final(starting),
        status.ok,
        call_ensures(
            Stream::handle_event,
            (stream, StreamEvent::StartComplete { status, peer_accepted: true }),
            reply,
        ),
        *old(writing) == *final(stream),
        call_ensures(Stream::poll_write, (writing, cx, data, fin), written),
        written.1 matches Some(sent) ==> sent == send,
        call_ensures(WriteBuffer::get_buffers, (&send.buffer,), parts),
    ensures
        start.0 is Pending,
        start.1 == Some(StreamStart { fail_blocked: failed_on_block }),
        reply.1@.len() > 0,
        written.0 == Poll::Ready(Ok::<usize, WriteError>(data@.len() as usize)),
        written.1 is Some,
        joined(parts@) == data@,
        send.fin == fin,
{
    assert(reply.1@ =~= final(starting)@.start_waiters);
    seq![data@].lemma_flatten_one_element();
}

} // verus!
