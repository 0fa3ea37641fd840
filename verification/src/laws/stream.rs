//! What streams promise.
use std::task::{Context, Poll, Waker};

use bytes::Bytes;

use vstd::prelude::*;

use crate::buffer::{bytes_data, contents_of, RecvBufferView, StreamRecvBuffer, WriteBuffer};
use crate::connection::ConnectionError;
use crate::laws::{listed, registered_is_listed};
use crate::status::{Status, StatusCode};
use crate::stream::{
    advanced, finished_by, left_by, pending_data, split_handle, views_of, ConnectionShutdown,
    IoErrorKind, ReadError, ReadGate, ReadStatus, ReadStream, StartError, Stream, StreamEvent,
    StreamRecvState, StreamReply, StreamSend, StreamSendState, StreamShutdown, StreamStart,
    StreamState, StreamType, StreamView, WriteError, WriteGate, WriteStatus, WriteStream,
};

verus! {

/// The bytes of `buffers` that were not read, in order.
pub open spec fn unread_bytes(buffers: Seq<RecvBufferView>) -> Seq<u8>
    decreases buffers.len(),
{
    if buffers.len() == 0 {
        Seq::empty()
    } else {
        buffers[0].pieces.flatten().skip(buffers[0].read as int) + unread_bytes(
            buffers.drop_first(),
        )
    }
}

/// The two ways to put it agree.
pub proof fn unread_bytes_are_pending(buffers: Seq<RecvBufferView>)
    ensures
        unread_bytes(buffers) == pending_data(buffers),
    decreases buffers.len(),
{
    let unread = buffers.map_values(|buffer: RecvBufferView| buffer.unread());
    if buffers.len() > 0 {
        unread_bytes_are_pending(buffers.drop_first());
        assert(unread.drop_first() =~= buffers.drop_first().map_values(
            |buffer: RecvBufferView| buffer.unread(),
        ));
        assert(unread.flatten() == unread[0] + unread.drop_first().flatten());
    }
}

/// Bytes that were added last are last of those that were not read.
pub proof fn unread_bytes_of_last(buffers: Seq<RecvBufferView>, last: RecvBufferView)
    ensures
        unread_bytes(buffers.push(last)) == unread_bytes(buffers) + last.pieces.flatten().skip(
            last.read as int,
        ),
    decreases buffers.len(),
{
    let all = buffers.push(last);
    if buffers.len() > 0 {
        unread_bytes_of_last(buffers.drop_first(), last);
        assert(all.drop_first() =~= buffers.drop_first().push(last));
        assert(unread_bytes(all) =~= unread_bytes(buffers) + last.pieces.flatten().skip(
            last.read as int,
        ));
    } else {
        assert(all.drop_first() =~= Seq::empty());
        assert(unread_bytes(all.drop_first()) =~= Seq::empty());
        assert(unread_bytes(all) =~= unread_bytes(buffers) + last.pieces.flatten().skip(
            last.read as int,
        ));
    }
}

/// Reading splits the buffers into those that are finished and those that are left.
pub proof fn reading_splits_buffers(buffers: Seq<RecvBufferView>, room: nat)
    ensures
        ({
            let finished = finished_by(buffers, room);
            let left = left_by(buffers, room);
            &&& finished.len() + left.len() == buffers.len()
            &&& forall|i: int|
                0 <= i < finished.len() ==> #[trigger] finished[i] == advanced(
                    buffers[i],
                    buffers[i].unread().len(),
                )
            &&& forall|i: int|
                0 <= i < left.len() ==> {
                    &&& (#[trigger] left[i]).offset == buffers[finished.len() + i].offset
                    &&& left[i].pieces == buffers[finished.len() + i].pieces
                    &&& left[i].fin == buffers[finished.len() + i].fin
                }
            &&& unread_bytes(buffers).len() < room ==> left.len() == 0
        }),
    decreases buffers.len(),
{
    if buffers.len() > 0 && buffers[0].unread().len() < room {
        let rest = buffers.drop_first();
        let less = (room - buffers[0].unread().len()) as nat;
        reading_splits_buffers(rest, less);
        let finished = finished_by(buffers, room);
        let left = left_by(buffers, room);
        assert forall|i: int| 0 <= i < finished.len() implies #[trigger] finished[i] == advanced(
            buffers[i],
            buffers[i].unread().len(),
        ) by {
            if i > 0 {
                assert(finished[i] == finished_by(rest, less)[i - 1]);
            }
        }
        assert forall|i: int| 0 <= i < left.len() implies {
            &&& (#[trigger] left[i]).offset == buffers[finished.len() + i].offset
            &&& left[i].pieces == buffers[finished.len() + i].pieces
            &&& left[i].fin == buffers[finished.len() + i].fin
        } by {
            assert(left[i] == left_by(rest, less)[i]);
        }
    }
}

/// A reset by the peer is told to whoever reads next, by its error code, on a stream of either
/// type and whoever opened it; and no data is handed out with it.
pub proof fn a_reset_is_told(
    stream: &mut Stream,
    error_code: u64,
    reply: StreamReply,
    reading: &mut Stream,
    cx: &Context<'_>,
    buf: &mut [u8],
    read: (Poll<Result<usize, ReadError>>, Vec<StreamRecvBuffer>),
    chunking: &mut Stream,
    chunk: Poll<Result<Option<StreamRecvBuffer>, ReadError>>,
    gate: ReadGate,
)
    requires
        old(stream)@.conn_error is None,
        call_ensures(
            Stream::handle_event,
            (stream, StreamEvent::PeerSendAborted { error_code }),
            reply,
        ),
        *old(reading) == *final(stream),
        call_ensures(Stream::poll_read, (reading, cx, buf), read),
        *old(chunking) == *final(stream),
        call_ensures(Stream::poll_read_chunk, (chunking, cx), chunk),
        call_ensures(Stream::read_gate, (&*final(stream),), gate),
    ensures
        read.0 == Poll::Ready(Err::<usize, ReadError>(ReadError::Reset(error_code))),
        final(buf)@ == old(buf)@,
        read.1@.len() == 0,
        chunk == Poll::Ready(
            Err::<Option<StreamRecvBuffer>, ReadError>(ReadError::Reset(error_code)),
        ),
        gate == ReadGate::Reset(error_code),
{
}

/// A reader finds the end only where the peer ended its direction, where the stream was shut down
/// with its connection in place and no reset, or where the end had been read before.
pub proof fn the_end_is_told_of_an_end(
    stream: &mut Stream,
    event: StreamEvent,
    reply: StreamReply,
    before: ReadGate,
    after: ReadGate,
)
    requires
        call_ensures(Stream::read_gate, (&*old(stream),), before),
        call_ensures(Stream::handle_event, (stream, event), reply),
        call_ensures(Stream::read_gate, (&*final(stream),), after),
        after == ReadGate::End,
    ensures
        before == ReadGate::End || old(stream)@.end_read || event is PeerSendShutdown || event
            == (StreamEvent::ShutdownComplete { lost: None }),
        !old(stream)@.end_read ==> old(stream)@.recv_error_code is None && old(
            stream,
        )@.conn_error is None,
{
}

/// The end of the peer's direction is told to whoever reads next, unless it was reset or lost
/// before.
pub proof fn an_end_is_told(
    stream: &mut Stream,
    reply: StreamReply,
    reading: &mut Stream,
    cx: &Context<'_>,
    buf: &mut [u8],
    read: (Poll<Result<usize, ReadError>>, Vec<StreamRecvBuffer>),
    chunking: &mut Stream,
    chunk: Poll<Result<Option<StreamRecvBuffer>, ReadError>>,
)
    requires
        call_ensures(Stream::handle_event, (stream, StreamEvent::PeerSendShutdown), reply),
        *old(reading) == *final(stream),
        call_ensures(Stream::poll_read, (reading, cx, buf), read),
        *old(chunking) == *final(stream),
        call_ensures(Stream::poll_read_chunk, (chunking, cx), chunk),
    ensures
        final(buf)@ == old(buf)@,
        match (old(stream)@.conn_error, old(stream)@.recv_error_code) {
            (Some(error), _) => {
                &&& read.0 == Poll::Ready(Err::<usize, ReadError>(ReadError::ConnectionLost(error)))
                &&& chunk == Poll::Ready(
                    Err::<Option<StreamRecvBuffer>, ReadError>(ReadError::ConnectionLost(error)),
                )
            },
            (None, Some(code)) => {
                &&& read.0 == Poll::Ready(Err::<usize, ReadError>(ReadError::Reset(code)))
                &&& chunk == Poll::Ready(
                    Err::<Option<StreamRecvBuffer>, ReadError>(ReadError::Reset(code)),
                )
            },
            (None, None) => {
                &&& read.0 == Poll::Ready(Ok::<usize, ReadError>(0))
                &&& chunk == Poll::Ready(Ok::<Option<StreamRecvBuffer>, ReadError>(None))
            },
        },
{
}

/// A stream whose connection went away tells so to its readers, to its writers, and to those who
/// end it: by whom the connection was closed, and with which error code.
pub proof fn a_lost_connection_is_told(
    stream: &mut Stream,
    lost: ConnectionShutdown,
    reply: StreamReply,
    error: ConnectionError,
    reading: &mut Stream,
    cx: &Context<'_>,
    buf: &mut [u8],
    read: (Poll<Result<usize, ReadError>>, Vec<StreamRecvBuffer>),
    writing: &mut Stream,
    data: &[u8],
    fin: bool,
    written: (Poll<Result<usize, WriteError>>, Option<StreamSend>),
    finishing: &mut Stream,
    finished: (Poll<Result<(), WriteError>>, Option<StreamShutdown>),
)
    requires
        call_ensures(
            Stream::handle_event,
            (stream, StreamEvent::ShutdownComplete { lost: Some(lost) }),
            reply,
        ),
        !lost.by_app ==> error == ConnectionError::ShutdownByTransport(
            lost.close_status,
            lost.error_code,
        ),
        lost.by_app && lost.closed_remotely ==> error == ConnectionError::ShutdownByPeer(
            lost.error_code,
        ),
        lost.by_app && !lost.closed_remotely ==> error == ConnectionError::ShutdownByLocal,
        *old(reading) == *final(stream),
        call_ensures(Stream::poll_read, (reading, cx, buf), read),
        *old(writing) == *final(stream),
        call_ensures(Stream::poll_write, (writing, cx, data, fin), written),
        *old(finishing) == *final(stream),
        call_ensures(Stream::poll_finish_write, (finishing, cx), finished),
    ensures
        read.0 == Poll::Ready(Err::<usize, ReadError>(ReadError::ConnectionLost(error))),
        written.0 == Poll::Ready(Err::<usize, WriteError>(WriteError::ConnectionLost(error))),
        written.1 is None,
        finished.0 == Poll::Ready(Err::<(), WriteError>(WriteError::ConnectionLost(error))),
        finished.1 is None,
{
}

/// That the peer stopped reading is told to whoever writes or ends the stream next, by its error
/// code; nothing more is sent.
pub proof fn a_stop_is_told(
    stream: &mut Stream,
    error_code: u64,
    reply: StreamReply,
    writing: &mut Stream,
    cx: &Context<'_>,
    data: &[u8],
    fin: bool,
    written: (Poll<Result<usize, WriteError>>, Option<StreamSend>),
    finishing: &mut Stream,
    finished: (Poll<Result<(), WriteError>>, Option<StreamShutdown>),
)
    requires
        old(stream)@.conn_error is None,
        call_ensures(
            Stream::handle_event,
            (stream, StreamEvent::PeerReceiveAborted { error_code }),
            reply,
        ),
        *old(writing) == *final(stream),
        call_ensures(Stream::poll_write, (writing, cx, data, fin), written),
        *old(finishing) == *final(stream),
        call_ensures(Stream::poll_finish_write, (finishing, cx), finished),
    ensures
        written.0 == Poll::Ready(Err::<usize, WriteError>(WriteError::Stopped(error_code))),
        written.1 is None,
        finished.0 == Poll::Ready(Err::<(), WriteError>(WriteError::Stopped(error_code))),
        finished.1 is None,
{
}

/// Once the sending direction is shut down, whoever waits for that is told that it is, unless the
/// peer stopped it or the connection went away; and nothing more can be written.
pub proof fn a_finished_direction_is_told(
    stream: &mut Stream,
    reply: StreamReply,
    writing: &mut Stream,
    cx: &Context<'_>,
    data: &[u8],
    fin: bool,
    written: (Poll<Result<usize, WriteError>>, Option<StreamSend>),
    finishing: &mut Stream,
    finished: (Poll<Result<(), WriteError>>, Option<StreamShutdown>),
)
    requires
        call_ensures(Stream::handle_event, (stream, StreamEvent::SendShutdownComplete), reply),
        *old(writing) == *final(stream),
        call_ensures(Stream::poll_write, (writing, cx, data, fin), written),
        *old(finishing) == *final(stream),
        call_ensures(Stream::poll_finish_write, (finishing, cx), finished),
    ensures
        written.1 is None,
        finished.1 is None,
        match (old(stream)@.conn_error, old(stream)@.send_error_code) {
            (Some(error), _) => {
                &&& written.0 == Poll::Ready(
                    Err::<usize, WriteError>(WriteError::ConnectionLost(error)),
                )
                &&& finished.0 == Poll::Ready(
                    Err::<(), WriteError>(WriteError::ConnectionLost(error)),
                )
            },
            (None, Some(code)) => {
                &&& written.0 == Poll::Ready(Err::<usize, WriteError>(WriteError::Stopped(code)))
                &&& finished.0 == Poll::Ready(Err::<(), WriteError>(WriteError::Stopped(code)))
            },
            (None, None) => {
                &&& written.0 == Poll::Ready(Err::<usize, WriteError>(WriteError::Finished))
                &&& finished.0 == Poll::Ready(Ok::<(), WriteError>(()))
            },
        },
{
}

/// An event changes what it tells of, and nothing else: errors are told once and stay, a direction
/// is opened and closed only by the events that say so, and what was sent, read or counted as done
/// with is not touched.
pub proof fn an_event_changes_what_it_tells(
    stream: &mut Stream,
    event: StreamEvent,
    reply: StreamReply,
)
    requires
        call_ensures(Stream::handle_event, (stream, event), reply),
    ensures
        ({
            let before = old(stream)@;
            let after = final(stream)@;
            let accepted = event is PeerAccepted || (
            event matches StreamEvent::StartComplete { status, peer_accepted, .. } && status.ok
                && peer_accepted);
            let both_ways = before.stream_type == StreamType::Bidirectional;
            &&& after.stream_type == before.stream_type
            &&& after.local_open == before.local_open
            &&& after.completed == before.completed
            &&& after.read_complete_cursor == before.read_complete_cursor
            &&& after.fin_sent == before.fin_sent
            &&& after.end_read == before.end_read
            &&& match event {
                StreamEvent::StartComplete { status, id, .. } => {
                    &&& after.start_status == Some(status)
                    &&& status.ok ==> after.id == Some(id)
                    &&& !status.ok ==> after.id == before.id
                },
                _ => after.start_status == before.start_status && after.id == before.id,
            }
            &&& after.write_pool == before.write_pool + if event is SendComplete {
                1nat
            } else {
                0nat
            }
            &&& match event {
                StreamEvent::PeerSendAborted { error_code } => after.recv_error_code == Some(
                    error_code,
                ),
                _ => after.recv_error_code == before.recv_error_code,
            }
            &&& match event {
                StreamEvent::PeerReceiveAborted { error_code } => after.send_error_code == Some(
                    error_code,
                ),
                _ => after.send_error_code == before.send_error_code,
            }
            &&& !(event matches StreamEvent::ShutdownComplete { lost: Some(_) })
                ==> after.conn_error == before.conn_error
            &&& after.state == if accepted {
                StreamState::StartComplete
            } else if event is ShutdownComplete {
                StreamState::ShutdownComplete
            } else {
                before.state
            }
            &&& after.recv_state == if accepted && both_ways {
                StreamRecvState::StartComplete
            } else if event is PeerSendShutdown || event is PeerSendAborted || event
                is ShutdownComplete {
                StreamRecvState::ShutdownComplete
            } else {
                before.recv_state
            }
            &&& after.send_state == if accepted {
                StreamSendState::StartComplete
            } else if event is PeerReceiveAborted || event is SendShutdownComplete || event
                is ShutdownComplete {
                StreamSendState::ShutdownComplete
            } else {
                before.send_state
            }
            &&& !(event is Receive) ==> after.recv_buffers == before.recv_buffers
        }),
        reply.status == if event is Receive {
            StatusCode::Pending
        } else {
            StatusCode::Success
        },
{
}

/// Those who wait are woken by what they wait for, all of them and nobody else; who is not woken
/// goes on waiting.
pub proof fn those_who_wait_are_woken(stream: &mut Stream, event: StreamEvent, reply: StreamReply)
    requires
        call_ensures(Stream::handle_event, (stream, event), reply),
    ensures
        ({
            let before = old(stream)@;
            let after = final(stream)@;
            let start = match event {
                StreamEvent::StartComplete { status, peer_accepted, .. } => peer_accepted
                    || status.code == Some(StatusCode::StreamLimitReached),
                StreamEvent::PeerAccepted | StreamEvent::ShutdownComplete { .. } => true,
                _ => false,
            };
            let data = event is Receive || event is PeerSendShutdown || event is PeerSendAborted
                || event is ShutdownComplete;
            let end = event is PeerReceiveAborted || event is SendShutdownComplete;
            &&& start ==> after.start_waiters.len() == 0
            &&& !start ==> after.start_waiters == before.start_waiters
            &&& data ==> after.read_waiters.len() == 0
            &&& !data ==> after.read_waiters == before.read_waiters
            &&& end ==> after.write_shutdown_waiters.len() == 0
            &&& !end ==> after.write_shutdown_waiters == before.write_shutdown_waiters
            &&& start && data ==> reply.woken@ == before.start_waiters + before.read_waiters
            &&& start && !data ==> reply.woken@ == before.start_waiters
            &&& !start && data ==> reply.woken@ == before.read_waiters
            &&& end ==> reply.woken@ == before.write_shutdown_waiters
            &&& !start && !data && !end ==> reply.woken@.len() == 0
        }),
{
}

/// Data that arrives is there to be read, whole and after all that arrived before it.
pub proof fn what_arrives_is_there_to_read(
    stream: &mut Stream,
    absolute_offset: u64,
    buffers: Vec<Vec<u8>>,
    fin: bool,
    reply: StreamReply,
)
    requires
        call_ensures(
            Stream::handle_event,
            (stream, StreamEvent::Receive { absolute_offset, buffers, fin }),
            reply,
        ),
    ensures
        ({
            let before = old(stream)@.recv_buffers;
            let after = final(stream)@.recv_buffers;
            let arrived = buffers@.map_values(|piece: Vec<u8>| piece@).flatten();
            &&& after.len() == before.len() + 1
            &&& after.drop_last() == before
            &&& after.last().offset == absolute_offset
            &&& after.last().pieces.flatten() == arrived
            &&& after.last().read == 0
            &&& after.last().fin == fin
            &&& unread_bytes(after) == unread_bytes(before) + arrived
        }),
{
    let before = old(stream)@.recv_buffers;
    let after = final(stream)@.recv_buffers;
    unread_bytes_of_last(before, after.last());
    assert(after =~= before.push(after.last()));
    assert(after.drop_last() =~= before);
    assert(after.last().pieces =~= buffers@.map_values(|piece: Vec<u8>| piece@));
    assert(after.last().pieces.flatten().skip(0) =~= after.last().pieces.flatten());
}

/// Reading hands out the bytes that arrived, in order and from where the last read stopped: as
/// many as there are and as there is room for, none twice and none passed over. The buffers that
/// come back are those whose bytes were all read, and the others stay.
pub proof fn reading_takes_the_next_bytes(
    stream: &mut Stream,
    cx: &Context<'_>,
    buf: &mut [u8],
    read: (Poll<Result<usize, ReadError>>, Vec<StreamRecvBuffer>),
)
    requires
        old(stream).well_formed(),
        old(stream)@.recv_state == StreamRecvState::StartComplete,
        !old(stream)@.end_read,
        call_ensures(Stream::poll_read, (stream, cx, buf), read),
    ensures
        ({
            let before = old(stream)@;
            let after = final(stream)@;
            let unread = unread_bytes(before.recv_buffers);
            let room = old(buf)@.len();
            let count = if unread.len() < room {
                unread.len()
            } else {
                room
            };
            let ended = unread.len() < room && before.recv_buffers.len() > 0
                && before.recv_buffers.last().fin;
            let done = read.1@.len();
            &&& final(buf)@ == unread.take(count as int) + old(buf)@.skip(count as int)
            &&& unread_bytes(after.recv_buffers) == unread.skip(count as int)
            &&& count == 0 && room > 0 && !ended ==> {
                &&& read.0 == Poll::<Result<usize, ReadError>>::Pending
                &&& listed(before.read_waiters, *cx, after.read_waiters)
            }
            &&& count > 0 || room == 0 || ended ==> {
                &&& read.0 == Poll::Ready(Ok::<usize, ReadError>(count as usize))
                &&& after.read_waiters == before.read_waiters
            }
            &&& after.end_read == ended
            &&& done + after.recv_buffers.len() == before.recv_buffers.len()
            &&& forall|i: int|
                0 <= i < done ==> {
                    &&& (#[trigger] read.1@[i])@.offset == before.recv_buffers[i].offset
                    &&& read.1@[i]@.pieces == before.recv_buffers[i].pieces
                    &&& read.1@[i]@.fin == before.recv_buffers[i].fin
                    &&& read.1@[i]@.read == before.recv_buffers[i].pieces.flatten().len()
                }
            &&& forall|i: int|
                0 <= i < after.recv_buffers.len() ==> {
                    &&& (#[trigger] after.recv_buffers[i]).offset == before.recv_buffers[done
                        + i].offset
                    &&& after.recv_buffers[i].pieces == before.recv_buffers[done + i].pieces
                    &&& after.recv_buffers[i].fin == before.recv_buffers[done + i].fin
                }
            &&& after == (StreamView {
                recv_buffers: after.recv_buffers,
                end_read: after.end_read,
                read_waiters: after.read_waiters,
                ..before
            })
        }),
{
    let before = old(stream)@;
    let after = final(stream)@;
    let room = old(buf)@.len();
    let unread = unread_bytes(before.recv_buffers);
    unread_bytes_are_pending(before.recv_buffers);
    unread_bytes_are_pending(after.recv_buffers);
    reading_splits_buffers(before.recv_buffers, room);
    let finished = finished_by(before.recv_buffers, room);
    let count = if unread.len() < room {
        unread.len()
    } else {
        room
    };
    assert(unread_bytes(after.recv_buffers) =~= unread.skip(count as int));
    assert(views_of(read.1@).len() == read.1@.len());
    old(stream).well_formed_view();
    assert forall|i: int| 0 <= i < read.1@.len() implies (#[trigger] read.1@[i])@ == finished[i]
        && read.1@[i]@.read == before.recv_buffers[i].pieces.flatten().len() by {
        assert(views_of(read.1@)[i] == read.1@[i]@);
        assert(before.recv_buffers[i].well_formed());
    }
    if count == 0 && room > 0 && !before.ends_within(room) {
        registered_is_listed(before.read_waiters, *cx, after.read_waiters);
    }
}

/// A reader that data cannot be handed to is told why, and only one that comes before the stream
/// is started has to wait; nothing is read.
pub proof fn readers_are_told_why(
    stream: &mut Stream,
    cx: &Context<'_>,
    buf: &mut [u8],
    read: (Poll<Result<usize, ReadError>>, Vec<StreamRecvBuffer>),
)
    requires
        old(stream)@.recv_state != StreamRecvState::StartComplete || old(stream)@.end_read,
        call_ensures(Stream::poll_read, (stream, cx, buf), read),
    ensures
        final(buf)@ == old(buf)@,
        read.1@.len() == 0,
        ({
            let before = old(stream)@;
            let after = final(stream)@;
            match before.recv_state {
                StreamRecvState::Start => {
                    &&& read.0 is Pending
                    &&& listed(before.start_waiters, *cx, after.start_waiters)
                    &&& after == (StreamView { start_waiters: after.start_waiters, ..before })
                },
                StreamRecvState::Closed => {
                    &&& read.0 == Poll::Ready(Err::<usize, ReadError>(ReadError::Closed))
                    &&& after == before
                },
                StreamRecvState::StartComplete => {
                    &&& read.0 == Poll::Ready(Ok::<usize, ReadError>(0))
                    &&& after == before
                },
                StreamRecvState::ShutdownComplete => {
                    &&& before.conn_error matches Some(error) ==> read.0 == Poll::Ready(
                        Err::<usize, ReadError>(ReadError::ConnectionLost(error)),
                    )
                    &&& before.conn_error is None ==> (before.recv_error_code matches Some(code)
                        ==> read.0 == Poll::Ready(Err::<usize, ReadError>(ReadError::Reset(code))))
                    &&& before.conn_error is None && before.recv_error_code is None ==> read.0
                        == Poll::Ready(Ok::<usize, ReadError>(0))
                    &&& after == before
                },
            }
        }),
{
    if old(stream)@.recv_state == StreamRecvState::Start {
        registered_is_listed(old(stream)@.start_waiters, *cx, final(stream)@.start_waiters);
    }
}

/// Whether a stream is read bytewise or by segments does not matter to what a reader is told: the
/// errors, the end and the wait are the same.
pub proof fn both_ways_to_read_agree(
    stream: &mut Stream,
    cx: &Context<'_>,
    buf: &mut [u8],
    read: (Poll<Result<usize, ReadError>>, Vec<StreamRecvBuffer>),
    chunking: &mut Stream,
    chunk: Poll<Result<Option<StreamRecvBuffer>, ReadError>>,
)
    requires
        old(stream)@.recv_state != StreamRecvState::StartComplete || old(stream)@.end_read,
        call_ensures(Stream::poll_read, (stream, cx, buf), read),
        *old(chunking) == *old(stream),
        call_ensures(Stream::poll_read_chunk, (chunking, cx), chunk),
    ensures
        chunk is Pending <==> read.0 is Pending,
        read.0 matches Poll::Ready(Err(error)) ==> chunk == Poll::Ready(
            Err::<Option<StreamRecvBuffer>, ReadError>(error),
        ),
        read.0 matches Poll::Ready(Ok(_)) ==> chunk == Poll::Ready(
            Ok::<Option<StreamRecvBuffer>, ReadError>(None),
        ),
        final(chunking)@ == (StreamView {
            start_waiters: final(chunking)@.start_waiters,
            ..old(stream)@
        }),
        read.0 is Pending ==> listed(
            old(stream)@.start_waiters,
            *cx,
            final(chunking)@.start_waiters,
        ),
        !(read.0 is Pending) ==> final(chunking)@ == old(stream)@,
{
    if old(stream)@.recv_state == StreamRecvState::Start {
        registered_is_listed(old(stream)@.start_waiters, *cx, final(chunking)@.start_waiters);
    }
}

/// Segments are handed out as they arrived and in that order, each once. With the one that the
/// stream ends with, the end was handed out.
pub proof fn segments_are_handed_out_in_order(
    stream: &mut Stream,
    cx: &Context<'_>,
    chunk: Poll<Result<Option<StreamRecvBuffer>, ReadError>>,
)
    requires
        old(stream)@.recv_state == StreamRecvState::StartComplete,
        !old(stream)@.end_read,
        call_ensures(Stream::poll_read_chunk, (stream, cx), chunk),
    ensures
        ({
            let before = old(stream)@;
            let after = final(stream)@;
            &&& before.recv_buffers.len() > 0 ==> {
                &&& chunk matches Poll::Ready(Ok(Some(segment)))
                &&& before.recv_buffers == seq![segment@] + after.recv_buffers
                &&& after.end_read == segment@.fin
                &&& after == (StreamView {
                    recv_buffers: after.recv_buffers,
                    end_read: after.end_read,
                    ..before
                })
            }
            &&& before.recv_buffers.len() == 0 ==> {
                &&& chunk is Pending
                &&& listed(before.read_waiters, *cx, after.read_waiters)
                &&& after == (StreamView { read_waiters: after.read_waiters, ..before })
            }
        }),
{
    let before = old(stream)@;
    if before.recv_buffers.len() > 0 {
        assert(before.recv_buffers =~= seq![before.recv_buffers[0]]
            + before.recv_buffers.drop_first());
    } else {
        registered_is_listed(before.read_waiters, *cx, final(stream)@.read_waiters);
    }
}

/// A stream that this side opens is asked to start once, as it was wanted, and is then starting in
/// the directions that it has. Whoever asks has to wait.
pub proof fn a_stream_is_started_once(
    stream: &mut Stream,
    cx: &Context<'_>,
    failed_on_block: bool,
    answer: (Poll<Result<(), StartError>>, Option<StreamStart>),
    later: &mut Stream,
    later_cx: &Context<'_>,
    again: bool,
    later_answer: (Poll<Result<(), StartError>>, Option<StreamStart>),
)
    requires
        old(stream)@.state == StreamState::Open,
        call_ensures(Stream::poll_start, (stream, cx, failed_on_block), answer),
        *old(later) == *final(stream),
        call_ensures(Stream::poll_start, (later, later_cx, again), later_answer),
    ensures
        answer.0 is Pending,
        answer.1 == Some(StreamStart { fail_blocked: failed_on_block }),
        later_answer.0 is Pending,
        later_answer.1 is None,
        ({
            let before = old(stream)@;
            let after = final(stream)@;
            &&& listed(before.start_waiters, *cx, after.start_waiters)
            &&& after.state == StreamState::Start
            &&& after.send_state == StreamSendState::Start
            &&& after.recv_state == if before.stream_type == StreamType::Bidirectional {
                StreamRecvState::Start
            } else {
                before.recv_state
            }
            &&& after == (StreamView {
                state: after.state,
                recv_state: after.recv_state,
                send_state: after.send_state,
                start_waiters: after.start_waiters,
                ..before
            })
            &&& listed(after.start_waiters, *later_cx, final(later)@.start_waiters)
            &&& final(later)@ == (StreamView {
                start_waiters: final(later)@.start_waiters,
                ..after
            })
        }),
{
    registered_is_listed(old(stream)@.start_waiters, *cx, final(stream)@.start_waiters);
    registered_is_listed(
        final(stream)@.start_waiters,
        *later_cx,
        final(later)@.start_waiters,
    );
}

/// Whoever waits for a start goes on waiting as long as the stream is starting.
pub proof fn a_start_is_waited_for(
    stream: &mut Stream,
    cx: &Context<'_>,
    failed_on_block: bool,
    answer: (Poll<Result<(), StartError>>, Option<StreamStart>),
)
    requires
        old(stream)@.state == StreamState::Start,
        call_ensures(Stream::poll_start, (stream, cx, failed_on_block), answer),
    ensures
        answer.0 is Pending,
        answer.1 is None,
        listed(old(stream)@.start_waiters, *cx, final(stream)@.start_waiters),
        final(stream)@ == (StreamView {
            start_waiters: final(stream)@.start_waiters,
            ..old(stream)@
        }),
{
    registered_is_listed(old(stream)@.start_waiters, *cx, final(stream)@.start_waiters);
}

/// A start that succeeded and was accepted by the peer is over, and every task that waits for it is
/// woken: whoever asks next is told of the success, data is taken at once, and on a stream that
/// goes both ways a reader waits for data, no longer for the start.
pub proof fn an_accepted_start_is_over(
    stream: &mut Stream,
    status: Status,
    id: u64,
    reply: StreamReply,
    starting: &mut Stream,
    cx: &Context<'_>,
    failed_on_block: bool,
    started: (Poll<Result<(), StartError>>, Option<StreamStart>),
    writing: &mut Stream,
    data: &[u8],
    fin: bool,
    written: (Poll<Result<usize, WriteError>>, Option<StreamSend>),
    gate: ReadGate,
)
    requires
        status.ok,
        call_ensures(
            Stream::handle_event,
            (stream, StreamEvent::StartComplete { status, id, peer_accepted: true }),
            reply,
        ),
        *old(starting) == *final(stream),
        call_ensures(Stream::poll_start, (starting, cx, failed_on_block), started),
        *old(writing) == *final(stream),
        call_ensures(Stream::poll_write, (writing, cx, data, fin), written),
        call_ensures(Stream::read_gate, (&*final(stream),), gate),
    ensures
        reply.woken@ == old(stream)@.start_waiters,
        started.0 == Poll::Ready(Ok::<(), StartError>(())),
        started.1 is None,
        !old(stream)@.fin_sent ==> written.0 == Poll::Ready(
            Ok::<usize, WriteError>(data@.len() as usize),
        ) && written.1 is Some,
        old(stream)@.stream_type == StreamType::Bidirectional && !old(stream)@.end_read ==> gate
            == ReadGate::Open,
{
    assert(reply.woken@ =~= old(stream)@.start_waiters);
}

/// A start that waits for the peer is over once the peer accepted the stream, with the status that
/// was told before.
pub proof fn acceptance_ends_the_start(
    stream: &mut Stream,
    reply: StreamReply,
    starting: &mut Stream,
    cx: &Context<'_>,
    failed_on_block: bool,
    started: (Poll<Result<(), StartError>>, Option<StreamStart>),
)
    requires
        old(stream)@.start_status matches Some(status) ==> status.ok,
        call_ensures(Stream::handle_event, (stream, StreamEvent::PeerAccepted), reply),
        *old(starting) == *final(stream),
        call_ensures(Stream::poll_start, (starting, cx, failed_on_block), started),
    ensures
        reply.woken@ == old(stream)@.start_waiters,
        started.0 == Poll::Ready(Ok::<(), StartError>(())),
        started.1 is None,
{
    assert(reply.woken@ =~= old(stream)@.start_waiters);
}

/// How a start ended is told to everybody who asks once it is over, and never changes by asking:
/// success, the peer's limit, the connection that went away, or the status itself.
pub proof fn the_outcome_of_a_start_is_told(
    stream: &mut Stream,
    cx: &Context<'_>,
    failed_on_block: bool,
    answer: (Poll<Result<(), StartError>>, Option<StreamStart>),
)
    requires
        old(stream)@.state == StreamState::StartComplete || old(stream)@.state
            == StreamState::ShutdownComplete,
        call_ensures(Stream::poll_start, (stream, cx, failed_on_block), answer),
    ensures
        answer.1 is None,
        final(stream)@ == old(stream)@,
        answer.0 matches Poll::Ready(outcome) && match old(stream)@.start_status {
            None => outcome is Ok,
            Some(status) => {
                &&& outcome is Ok <==> status.ok
                &&& !status.ok ==> {
                    let given_up = status.code == Some(StatusCode::Aborted) || status.code == Some(
                        StatusCode::InvalidState,
                    );
                    &&& status.code == Some(StatusCode::StreamLimitReached) ==> outcome == Err::<
                        (),
                        StartError,
                    >(StartError::LimitReached)
                    &&& given_up ==> (old(stream)@.conn_error matches Some(error) ==> outcome
                        == Err::<(), StartError>(StartError::ConnectionLost(error)))
                    &&& !given_up && status.code != Some(StatusCode::StreamLimitReached)
                        ==> outcome == Err::<(), StartError>(StartError::Unknown(status.raw))
                }
            },
        },
{
}

/// The bytes of `parts`, one part after the other.
pub open spec fn joined(parts: Seq<&[u8]>) -> Seq<u8> {
    parts.map_values(|part: &[u8]| part@).flatten()
}

/// `before` took data, and with `fin` is ended by it: a blank buffer was used up, if one was kept.
pub open spec fn took_data(before: StreamView, fin: bool, after: StreamView) -> bool {
    &&& after.fin_sent == fin
    &&& before.write_pool == 0 ==> after.write_pool == 0
    &&& before.write_pool > 0 ==> after.write_pool == before.write_pool - 1
    &&& after == (StreamView {
        fin_sent: after.fin_sent,
        write_pool: after.write_pool,
        ..before
    })
}

/// Data that is written is taken whole wherever a stream is started and not ended, and nowhere
/// else; what MsQuic is handed is exactly that data, and that the stream ends with it where that
/// was said.
pub proof fn what_is_written_is_sent(
    stream: &mut Stream,
    cx: &Context<'_>,
    data: &[u8],
    fin: bool,
    written: (Poll<Result<usize, WriteError>>, Option<StreamSend>),
    send: StreamSend,
    parts: Vec<&[u8]>,
)
    requires
        call_ensures(Stream::poll_write, (stream, cx, data, fin), written),
        written.1 == Some(send),
        call_ensures(WriteBuffer::get_buffers, (&send.buffer,), parts),
    ensures
        old(stream)@.send_state == StreamSendState::StartComplete,
        !old(stream)@.fin_sent,
        written.0 == Poll::Ready(Ok::<usize, WriteError>(data@.len() as usize)),
        joined(parts@) == data@,
        send.fin == fin,
        took_data(old(stream)@, fin, final(stream)@),
{
    seq![data@].lemma_flatten_one_element();
}

/// A chunk that is written without copying is taken and sent just as copied data is.
pub proof fn a_written_chunk_is_sent(
    stream: &mut Stream,
    cx: &Context<'_>,
    data: &Bytes,
    fin: bool,
    written: (Poll<Result<usize, WriteError>>, Option<StreamSend>),
    send: StreamSend,
    parts: Vec<&[u8]>,
)
    requires
        call_ensures(Stream::poll_write_chunk, (stream, cx, data, fin), written),
        written.1 == Some(send),
        call_ensures(WriteBuffer::get_buffers, (&send.buffer,), parts),
    ensures
        old(stream)@.send_state == StreamSendState::StartComplete,
        !old(stream)@.fin_sent,
        written.0 == Poll::Ready(Ok::<usize, WriteError>(bytes_data(*data).len() as usize)),
        joined(parts@) == bytes_data(*data),
        send.fin == fin,
        took_data(old(stream)@, fin, final(stream)@),
{
    seq![bytes_data(*data)].lemma_flatten_one_element();
}

/// Chunks that are written together are taken and sent one after the other, all of them.
pub proof fn written_chunks_are_sent(
    stream: &mut Stream,
    cx: &Context<'_>,
    data: &[Bytes],
    fin: bool,
    written: (Poll<Result<usize, WriteError>>, Option<StreamSend>),
    send: StreamSend,
    parts: Vec<&[u8]>,
)
    requires
        call_ensures(Stream::poll_write_chunks, (stream, cx, data, fin), written),
        written.1 == Some(send),
        call_ensures(WriteBuffer::get_buffers, (&send.buffer,), parts),
    ensures
        old(stream)@.send_state == StreamSendState::StartComplete,
        !old(stream)@.fin_sent,
        joined(parts@) == data@.map_values(|chunk: Bytes| bytes_data(chunk)).flatten(),
        written.0 == Poll::Ready(Ok::<usize, WriteError>(joined(parts@).len() as usize)),
        send.fin == fin,
        took_data(old(stream)@, fin, final(stream)@),
{
    let contents = data@.map_values(|chunk: Bytes| bytes_data(chunk));
    assert(contents =~= contents_of(data@));
    if data@.len() == 0 {
        let nothing: Seq<u8> = Seq::empty();
        seq![nothing].lemma_flatten_one_element();
        assert(contents =~= Seq::empty());
        assert(contents.flatten() =~= nothing);
    }
}

/// A writer is refused only where the stream is not started or was ended, and is told why; one that
/// comes before the stream is started has to wait. Nothing is sent. The ways to write agree in
/// that.
pub proof fn writers_are_told_why(
    stream: &mut Stream,
    cx: &Context<'_>,
    data: &[u8],
    fin: bool,
    written: (Poll<Result<usize, WriteError>>, Option<StreamSend>),
    chunking: &mut Stream,
    chunk: &Bytes,
    chunk_written: (Poll<Result<usize, WriteError>>, Option<StreamSend>),
    listing: &mut Stream,
    chunks: &[Bytes],
    chunks_written: (Poll<Result<usize, WriteError>>, Option<StreamSend>),
)
    requires
        call_ensures(Stream::poll_write, (stream, cx, data, fin), written),
        *old(chunking) == *old(stream),
        call_ensures(Stream::poll_write_chunk, (chunking, cx, chunk, fin), chunk_written),
        *old(listing) == *old(stream),
        call_ensures(Stream::poll_write_chunks, (listing, cx, chunks, fin), chunks_written),
    ensures
        ({
            let before = old(stream)@;
            let after = final(stream)@;
            let takes = before.send_state == StreamSendState::StartComplete && !before.fin_sent;
            &&& written.1 is Some <==> takes
            &&& chunk_written.1 is Some <==> takes
            &&& chunks_written.1 is Some <==> takes
            &&& !takes ==> {
                &&& chunk_written.0 == written.0
                &&& chunks_written.0 == written.0
                &&& before.send_state == StreamSendState::Start ==> {
                    &&& written.0 is Pending
                    &&& listed(before.start_waiters, *cx, after.start_waiters)
                    &&& listed(before.start_waiters, *cx, final(chunking)@.start_waiters)
                    &&& listed(before.start_waiters, *cx, final(listing)@.start_waiters)
                    &&& after == (StreamView { start_waiters: after.start_waiters, ..before })
                    &&& final(chunking)@ == (StreamView {
                        start_waiters: final(chunking)@.start_waiters,
                        ..before
                    })
                    &&& final(listing)@ == (StreamView {
                        start_waiters: final(listing)@.start_waiters,
                        ..before
                    })
                }
                &&& before.send_state != StreamSendState::Start ==> {
                    &&& written.0 matches Poll::Ready(Err(error))
                    &&& error == match before.send_state {
                        StreamSendState::Closed => WriteError::Closed,
                        StreamSendState::ShutdownComplete => match (
                            before.conn_error,
                            before.send_error_code,
                        ) {
                            (Some(error), _) => WriteError::ConnectionLost(error),
                            (None, Some(code)) => WriteError::Stopped(code),
                            (None, None) => WriteError::Finished,
                        },
                        _ => WriteError::Finished,
                    }
                    &&& after == before
                    &&& final(chunking)@ == before
                    &&& final(listing)@ == before
                }
            }
        }),
{
    if old(stream)@.send_state == StreamSendState::Start {
        registered_is_listed(old(stream)@.start_waiters, *cx, final(stream)@.start_waiters);
        registered_is_listed(old(stream)@.start_waiters, *cx, final(chunking)@.start_waiters);
        registered_is_listed(old(stream)@.start_waiters, *cx, final(listing)@.start_waiters);
    }
}

/// What a stream ends with is the last of it: data that is written after that is refused, and not
/// sent.
pub proof fn nothing_is_sent_after_the_end(
    stream: &mut Stream,
    cx: &Context<'_>,
    data: &[u8],
    written: (Poll<Result<usize, WriteError>>, Option<StreamSend>),
    later: &mut Stream,
    more: &[u8],
    fin: bool,
    later_written: (Poll<Result<usize, WriteError>>, Option<StreamSend>),
)
    requires
        call_ensures(Stream::poll_write, (stream, cx, data, true), written),
        written.1 is Some,
        *old(later) == *final(stream),
        call_ensures(Stream::poll_write, (later, cx, more, fin), later_written),
    ensures
        later_written.0 == Poll::Ready(Err::<usize, WriteError>(WriteError::Finished)),
        later_written.1 is None,
{
}

/// `answer` is that of a stream whose sending direction is to be shut down in the way of
/// `shutdown`: it is asked for once, by the first who does so on a started stream, and all wait
/// until it is done.
pub open spec fn ended_once(
    before: StreamView,
    cx: Context<'_>,
    shutdown: StreamShutdown,
    answer: (Poll<Result<(), WriteError>>, Option<StreamShutdown>),
    after: StreamView,
) -> bool {
    match before.send_state {
        StreamSendState::Start => {
            &&& answer.0 is Pending
            &&& answer.1 is None
            &&& listed(before.start_waiters, cx, after.start_waiters)
            &&& after == (StreamView { start_waiters: after.start_waiters, ..before })
        },
        StreamSendState::StartComplete | StreamSendState::Shutdown => {
            &&& answer.0 is Pending
            &&& answer.1 == if before.send_state == StreamSendState::StartComplete {
                Some(shutdown)
            } else {
                None
            }
            &&& listed(before.write_shutdown_waiters, cx, after.write_shutdown_waiters)
            &&& after.send_state == StreamSendState::Shutdown
            &&& after == (StreamView {
                send_state: after.send_state,
                write_shutdown_waiters: after.write_shutdown_waiters,
                ..before
            })
        },
        StreamSendState::Closed => {
            &&& answer.0 == Poll::Ready(Err::<(), WriteError>(WriteError::Closed))
            &&& answer.1 is None
            &&& after == before
        },
        StreamSendState::ShutdownComplete => {
            &&& answer.0 == Poll::Ready(
                match (before.conn_error, before.send_error_code) {
                    (Some(error), _) => Err::<(), WriteError>(WriteError::ConnectionLost(error)),
                    (None, Some(code)) => Err(WriteError::Stopped(code)),
                    (None, None) => Ok(()),
                },
            )
            &&& answer.1 is None
            &&& after == before
        },
    }
}

/// The sending direction is ended in the way that was asked for: gracefully, so that all data that
/// was written is delivered, or by a reset with the given error code. Nothing is asked of the
/// other direction.
pub proof fn the_sending_direction_is_ended_once(
    stream: &mut Stream,
    cx: &Context<'_>,
    finished: (Poll<Result<(), WriteError>>, Option<StreamShutdown>),
    aborting: &mut Stream,
    error_code: u64,
    aborted: (Poll<Result<(), WriteError>>, Option<StreamShutdown>),
)
    requires
        call_ensures(Stream::poll_finish_write, (stream, cx), finished),
        *old(aborting) == *old(stream),
        call_ensures(Stream::poll_abort_write, (aborting, cx, error_code), aborted),
    ensures
        ended_once(
            old(stream)@,
            *cx,
            StreamShutdown {
                graceful: true,
                abort_send: false,
                abort_receive: false,
                immediate: false,
                error_code: 0,
            },
            finished,
            final(stream)@,
        ),
        ended_once(
            old(stream)@,
            *cx,
            StreamShutdown {
                graceful: false,
                abort_send: true,
                abort_receive: false,
                immediate: false,
                error_code,
            },
            aborted,
            final(aborting)@,
        ),
{
    let before = old(stream)@;
    match before.send_state {
        StreamSendState::Start => {
            registered_is_listed(before.start_waiters, *cx, final(stream)@.start_waiters);
            registered_is_listed(before.start_waiters, *cx, final(aborting)@.start_waiters);
        },
        StreamSendState::StartComplete | StreamSendState::Shutdown => {
            registered_is_listed(
                before.write_shutdown_waiters,
                *cx,
                final(stream)@.write_shutdown_waiters,
            );
            registered_is_listed(
                before.write_shutdown_waiters,
                *cx,
                final(aborting)@.write_shutdown_waiters,
            );
        },
        _ => {},
    }
}

/// A reset that is not waited for is asked of a started stream that is not being ended yet, with
/// the given error code; it is refused everywhere else. The next writer finds the stream ended.
pub proof fn a_reset_is_asked_for_once(
    stream: &mut Stream,
    error_code: u64,
    aborted: (Result<(), WriteError>, Option<StreamShutdown>),
    later: &mut Stream,
    later_code: u64,
    later_aborted: (Result<(), WriteError>, Option<StreamShutdown>),
    writing: &mut Stream,
    cx: &Context<'_>,
    data: &[u8],
    fin: bool,
    written: (Poll<Result<usize, WriteError>>, Option<StreamSend>),
)
    requires
        call_ensures(Stream::abort_write, (stream, error_code), aborted),
        *old(later) == *final(stream),
        call_ensures(Stream::abort_write, (later, later_code), later_aborted),
        *old(writing) == *final(stream),
        call_ensures(Stream::poll_write, (writing, cx, data, fin), written),
    ensures
        later_aborted.0 == Err::<(), WriteError>(WriteError::Closed),
        later_aborted.1 is None,
        if old(stream)@.send_state == StreamSendState::StartComplete {
            &&& aborted.0 is Ok
            &&& aborted.1 == Some(
                StreamShutdown {
                    graceful: false,
                    abort_send: true,
                    abort_receive: false,
                    immediate: false,
                    error_code,
                },
            )
            &&& final(stream)@ == (StreamView {
                send_state: StreamSendState::Shutdown,
                ..old(stream)@
            })
            &&& written.0 == Poll::Ready(Err::<usize, WriteError>(WriteError::Finished))
            &&& written.1 is None
        } else {
            &&& aborted.0 == Err::<(), WriteError>(WriteError::Closed)
            &&& aborted.1 is None
            &&& final(stream)@ == old(stream)@
        },
{
}

/// The peer is asked to stop sending, with the given error code, on a stream that is started and
/// whose receiving direction is not shut down, whatever was read of it; it is asked once. Whoever
/// would wait for that gets those who wait for data to wake.
pub proof fn the_peer_is_asked_to_stop_once(
    stream: &mut Stream,
    cx: &Context<'_>,
    error_code: u64,
    polled: (Poll<Result<(), ReadError>>, Option<StreamShutdown>, Vec<Waker>),
    aborting: &mut Stream,
    aborted: (Result<(), ReadError>, Option<StreamShutdown>),
)
    requires
        call_ensures(Stream::poll_abort_read, (stream, cx, error_code), polled),
        *old(aborting) == *old(stream),
        call_ensures(Stream::abort_read, (aborting, error_code), aborted),
    ensures
        ({
            let before = old(stream)@;
            let after = final(stream)@;
            let shutdown = StreamShutdown {
                graceful: false,
                abort_send: false,
                abort_receive: true,
                immediate: false,
                error_code,
            };
            if before.recv_state == StreamRecvState::StartComplete {
                &&& polled.0 == Poll::Ready(Ok::<(), ReadError>(()))
                &&& polled.1 == Some(shutdown)
                &&& polled.2@ == before.read_waiters
                &&& after.recv_state == StreamRecvState::ShutdownComplete
                &&& after.read_waiters.len() == 0
                &&& after == (StreamView {
                    recv_state: after.recv_state,
                    read_waiters: after.read_waiters,
                    ..before
                })
                &&& aborted.0 is Ok
                &&& aborted.1 == Some(shutdown)
                &&& final(aborting)@ == (StreamView {
                    recv_state: StreamRecvState::ShutdownComplete,
                    ..before
                })
            } else {
                &&& polled.1 is None
                &&& polled.2@.len() == 0
                &&& aborted.0 == Err::<(), ReadError>(ReadError::Closed)
                &&& aborted.1 is None
                &&& final(aborting)@ == before
                &&& match before.recv_state {
                    StreamRecvState::Start => {
                        &&& polled.0 is Pending
                        &&& listed(before.start_waiters, *cx, after.start_waiters)
                        &&& after == (StreamView { start_waiters: after.start_waiters, ..before })
                    },
                    StreamRecvState::Closed => {
                        &&& polled.0 == Poll::Ready(Err::<(), ReadError>(ReadError::Closed))
                        &&& after == before
                    },
                    _ => {
                        &&& polled.0 == Poll::Ready(
                            match (before.conn_error, before.recv_error_code) {
                                (Some(error), _) => Err::<(), ReadError>(
                                    ReadError::ConnectionLost(error),
                                ),
                                (None, Some(code)) => Err(ReadError::Reset(code)),
                                (None, None) => Ok(()),
                            },
                        )
                        &&& after == before
                    },
                }
            }
        }),
{
    if old(stream)@.recv_state == StreamRecvState::Start {
        registered_is_listed(old(stream)@.start_waiters, *cx, final(stream)@.start_waiters);
    }
}

/// MsQuic is told of received data exactly as it is done with: of a buffer's part of the stream
/// once everything before it is done with too, of no byte twice, and of none that is not.
pub proof fn received_data_is_acknowledged(
    stream: &mut Stream,
    buffer: &StreamRecvBuffer,
    complete_len: usize,
)
    requires
        call_ensures(Stream::read_complete, (stream, buffer), complete_len),
    ensures
        ({
            let before = old(stream)@;
            let after = final(stream)@;
            let start = buffer@.offset;
            let end = buffer@.offset + buffer@.pieces.flatten().len();
            &&& forall|byte: usize| #[trigger]
                after.completed.contains(byte) <==> before.completed.contains(byte) || start
                    <= byte < end
            &&& after.read_complete_cursor == before.read_complete_cursor + complete_len
            &&& forall|byte: usize|
                byte < after.read_complete_cursor ==> #[trigger] after.completed.contains(byte)
            &&& !after.completed.contains(after.read_complete_cursor as usize)
            &&& after.read_complete_cursor <= usize::MAX
            &&& after == (StreamView {
                completed: after.completed,
                read_complete_cursor: after.read_complete_cursor,
                ..before
            })
        }),
{
}

/// A stream keeps the ID that it was told first; asking MsQuic only fills in for one that is not
/// known.
pub proof fn an_id_is_kept(
    stream: &mut Stream,
    queried: Option<u64>,
    id: Option<u64>,
    known: Option<u64>,
    later: Option<u64>,
)
    requires
        call_ensures(Stream::known_id, (&*old(stream),), known),
        call_ensures(Stream::id, (stream, queried), id),
        call_ensures(Stream::known_id, (&*final(stream),), later),
    ensures
        known == old(stream)@.id,
        known is Some ==> id == known,
        known is None ==> id == queried,
        later == id,
        final(stream)@ == (StreamView { id, ..old(stream)@ }),
{
}

/// A stream has a half for each direction that it carries data in: both where it goes both ways,
/// else only the writing half where this side opened it and only the reading half where the peer
/// did.
pub proof fn halves_are_the_directions<H: Clone>(
    stream: &Stream,
    handle: H,
    halves: (Option<ReadStream<H>>, Option<WriteStream<H>>),
)
    requires
        call_ensures(Stream::split::<H>, (stream, handle), halves),
    ensures
        ({
            let both_ways = stream@.stream_type == StreamType::Bidirectional;
            &&& halves.0 is Some <==> both_ways || !stream@.local_open
            &&& halves.1 is Some <==> both_ways || stream@.local_open
            &&& halves.0 matches Some(read) ==> read.0 == handle || cloned(handle, read.0)
            &&& halves.0 matches Some(read) ==> (!both_ways ==> read.0 == handle)
            &&& halves.1 matches Some(write) ==> write.0 == handle
        }),
{
}

/// A stream that is dropped while it runs is given up in both directions at once; one that is not
/// started or is shut down is left alone. What was not read is dropped.
pub proof fn a_dropped_stream_is_given_up(stream: &mut Stream, shutdown: Option<StreamShutdown>)
    requires
        call_ensures(Stream::close, (stream,), shutdown),
    ensures
        ({
            let running = old(stream)@.state == StreamState::Start || old(stream)@.state
                == StreamState::StartComplete;
            &&& shutdown is Some <==> running
            &&& shutdown matches Some(shutdown) ==> shutdown.abort_send && shutdown.abort_receive
                && shutdown.immediate && !shutdown.graceful && shutdown.error_code == 0
        }),
        final(stream)@.recv_buffers.len() == 0,
        final(stream)@ == (StreamView {
            recv_buffers: final(stream)@.recv_buffers,
            ..old(stream)@
        }),
{
}

/// A stream that this side opens can be used in neither direction before it is started.
pub proof fn an_opened_stream_is_not_started(stream_type: StreamType, stream: Stream)
    requires
        call_ensures(Stream::open, (stream_type,), stream),
    ensures
        stream.well_formed(),
        stream@.stream_type == stream_type,
        stream@.local_open,
        stream@.state == StreamState::Open,
        stream@.recv_state == StreamRecvState::Closed,
        stream@.send_state == StreamSendState::Closed,
        nothing_happened(stream@),
{
}

/// A stream that the peer opened can be read from at once, and be written to where it goes both
/// ways.
pub proof fn an_inbound_stream_is_usable(stream_type: StreamType, stream: Stream)
    requires
        call_ensures(Stream::from_handle, (stream_type,), stream),
    ensures
        stream.well_formed(),
        stream@.stream_type == stream_type,
        !stream@.local_open,
        stream@.state == StreamState::Open,
        stream@.recv_state == StreamRecvState::StartComplete,
        stream@.send_state == if stream_type == StreamType::Bidirectional {
            StreamSendState::StartComplete
        } else {
            StreamSendState::Closed
        },
        nothing_happened(stream@),
{
}

/// Nothing was received, sent, waited for or gone wrong.
pub open spec fn nothing_happened(stream: StreamView) -> bool {
    &&& stream.id is None
    &&& stream.start_status is None
    &&& stream.recv_buffers.len() == 0
    &&& forall|byte: usize| !stream.completed.contains(byte)
    &&& stream.read_complete_cursor == 0
    &&& !stream.fin_sent
    &&& !stream.end_read
    &&& stream.write_pool == 0
    &&& stream.recv_error_code is None
    &&& stream.send_error_code is None
    &&& stream.conn_error is None
    &&& stream.start_waiters.len() == 0
    &&& stream.read_waiters.len() == 0
    &&& stream.write_shutdown_waiters.len() == 0
}

/// The kind of I/O error tells apart what a reader or writer has to tell apart: that the stream
/// cannot be used, that the peer ended it, and that the connection went away.
pub proof fn io_errors_tell_what_happened(
    read: &ReadError,
    read_kind: IoErrorKind,
    write: &WriteError,
    write_kind: IoErrorKind,
)
    requires
        call_ensures(ReadError::io_kind, (read,), read_kind),
        call_ensures(WriteError::io_kind, (write,), write_kind),
    ensures
        read_kind == IoErrorKind::ConnectionReset <==> *read is Reset,
        read_kind == IoErrorKind::NotConnected <==> *read == ReadError::Closed || *read
            == ReadError::ConnectionLost(ConnectionError::ConnectionClosed),
        write_kind == IoErrorKind::ConnectionReset <==> *write is Stopped,
        write_kind == IoErrorKind::NotConnected <==> *write == WriteError::Closed || *write
            == WriteError::Finished || *write == WriteError::ConnectionLost(
            ConnectionError::ConnectionClosed,
        ),
{
}

/// The outcome of a start is known, but where the start was given up because of the connection and
/// what happened to that was not told yet.
pub proof fn an_unknown_outcome_is_that_of_a_lost_connection(stream: &Stream, known: bool)
    requires
        call_ensures(Stream::start_error_known, (stream,), known),
    ensures
        !known <==> {
            &&& stream@.state == StreamState::StartComplete || stream@.state
                == StreamState::ShutdownComplete
            &&& stream@.conn_error is None
            &&& stream@.start_status matches Some(status)
            &&& !status.ok
            &&& status.code == Some(StatusCode::Aborted) || status.code == Some(
                StatusCode::InvalidState,
            )
        },
{
}

/// An attempt to read or write keeps what it came to, and is finished exactly where the end was
/// reached with it.
pub proof fn an_attempt_is_told_whole<T>(
    part: Option<T>,
    fin: bool,
    read: ReadStatus<T>,
    written: WriteStatus<T>,
)
    requires
        call_ensures(ReadStatus::<T>::from_parts, (part, fin), read),
        call_ensures(WriteStatus::<T>::from_parts, (part, fin), written),
    ensures
        read is Finished <==> fin,
        read is Blocked <==> !fin,
        read matches ReadStatus::Finished(told) ==> told == part,
        read matches ReadStatus::Blocked(told) ==> told == part,
        written is Finished <==> fin,
        written is Blocked <==> !fin,
        written matches WriteStatus::Finished(told) ==> told == part,
        written matches WriteStatus::Blocked(told) ==> told == part,
{
}

/// What a reader finds is what the receiving direction is in, and what a writer finds is what the
/// sending direction is in; once a direction is shut down, a lost connection counts before an
/// error of the peer, and that before a regular end.
pub proof fn users_find_the_state_of_their_direction(
    stream: &Stream,
    read: ReadGate,
    write: WriteGate,
)
    requires
        call_ensures(Stream::read_gate, (stream,), read),
        call_ensures(Stream::write_gate, (stream,), write),
    ensures
        read == match stream@.recv_state {
            StreamRecvState::Closed => ReadGate::Closed,
            StreamRecvState::Start => ReadGate::Starting,
            StreamRecvState::StartComplete => if stream@.end_read {
                ReadGate::End
            } else {
                ReadGate::Open
            },
            StreamRecvState::ShutdownComplete => if stream@.conn_error is Some {
                ReadGate::Lost(stream@.conn_error->0)
            } else if stream@.recv_error_code is Some {
                ReadGate::Reset(stream@.recv_error_code->0)
            } else {
                ReadGate::End
            },
        },
        write == match stream@.send_state {
            StreamSendState::Closed => WriteGate::Closed,
            StreamSendState::Start => WriteGate::Starting,
            StreamSendState::StartComplete => WriteGate::Open,
            StreamSendState::Shutdown => WriteGate::ShuttingDown,
            StreamSendState::ShutdownComplete => if stream@.conn_error is Some {
                WriteGate::Lost(stream@.conn_error->0)
            } else if stream@.send_error_code is Some {
                WriteGate::Stopped(stream@.send_error_code->0)
            } else {
                WriteGate::Done
            },
        },
{
}

/// A shutdown asks for what it is called by, and for nothing else.
pub proof fn a_shutdown_is_what_it_is_called(
    error_code: u64,
    graceful: StreamShutdown,
    send: StreamShutdown,
    receive: StreamShutdown,
    all: StreamShutdown,
)
    requires
        call_ensures(StreamShutdown::graceful, (), graceful),
        call_ensures(StreamShutdown::abort_send, (error_code,), send),
        call_ensures(StreamShutdown::abort_receive, (error_code,), receive),
        call_ensures(StreamShutdown::abort_all, (), all),
    ensures
        graceful.graceful && !graceful.abort_send && !graceful.abort_receive
            && !graceful.immediate && graceful.error_code == 0,
        !send.graceful && send.abort_send && !send.abort_receive && !send.immediate
            && send.error_code == error_code,
        !receive.graceful && !receive.abort_send && receive.abort_receive && !receive.immediate
            && receive.error_code == error_code,
        !all.graceful && all.abort_send && all.abort_receive && all.immediate && all.error_code
            == 0,
{
}

/// The halves of a stream do not depend on who splits it.
pub proof fn a_handle_is_split_by_direction<H: Clone>(
    stream_type: StreamType,
    local_open: bool,
    handle: H,
    halves: (Option<ReadStream<H>>, Option<WriteStream<H>>),
)
    requires
        call_ensures(split_handle::<H>, (stream_type, local_open, handle), halves),
    ensures
        ({
            let both_ways = stream_type == StreamType::Bidirectional;
            &&& halves.0 is Some <==> both_ways || !local_open
            &&& halves.1 is Some <==> both_ways || local_open
            &&& halves.0 matches Some(read) ==> if both_ways {
                cloned(handle, read.0)
            } else {
                read.0 == handle
            }
            &&& halves.1 matches Some(write) ==> write.0 == handle
        }),
{
}

/// What the peer sends on a stream that it opened is read as it was sent: the first data that
/// arrives is what the first read hands out.
pub proof fn what_the_peer_sends_is_read(
    stream_type: StreamType,
    fresh: Stream,
    stream: &mut Stream,
    buffers: Vec<Vec<u8>>,
    fin: bool,
    reply: StreamReply,
    reading: &mut Stream,
    cx: &Context<'_>,
    buf: &mut [u8],
    read: (Poll<Result<usize, ReadError>>, Vec<StreamRecvBuffer>),
    chunking: &mut Stream,
    chunk: Poll<Result<Option<StreamRecvBuffer>, ReadError>>,
)
    requires
        call_ensures(Stream::from_handle, (stream_type,), fresh),
        *old(stream) == fresh,
        call_ensures(
            Stream::handle_event,
            (stream, StreamEvent::Receive { absolute_offset: 0, buffers, fin }),
            reply,
        ),
        *old(reading) == *final(stream),
        call_ensures(Stream::poll_read, (reading, cx, buf), read),
        *old(chunking) == *final(stream),
        call_ensures(Stream::poll_read_chunk, (chunking, cx), chunk),
    ensures
        ({
            let sent = buffers@.map_values(|piece: Vec<u8>| piece@).flatten();
            let count = if sent.len() < old(buf)@.len() {
                sent.len()
            } else {
                old(buf)@.len()
            };
            &&& count > 0 ==> read.0 == Poll::Ready(Ok::<usize, ReadError>(count as usize))
            &&& final(buf)@.take(count as int) == sent.take(count as int)
            &&& final(buf)@.skip(count as int) == old(buf)@.skip(count as int)
            &&& chunk matches Poll::Ready(Ok(Some(segment)))
            &&& segment@.pieces.flatten() == sent
            &&& segment@.read == 0
            &&& segment@.fin == fin
        }),
{
    let sent = buffers@.map_values(|piece: Vec<u8>| piece@).flatten();
    what_arrives_is_there_to_read(stream, 0, buffers, fin, reply);
    let after = final(stream)@.recv_buffers;
    unread_bytes_are_pending(after);
    assert(old(stream)@.recv_buffers =~= Seq::empty());
    assert(unread_bytes(after) =~= sent);
    let count = if sent.len() < old(buf)@.len() {
        sent.len()
    } else {
        old(buf)@.len()
    };
    assert(final(buf)@.take(count as int) =~= sent.take(count as int));
    assert(final(buf)@.skip(count as int) =~= old(buf)@.skip(count as int));
}

/// A stream that this side opens is usable once it is started: it is asked to start, MsQuic tells
/// that it did, and what is then written is what is sent.
pub proof fn an_opened_stream_sends_what_is_written(
    stream_type: StreamType,
    fresh: Stream,
    starting: &mut Stream,
    cx: &Context<'_>,
    failed_on_block: bool,
    start: (Poll<Result<(), StartError>>, Option<StreamStart>),
    stream: &mut Stream,
    status: Status,
    id: u64,
    reply: StreamReply,
    writing: &mut Stream,
    data: &[u8],
    fin: bool,
    written: (Poll<Result<usize, WriteError>>, Option<StreamSend>),
    send: StreamSend,
    parts: Vec<&[u8]>,
)
    requires
        call_ensures(Stream::open, (stream_type,), fresh),
        *old(starting) == fresh,
        call_ensures(Stream::poll_start, (starting, cx, failed_on_block), start),
        *old(stream) == *final(starting),
        status.ok,
        call_ensures(
            Stream::handle_event,
            (stream, StreamEvent::StartComplete { status, id, peer_accepted: true }),
            reply,
        ),
        *old(writing) == *final(stream),
        call_ensures(Stream::poll_write, (writing, cx, data, fin), written),
        written.1 matches Some(sent) ==> sent == send,
        call_ensures(WriteBuffer::get_buffers, (&send.buffer,), parts),
    ensures
        start.0 is Pending,
        start.1 == Some(StreamStart { fail_blocked: failed_on_block }),
        reply.woken@.len() > 0,
        written.0 == Poll::Ready(Ok::<usize, WriteError>(data@.len() as usize)),
        written.1 is Some,
        joined(parts@) == data@,
        send.fin == fin,
{
    registered_is_listed(fresh@.start_waiters, *cx, final(starting)@.start_waiters);
    assert(reply.woken@ =~= final(starting)@.start_waiters);
    seq![data@].lemma_flatten_one_element();
}

/// Parts of a stream that are done with out of order are acknowledged together, once nothing before
/// them is missing: each byte once.
pub proof fn parts_done_out_of_order_are_acknowledged_together(
    stream_type: StreamType,
    fresh: Stream,
    stream: &mut Stream,
    second: &StreamRecvBuffer,
    second_len: usize,
    later: &mut Stream,
    first: &StreamRecvBuffer,
    first_len: usize,
)
    requires
        call_ensures(Stream::from_handle, (stream_type,), fresh),
        first.well_formed(),
        second.well_formed(),
        first@.offset == 0,
        first@.pieces.flatten().len() > 0,
        second@.offset == first@.pieces.flatten().len(),
        second@.pieces.flatten().len() > 0,
        *old(stream) == fresh,
        call_ensures(Stream::read_complete, (stream, second), second_len),
        *old(later) == *final(stream),
        call_ensures(Stream::read_complete, (later, first), first_len),
    ensures
        second_len == 0,
        first_len == first@.pieces.flatten().len() + second@.pieces.flatten().len(),
{
    let middle = first@.pieces.flatten().len();
    let end = middle + second@.pieces.flatten().len();
    second.well_formed_view();
    received_data_is_acknowledged(stream, second, second_len);
    received_data_is_acknowledged(later, first, first_len);
    let half = final(stream)@;
    let done = final(later)@;
    assert(!half.completed.contains(0usize));
    if half.read_complete_cursor > 0 {
        assert(half.completed.contains(0usize));
    }
    assert forall|byte: usize| #[trigger] done.completed.contains(byte) <==> byte < end by {
        assert(half.completed.contains(byte) <==> middle <= byte < end);
    }
    if done.read_complete_cursor > end {
        assert(done.completed.contains(end as usize));
    }
}

} // verus!
