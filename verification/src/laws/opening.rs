//! What opening a stream promises, and asking for the statistics of paths.
use std::task::{Context, Poll};

use vstd::prelude::*;

use crate::connection::{
    Connection, ConnectionError, ConnectionState, OpenOutboundStream, OpenStep,
    PathStatisticsQuery, PathStatisticsStep,
};
use crate::laws::connection::waits_for_the_start;
use crate::laws::registered_is_listed;
use crate::status::Status;
use crate::stream::{StartError, StreamType};

verus! {

/// A stream is opened only while the connection is up, and only once; before that whoever wants it
/// waits for the start, and where that is in vain is told why.
pub proof fn a_stream_is_opened_while_up<S, T, F>(
    open: &mut OpenOutboundStream<S>,
    connection: &mut Connection<S, T, F>,
    cx: &Context<'_>,
    step: OpenStep,
    live: bool,
)
    requires
        call_ensures(OpenOutboundStream::<S>::is_live, (&*old(open),), live),
        call_ensures(OpenOutboundStream::<S>::poll_step::<T, F>, (open, connection, cx), step),
    ensures
        live <==> old(open).stream is Some || old(open).stream_type is Some,
        final(open).fail_on_blocked == old(open).fail_on_blocked,
        final(open).stream == old(open).stream,
        match old(connection)@.state {
            ConnectionState::Open => {
                &&& step == OpenStep::Fail(StartError::ConnectionNotStarted)
                &&& *final(open) == *old(open)
                &&& final(connection)@ == old(connection)@
            },
            ConnectionState::Connecting => {
                &&& step == OpenStep::Wait
                &&& *final(open) == *old(open)
                &&& waits_for_the_start(old(connection)@, *cx, final(connection)@)
            },
            ConnectionState::Connected => {
                &&& old(open).stream is Some ==> step == OpenStep::Start && *final(open) == *old(
                    open,
                )
                &&& old(open).stream is None ==> (old(open).stream_type matches Some(stream_type)
                    ==> step == OpenStep::Open(stream_type) && final(open).stream_type is None)
                &&& final(connection)@ == old(connection)@
            },
            _ => {
                &&& old(connection)@.error matches Some(error) ==> step == OpenStep::Fail(
                    StartError::ConnectionLost(error),
                )
                &&& *final(open) == *old(open)
                &&& final(connection)@ == old(connection)@
            },
        },
{
    if old(connection)@.state == ConnectionState::Connecting {
        registered_is_listed(
            old(connection)@.start_waiters,
            *cx,
            final(connection)@.start_waiters,
        );
    }
}

/// A stream that cannot be opened ends the wait for it with that error; one that is opened is kept.
/// What is wanted is told by whoever wants it, and does not change.
pub proof fn an_opened_stream_is_kept<S>(
    stream_type: StreamType,
    fail_on_blocked: bool,
    fresh: OpenOutboundStream<S>,
    open: &mut OpenOutboundStream<S>,
    opened: Result<S, StartError>,
    failed: Option<StartError>,
)
    requires
        call_ensures(OpenOutboundStream::<S>::new, (stream_type, fail_on_blocked), fresh),
        call_ensures(OpenOutboundStream::<S>::opened, (open, opened), failed),
    ensures
        fresh.stream_type == Some(stream_type),
        fresh.stream is None,
        fresh.fail_on_blocked == fail_on_blocked,
        final(open).stream_type == old(open).stream_type,
        final(open).fail_on_blocked == old(open).fail_on_blocked,
        opened matches Ok(stream) ==> failed is None && final(open).stream == Some(stream),
        opened matches Err(error) ==> failed == Some(error) && final(open).stream == old(
            open,
        ).stream,
{
}

/// The stream that was opened is the one that is handed out, once it is started and only then; an
/// error of the start is told as it is.
pub proof fn the_opened_stream_is_handed_out<S>(
    open: &mut OpenOutboundStream<S>,
    stream: S,
    failed: Option<StartError>,
    starting: &mut OpenOutboundStream<S>,
    outcome: Poll<Result<(), StartError>>,
    answer: Poll<Result<S, StartError>>,
)
    requires
        call_ensures(
            OpenOutboundStream::<S>::opened,
            (open, Ok::<S, StartError>(stream)),
            failed,
        ),
        *old(starting) == *final(open),
        call_ensures(OpenOutboundStream::<S>::started, (starting, outcome), answer),
    ensures
        final(starting).stream_type == old(open).stream_type,
        final(starting).fail_on_blocked == old(open).fail_on_blocked,
        match outcome {
            Poll::Ready(Ok(())) => {
                &&& answer == Poll::Ready(Ok::<S, StartError>(stream))
                &&& final(starting).stream is None
            },
            Poll::Ready(Err(error)) => {
                &&& answer == Poll::Ready(Err::<S, StartError>(error))
                &&& final(starting).stream == Some(stream)
            },
            Poll::Pending => answer is Pending && final(starting).stream == Some(stream),
        },
{
}

/// A query for statistics starts with room for four paths and is made four times at most. The room
/// that MsQuic is told of is that of whole entries.
pub proof fn a_query_has_room_for_whole_entries(
    entry_size: usize,
    fresh: PathStatisticsQuery,
    query: &PathStatisticsQuery,
    room: usize,
    bytes: u32,
)
    requires
        call_ensures(PathStatisticsQuery::new, (entry_size,), fresh),
        call_ensures(PathStatisticsQuery::room, (query,), room),
        call_ensures(PathStatisticsQuery::capacity_bytes, (query,), bytes),
    ensures
        fresh.entry_size() == entry_size,
        fresh.entries() == 4,
        fresh.attempts() == 4,
        room == query.entries(),
        bytes == query.entries() * query.entry_size(),
{
}

/// A query that succeeded tells of the entries that were filled in whole, and never of more than
/// there is room for. One that failed for want of room is made again with the room that MsQuic asks
/// for, as long as attempts are left; any other failure is told as it is.
pub proof fn a_query_is_answered(
    query: &mut PathStatisticsQuery,
    result: Result<(), Status>,
    length: u32,
    step: PathStatisticsStep,
)
    requires
        old(query).well_formed(),
        call_ensures(PathStatisticsQuery::answered, (query, result, length), step),
    ensures
        final(query).entry_size() == old(query).entry_size(),
        final(query).attempts() == old(query).attempts() - 1,
        ({
            let size = old(query).entry_size();
            let capacity = old(query).entries() * size;
            match result {
                Ok(()) => {
                    &&& step matches PathStatisticsStep::Done(count)
                    &&& count <= old(query).entries()
                    &&& count * size <= length
                    &&& length <= capacity ==> length < (count + 1) * size
                    &&& length > capacity ==> count == old(query).entries()
                    &&& final(query).entries() == old(query).entries()
                },
                Err(status) => {
                    let grows = length > capacity;
                    &&& step == if grows && old(query).attempts() > 1 {
                        PathStatisticsStep::Retry
                    } else {
                        PathStatisticsStep::Fail(ConnectionError::OtherError(status))
                    }
                    &&& !grows ==> final(query).entries() == old(query).entries()
                    &&& grows ==> final(query).entries() * size <= length < (final(query).entries()
                        + 1) * size
                },
            }
        }),
{
    let size = old(query).entry_size() as int;
    let entries = old(query).entries() as int;
    let capacity = entries * size;
    vstd::arithmetic::div_mod::lemma_fundamental_div_mod(length as int, size);
    vstd::arithmetic::div_mod::lemma_mod_bound(length as int, size);
    vstd::arithmetic::div_mod::lemma_div_multiples_vanish(entries, size);
    let count = length as int / size;
    assert(count * size <= length < (count + 1) * size) by (nonlinear_arith)
        requires
            length == size * count + length as int % size,
            0 <= length as int % size < size,
    ;
    if length <= capacity {
        vstd::arithmetic::div_mod::lemma_div_is_ordered(length as int, capacity, size);
    }
    assert(entries * size / size == entries);
    assert(size > 0 && capacity == entries * size);
}

} // verus!
