//! What buffers promise.
use bytes::Bytes;

use vstd::prelude::*;

use crate::buffer::{
    bytes_data, chunk_at, chunk_is_prefix_of_unread, chunks_at, chunks_make_up_unread, Chunks,
    StreamRecvBuffer, WriteBuffer,
};
use crate::laws::stream::joined;

verus! {

/// The bytes of `pieces` from byte number `read` on.
pub open spec fn rest_of(pieces: Seq<Seq<u8>>, read: nat) -> Seq<u8> {
    pieces.flatten().skip(read as int)
}

/// `chunk` is what is left of one of `pieces` from byte number `read` on, up to where that piece
/// ends.
pub open spec fn ends_a_piece(pieces: Seq<Seq<u8>>, read: int, chunk: Seq<u8>) -> bool {
    exists|i: int|
        0 <= i < pieces.len() && chunk.len() <= pieces[i].len() && #[trigger] pieces.take(
            i + 1,
        ).flatten().len() == read + chunk.len()
}

/// A chunk ends where its piece ends.
proof fn chunk_ends_a_piece(pieces: Seq<Seq<u8>>, read: int)
    requires
        0 <= read < pieces.flatten().len(),
    ensures
        ends_a_piece(pieces, read, chunk_at(pieces, read)),
    decreases pieces.len(),
{
    let chunk = chunk_at(pieces, read);
    if pieces.len() == 0 {
        assert(pieces.flatten().len() == 0);
    } else {
        let rest = pieces.drop_first();
        assert(pieces.flatten() == pieces[0] + rest.flatten());
        if pieces[0].len() <= read {
            chunk_ends_a_piece(rest, read - pieces[0].len());
            let i = choose|i: int|
                0 <= i < rest.len() && chunk.len() <= rest[i].len() && #[trigger] rest.take(
                    i + 1,
                ).flatten().len() == read - pieces[0].len() + chunk.len();
            assert(pieces.take(i + 2).drop_first() =~= rest.take(i + 1));
            assert(pieces.take(i + 2).flatten() == pieces[0] + rest.take(i + 1).flatten());
            assert(pieces.take((i + 1) + 1).flatten().len() == read + chunk.len());
        } else {
            assert(pieces.take(1) =~= seq![pieces[0]]);
            seq![pieces[0]].lemma_flatten_one_element();
            assert(pieces.take(0int + 1).flatten().len() == read + chunk.len());
        }
    }
}

/// Taking the first parts takes the first bytes.
proof fn first_parts_are_first_bytes(parts: Seq<Seq<u8>>, count: int)
    requires
        0 <= count <= parts.len(),
    ensures
        parts.take(count).flatten().len() <= parts.flatten().len(),
        parts.take(count).flatten() == parts.flatten().take(
            parts.take(count).flatten().len() as int,
        ),
{
    assert(parts =~= parts.take(count) + parts.skip(count));
    vstd::seq_lib::lemma_flatten_concat(parts.take(count), parts.skip(count));
    assert(parts.take(count).flatten() =~= parts.flatten().take(
        parts.take(count).flatten().len() as int,
    ));
}

/// No part is empty.
proof fn no_chunk_is_empty(pieces: Seq<Seq<u8>>, read: int)
    requires
        0 <= read,
    ensures
        forall|i: int|
            0 <= i < chunks_at(pieces, read).len() ==> (#[trigger] chunks_at(pieces, read)[i]).len()
                > 0,
    decreases pieces.len(),
{
    if pieces.len() > 0 {
        let rest = pieces.drop_first();
        if pieces[0].len() <= read {
            no_chunk_is_empty(rest, read - pieces[0].len());
            assert(chunks_at(pieces, read) == chunks_at(rest, read - pieces[0].len()));
        } else {
            no_chunk_is_empty(rest, 0);
            let all = chunks_at(pieces, read);
            assert forall|i: int| 0 <= i < all.len() implies (#[trigger] all[i]).len() > 0 by {
                if i > 0 {
                    assert(all[i] == chunks_at(rest, 0)[i - 1]);
                }
            }
        }
    }
}

/// Bytes that are put into chunks are there, all of them and in order, and none of them is read.
pub proof fn all_bytes_are_there(
    buffers: Vec<Vec<u8>>,
    chunks: Chunks,
    len: usize,
    remaining: usize,
)
    requires
        call_ensures(Chunks::new, (buffers,), chunks),
        call_ensures(Chunks::len, (&chunks,), len),
        call_ensures(Chunks::remaining, (&chunks,), remaining),
    ensures
        chunks.well_formed(),
        rest_of(chunks@.pieces, chunks@.read) == buffers@.map_values(
            |piece: Vec<u8>| piece@,
        ).flatten(),
        chunks@.pieces == buffers@.map_values(|piece: Vec<u8>| piece@),
        chunks@.read == 0,
        len == rest_of(chunks@.pieces, chunks@.read).len(),
        remaining == len,
{
    assert(chunks@.pieces =~= buffers@.map_values(|piece: Vec<u8>| piece@));
    assert(chunks@.pieces.flatten().skip(0) =~= chunks@.pieces.flatten());
}

/// The next chunk is the next bytes up to the end of a piece, as long as any are left; what is
/// counted as read comes off the front of what is left, and nothing else changes.
pub proof fn chunks_are_read_from_the_front(
    chunks: &mut Chunks,
    chunk: &[u8],
    remaining: usize,
    count: usize,
    after: usize,
)
    requires
        old(chunks).well_formed(),
        call_ensures(Chunks::chunk, (&*old(chunks),), chunk),
        call_ensures(Chunks::remaining, (&*old(chunks),), remaining),
        count <= remaining,
        call_ensures(Chunks::advance, (chunks, count), ()),
        call_ensures(Chunks::remaining, (&*final(chunks),), after),
    ensures
        ({
            let unread = rest_of(old(chunks)@.pieces, old(chunks)@.read);
            &&& remaining == unread.len()
            &&& chunk@ == unread.take(chunk@.len() as int)
            &&& chunk@.len() <= unread.len()
            &&& chunk@.len() == 0 <==> unread.len() == 0
            &&& unread.len() > 0 ==> ends_a_piece(
                old(chunks)@.pieces,
                old(chunks)@.read as int,
                chunk@,
            )
            &&& final(chunks)@.pieces == old(chunks)@.pieces
            &&& rest_of(final(chunks)@.pieces, final(chunks)@.read) == unread.skip(count as int)
            &&& after == remaining - count
        }),
{
    let pieces = old(chunks)@.pieces;
    let read = old(chunks)@.read as int;
    old(chunks).well_formed_view();
    chunk_is_prefix_of_unread(pieces, read);
    let unread = rest_of(pieces, old(chunks)@.read);
    if read < pieces.flatten().len() {
        chunk_ends_a_piece(pieces, read);
    }
    assert(chunk@ =~= unread.take(chunk@.len() as int));
    assert(rest_of(pieces, final(chunks)@.read) =~= unread.skip(count as int));
}

/// Reading at most so many bytes hands out the next ones, as many as were asked for and are in the
/// next chunk, and counts just these as read.
pub proof fn bytes_are_read_once(
    chunks: &mut Chunks,
    chunk: &[u8],
    max_length: usize,
    bytes: Option<&[u8]>,
)
    requires
        old(chunks).well_formed(),
        call_ensures(Chunks::chunk, (&*old(chunks),), chunk),
        call_ensures(Chunks::get_bytes_upto_size, (chunks, max_length), bytes),
    ensures
        ({
            let unread = rest_of(old(chunks)@.pieces, old(chunks)@.read);
            &&& bytes is None <==> unread.len() == 0
            &&& bytes is None ==> final(chunks)@ == old(chunks)@
            &&& bytes matches Some(bytes) ==> {
                &&& bytes@ == unread.take(bytes@.len() as int)
                &&& bytes@.len() == if max_length < chunk@.len() {
                    max_length as nat
                } else {
                    chunk@.len()
                }
                &&& final(chunks)@.pieces == old(chunks)@.pieces
                &&& rest_of(final(chunks)@.pieces, final(chunks)@.read) == unread.skip(
                    bytes@.len() as int,
                )
            }
        }),
{
    let pieces = old(chunks)@.pieces;
    let read = old(chunks)@.read as int;
    old(chunks).well_formed_view();
    chunk_is_prefix_of_unread(pieces, read);
    let unread = rest_of(pieces, old(chunks)@.read);
    if let Some(bytes) = bytes {
        assert(bytes@ =~= unread.take(bytes@.len() as int));
        assert(rest_of(pieces, final(chunks)@.read) =~= unread.skip(bytes@.len() as int));
    }
}

/// The parts that are laid out are the next bytes, in order and without a gap: all of them where
/// there is room, else as many parts as there is room for. No part is empty, and what is not
/// needed is left alone.
pub proof fn parts_are_laid_out_in_order<'a>(
    chunks: &'a Chunks,
    dst: &mut [&'a [u8]],
    filled: usize,
)
    requires
        chunks.well_formed(),
        call_ensures(Chunks::chunks_vectored, (chunks, dst), filled),
    ensures
        ({
            let unread = rest_of(chunks@.pieces, chunks@.read);
            let laid_out = joined(final(dst)@.take(filled as int));
            &&& filled <= old(dst)@.len()
            &&& final(dst)@.len() == old(dst)@.len()
            &&& laid_out == unread.take(laid_out.len() as int)
            &&& laid_out.len() <= unread.len()
            &&& filled < old(dst)@.len() ==> laid_out == unread
            &&& forall|i: int| 0 <= i < filled ==> (#[trigger] final(dst)@[i])@.len() > 0
            &&& forall|i: int|
                filled <= i < old(dst)@.len() ==> #[trigger] final(dst)@[i] == old(dst)@[i]
        }),
{
    let parts = chunks@.chunks();
    let unread = rest_of(chunks@.pieces, chunks@.read);
    chunks.well_formed_view();
    chunks_make_up_unread(chunks@.pieces, chunks@.read as int);
    no_chunk_is_empty(chunks@.pieces, chunks@.read as int);
    first_parts_are_first_bytes(parts, filled as int);
    assert(final(dst)@.take(filled as int).map_values(|part: &[u8]| part@) =~= parts.take(
        filled as int,
    ));
    if filled < old(dst)@.len() {
        assert(parts.take(filled as int) =~= parts);
    }
}

/// A received buffer holds the bytes that arrived, tells whether the stream ends with them, and
/// covers the part of the stream that they are.
pub proof fn a_received_buffer_holds_what_arrived(
    offset: usize,
    buffers: Vec<Vec<u8>>,
    fin: bool,
    buffer: StreamRecvBuffer,
    remaining: usize,
    empty: bool,
    told_fin: bool,
    range: core::ops::Range<usize>,
)
    requires
        offset + buffers@.map_values(|piece: Vec<u8>| piece@).flatten().len() <= usize::MAX,
        call_ensures(StreamRecvBuffer::new, (offset, buffers, fin), buffer),
        call_ensures(StreamRecvBuffer::remaining, (&buffer,), remaining),
        call_ensures(StreamRecvBuffer::is_empty, (&buffer,), empty),
        call_ensures(StreamRecvBuffer::fin, (&buffer,), told_fin),
        call_ensures(StreamRecvBuffer::range, (&buffer,), range),
    ensures
        ({
            let arrived = buffers@.map_values(|piece: Vec<u8>| piece@).flatten();
            &&& buffer.well_formed()
            &&& buffer@.pieces == buffers@.map_values(|piece: Vec<u8>| piece@)
            &&& buffer@.offset == offset
            &&& buffer@.read == 0
            &&& buffer@.fin == fin
            &&& remaining == arrived.len()
            &&& empty <==> arrived.len() == 0
            &&& told_fin == fin
            &&& range.start == offset
            &&& range.end == offset + arrived.len()
        }),
{
    assert(buffer@.pieces =~= buffers@.map_values(|piece: Vec<u8>| piece@));
    assert(buffer@.pieces.flatten().skip(0) =~= buffer@.pieces.flatten());
}

/// A received buffer is read from the front like any chunks, and what it covers and whether the
/// stream ends with it do not change by reading.
pub proof fn a_received_buffer_is_read_from_the_front(
    buffer: &mut StreamRecvBuffer,
    chunk: &[u8],
    remaining: usize,
    count: usize,
    reading: &mut StreamRecvBuffer,
    max_length: usize,
    bytes: Option<&[u8]>,
)
    requires
        old(buffer).well_formed(),
        call_ensures(StreamRecvBuffer::chunk, (&*old(buffer),), chunk),
        call_ensures(StreamRecvBuffer::remaining, (&*old(buffer),), remaining),
        count <= remaining,
        call_ensures(StreamRecvBuffer::advance, (buffer, count), ()),
        *old(reading) == *old(buffer),
        call_ensures(StreamRecvBuffer::get_bytes_upto_size, (reading, max_length), bytes),
    ensures
        ({
            let before = old(buffer)@;
            let unread = rest_of(before.pieces, before.read);
            let counted = final(buffer)@;
            let read = final(reading)@;
            &&& remaining == unread.len()
            &&& chunk@ == unread.take(chunk@.len() as int)
            &&& chunk@.len() <= unread.len()
            &&& chunk@.len() == 0 <==> unread.len() == 0
            &&& unread.len() > 0 ==> ends_a_piece(before.pieces, before.read as int, chunk@)
            &&& counted.offset == before.offset && counted.pieces == before.pieces && counted.fin
                == before.fin
            &&& rest_of(counted.pieces, counted.read) == unread.skip(count as int)
            &&& bytes is None <==> unread.len() == 0
            &&& bytes is None ==> read == before
            &&& bytes matches Some(bytes) ==> {
                &&& bytes@ == unread.take(bytes@.len() as int)
                &&& bytes@.len() == if max_length < chunk@.len() {
                    max_length as nat
                } else {
                    chunk@.len()
                }
                &&& read.offset == before.offset && read.pieces == before.pieces && read.fin
                    == before.fin
                &&& rest_of(read.pieces, read.read) == unread.skip(bytes@.len() as int)
            }
        }),
{
    let pieces = old(buffer)@.pieces;
    let read = old(buffer)@.read as int;
    old(buffer).well_formed_view();
    chunk_is_prefix_of_unread(pieces, read);
    let unread = rest_of(pieces, old(buffer)@.read);
    if read < pieces.flatten().len() {
        chunk_ends_a_piece(pieces, read);
    }
    assert(chunk@ =~= unread.take(chunk@.len() as int));
    assert(rest_of(pieces, final(buffer)@.read) =~= unread.skip(count as int));
    if let Some(bytes) = bytes {
        assert(bytes@ =~= unread.take(bytes@.len() as int));
        assert(rest_of(pieces, final(reading)@.read) =~= unread.skip(bytes@.len() as int));
    }
}

/// The parts of a received buffer that are laid out are the next bytes, in order and without a gap.
pub proof fn parts_of_a_received_buffer_are_laid_out_in_order<'a>(
    buffer: &'a StreamRecvBuffer,
    dst: &mut [&'a [u8]],
    filled: usize,
)
    requires
        buffer.well_formed(),
        call_ensures(StreamRecvBuffer::chunks_vectored, (buffer, dst), filled),
    ensures
        ({
            let unread = rest_of(buffer@.pieces, buffer@.read);
            let laid_out = joined(final(dst)@.take(filled as int));
            &&& filled <= old(dst)@.len()
            &&& final(dst)@.len() == old(dst)@.len()
            &&& laid_out == unread.take(laid_out.len() as int)
            &&& laid_out.len() <= unread.len()
            &&& filled < old(dst)@.len() ==> laid_out == unread
            &&& forall|i: int| 0 <= i < filled ==> (#[trigger] final(dst)@[i])@.len() > 0
            &&& forall|i: int|
                filled <= i < old(dst)@.len() ==> #[trigger] final(dst)@[i] == old(dst)@[i]
        }),
{
    let parts = buffer@.chunks();
    buffer.well_formed_view();
    chunks_make_up_unread(buffer@.pieces, buffer@.read as int);
    no_chunk_is_empty(buffer@.pieces, buffer@.read as int);
    first_parts_are_first_bytes(parts, filled as int);
    assert(final(dst)@.take(filled as int).map_values(|part: &[u8]| part@) =~= parts.take(
        filled as int,
    ));
    if filled < old(dst)@.len() {
        assert(parts.take(filled as int) =~= parts);
    }
}

/// What is put into a buffer by copying is what MsQuic is handed, one after the other; nothing is
/// in a new buffer.
pub proof fn copied_bytes_are_handed_over(
    fresh: WriteBuffer,
    buffer: &mut WriteBuffer,
    first: &[u8],
    first_len: usize,
    later: &mut WriteBuffer,
    second: &[u8],
    second_len: usize,
    parts: Vec<&[u8]>,
)
    requires
        call_ensures(WriteBuffer::new, (), fresh),
        *old(buffer) == fresh,
        call_ensures(WriteBuffer::put_slice, (buffer, first), first_len),
        *old(later) == *final(buffer),
        call_ensures(WriteBuffer::put_slice, (later, second), second_len),
        call_ensures(WriteBuffer::get_buffers, (&*final(later),), parts),
    ensures
        first_len == first@.len(),
        second_len == second@.len(),
        joined(parts@) == first@ + second@,
{
    seq![first@ + second@].lemma_flatten_one_element();
    assert(final(later)@.internal =~= first@ + second@);
}

/// Chunks that are put into a buffer are handed to MsQuic as they are and in their order.
pub proof fn shared_chunks_are_handed_over(
    fresh: WriteBuffer,
    buffer: &mut WriteBuffer,
    first: &Bytes,
    first_len: usize,
    later: &mut WriteBuffer,
    second: &Bytes,
    second_len: usize,
    parts: Vec<&[u8]>,
)
    requires
        call_ensures(WriteBuffer::new, (), fresh),
        *old(buffer) == fresh,
        call_ensures(WriteBuffer::put_zerocopy, (buffer, first), first_len),
        *old(later) == *final(buffer),
        call_ensures(WriteBuffer::put_zerocopy, (later, second), second_len),
        call_ensures(WriteBuffer::get_buffers, (&*final(later),), parts),
    ensures
        first_len == bytes_data(*first).len(),
        second_len == bytes_data(*second).len(),
        parts@.len() == 2,
        parts@[0]@ == bytes_data(*first),
        parts@[1]@ == bytes_data(*second),
{
    let views = parts@.map_values(|part: &[u8]| part@);
    assert(views =~= seq![bytes_data(*first), bytes_data(*second)]);
    assert(views[0] == parts@[0]@);
    assert(views[1] == parts@[1]@);
}

/// What is put adds to what is there, and changes nothing of it.
pub proof fn what_is_put_is_added(
    buffer: &mut WriteBuffer,
    slice: &[u8],
    slice_len: usize,
    sharing: &mut WriteBuffer,
    chunk: &Bytes,
    chunk_len: usize,
)
    requires
        call_ensures(WriteBuffer::put_slice, (buffer, slice), slice_len),
        *old(sharing) == *old(buffer),
        call_ensures(WriteBuffer::put_zerocopy, (sharing, chunk), chunk_len),
    ensures
        final(buffer)@.internal == old(buffer)@.internal + slice@,
        final(buffer)@.zerocopy == old(buffer)@.zerocopy,
        final(sharing)@.internal == old(buffer)@.internal,
        final(sharing)@.zerocopy == old(buffer)@.zerocopy.push(bytes_data(*chunk)),
        slice_len == slice@.len(),
        chunk_len == bytes_data(*chunk).len(),
{
}

/// MsQuic is handed the shared chunks where there are any, else the copied bytes, as they are.
pub proof fn what_is_there_is_handed_over(buffer: &WriteBuffer, parts: Vec<&[u8]>)
    requires
        call_ensures(WriteBuffer::get_buffers, (buffer,), parts),
    ensures
        buffer@.zerocopy.len() == 0 ==> parts@.len() == 1 && parts@[0]@ == buffer@.internal,
        buffer@.zerocopy.len() > 0 ==> {
            &&& parts@.len() == buffer@.zerocopy.len()
            &&& forall|i: int|
                0 <= i < parts@.len() ==> (#[trigger] parts@[i])@ == buffer@.zerocopy[i]
        },
{
    let views = parts@.map_values(|part: &[u8]| part@);
    assert(views == buffer@.parts());
    assert(forall|i: int| 0 <= i < parts@.len() ==> views[i] == (#[trigger] parts@[i])@);
}

/// A buffer that was used is blank again after a reset: what is written with it next is not mixed
/// with what was written before.
pub proof fn a_reset_buffer_is_blank(
    buffer: &mut WriteBuffer,
    parts: Vec<&[u8]>,
    using: &mut WriteBuffer,
    slice: &[u8],
    len: usize,
    later_parts: Vec<&[u8]>,
)
    requires
        call_ensures(WriteBuffer::reset, (buffer,), ()),
        call_ensures(WriteBuffer::get_buffers, (&*final(buffer),), parts),
        *old(using) == *final(buffer),
        call_ensures(WriteBuffer::put_slice, (using, slice), len),
        call_ensures(WriteBuffer::get_buffers, (&*final(using),), later_parts),
    ensures
        joined(parts@).len() == 0,
        joined(later_parts@) == slice@,
        final(buffer)@.internal.len() == 0,
        final(buffer)@.zerocopy.len() == 0,
{
    let nothing: Seq<u8> = Seq::empty();
    seq![nothing].lemma_flatten_one_element();
    seq![slice@].lemma_flatten_one_element();
    assert(final(using)@.internal =~= slice@);
}

} // verus!
