//! Buffers that travel between the application and MsQuic.
use bytes::Bytes;

use vstd::prelude::*;

verus! {

/// `bytes::Bytes`, carried as an opaque value; [`bytes_data`] names its contents.
#[verifier::external_type_specification]
#[verifier::external_body]
pub struct ExBytes(bytes::Bytes);

/// The bytes that a `Bytes` holds.
pub uninterp spec fn bytes_data(bytes: Bytes) -> Seq<u8>;

/// `Bytes::len` returns the number of bytes held.
pub assume_specification[ Bytes::len ](bytes: &Bytes) -> (len: usize)
    ensures
        len == bytes_data(*bytes).len(),
;

/// `Bytes::clone` returns another handle to the same bytes.
pub assume_specification[ <Bytes as Clone>::clone ](bytes: &Bytes) -> (copy: Bytes)
    ensures
        bytes_data(copy) == bytes_data(*bytes),
;

/// `Bytes::copy_from_slice` returns a `Bytes` that holds a copy of the slice.
pub assume_specification[ Bytes::copy_from_slice ](data: &[u8]) -> (bytes: Bytes)
    ensures
        bytes_data(bytes) == data@,
;

/// `Bytes::deref` returns the bytes held, as a slice.
pub assume_specification[ <Bytes as core::ops::Deref>::deref ](bytes: &Bytes) -> (data: &[u8])
    ensures
        data@ == bytes_data(*bytes),
;

/// The views of a list of byte vectors.
pub open spec fn pieces_of(buffers: Seq<Vec<u8>>) -> Seq<Seq<u8>> {
    buffers.map_values(|buffer: Vec<u8>| buffer@)
}

/// What is left, from byte number `read` of the joined `pieces` on, of the piece which that byte
/// is in; empty once all of `pieces` is read.
pub open spec fn chunk_at(pieces: Seq<Seq<u8>>, read: int) -> Seq<u8>
    decreases pieces.len(),
{
    if pieces.len() == 0 {
        Seq::empty()
    } else if pieces[0].len() <= read {
        chunk_at(pieces.drop_first(), read - pieces[0].len())
    } else {
        pieces[0].skip(read)
    }
}

/// What is left, from byte number `read` of the joined `pieces` on, cut where the pieces end,
/// without empty parts.
pub open spec fn chunks_at(pieces: Seq<Seq<u8>>, read: int) -> Seq<Seq<u8>>
    decreases pieces.len(),
{
    if pieces.len() == 0 {
        Seq::empty()
    } else if pieces[0].len() <= read {
        chunks_at(pieces.drop_first(), read - pieces[0].len())
    } else {
        seq![pieces[0].skip(read)] + chunks_at(pieces.drop_first(), 0)
    }
}

/// The chunks make up what is unread, and the first of them is the next chunk.
pub proof fn chunks_make_up_unread(pieces: Seq<Seq<u8>>, read: int)
    requires
        0 <= read <= pieces.flatten().len(),
    ensures
        chunks_at(pieces, read).flatten() == pieces.flatten().skip(read),
        chunks_at(pieces, read).len() > 0 ==> chunks_at(pieces, read)[0] == chunk_at(pieces, read),
    decreases pieces.len(),
{
    if pieces.len() > 0 {
        let rest = pieces.drop_first();
        assert(pieces.flatten() == pieces[0] + rest.flatten());
        if pieces[0].len() <= read {
            chunks_make_up_unread(rest, read - pieces[0].len());
            assert(rest.flatten().skip(read - pieces[0].len()) =~= pieces.flatten().skip(read));
        } else {
            chunks_make_up_unread(rest, 0);
            let first = seq![pieces[0].skip(read)];
            first.lemma_flatten_one_element();
            vstd::seq_lib::lemma_flatten_concat(first, chunks_at(rest, 0));
            assert(pieces[0].skip(read) + rest.flatten().skip(0) =~= pieces.flatten().skip(read));
        }
    } else {
        assert(pieces.flatten().skip(read) =~= Seq::empty());
    }
}

/// There are chunks as long as something is unread, and reading the next chunk leaves the others.
pub proof fn reading_a_chunk_leaves_the_others(pieces: Seq<Seq<u8>>, read: int)
    requires
        0 <= read <= pieces.flatten().len(),
    ensures
        chunks_at(pieces, read).len() == 0 <==> read == pieces.flatten().len(),
        read < pieces.flatten().len() ==> {
            &&& chunks_at(pieces, read)[0] == chunk_at(pieces, read)
            &&& chunks_at(pieces, read + chunk_at(pieces, read).len()) == chunks_at(
                pieces,
                read,
            ).drop_first()
        },
    decreases pieces.len(),
{
    if pieces.len() > 0 {
        let rest = pieces.drop_first();
        assert(pieces.flatten() == pieces[0] + rest.flatten());
        if pieces[0].len() <= read {
            reading_a_chunk_leaves_the_others(rest, read - pieces[0].len());
        } else {
            assert(chunks_at(pieces, read).drop_first() =~= chunks_at(rest, 0));
        }
    }
}

/// A chunk is a prefix of what is unread, and it is empty only where nothing is left.
pub proof fn chunk_is_prefix_of_unread(pieces: Seq<Seq<u8>>, read: int)
    requires
        0 <= read <= pieces.flatten().len(),
    ensures
        chunk_at(pieces, read).len() <= pieces.flatten().len() - read,
        chunk_at(pieces, read) == pieces.flatten().subrange(
            read,
            read + chunk_at(pieces, read).len(),
        ),
        chunk_at(pieces, read).len() == 0 <==> read == pieces.flatten().len(),
    decreases pieces.len(),
{
    if pieces.len() > 0 {
        let rest = pieces.drop_first();
        assert(pieces.flatten() == pieces[0] + rest.flatten());
        if pieces[0].len() <= read {
            chunk_is_prefix_of_unread(rest, read - pieces[0].len());
            assert(chunk_at(pieces, read) =~= pieces.flatten().subrange(
                read,
                read + chunk_at(pieces, read).len(),
            ));
        } else {
            assert(chunk_at(pieces, read) =~= pieces.flatten().subrange(
                read,
                read + chunk_at(pieces, read).len(),
            ));
        }
    } else {
        assert(chunk_at(pieces, read) =~= pieces.flatten().subrange(read, read));
    }
}

/// Skipping whole pieces off the front does not change the chunk.
proof fn chunk_skips_read_pieces(pieces: Seq<Seq<u8>>, read: int, i: int)
    requires
        0 <= i <= pieces.len(),
        pieces.take(i).flatten().len() <= read,
    ensures
        chunk_at(pieces, read) == chunk_at(
            pieces.skip(i),
            read - pieces.take(i).flatten().len(),
        ),
    decreases i,
{
    if i == 0 {
        assert(pieces.skip(0) =~= pieces);
        assert(pieces.take(0).flatten().len() == 0);
    } else {
        let rest = pieces.drop_first();
        assert(pieces.take(i).drop_first() =~= rest.take(i - 1));
        assert(pieces.take(i).flatten() == pieces[0] + rest.take(i - 1).flatten());
        chunk_skips_read_pieces(rest, read - pieces[0].len(), i - 1);
        assert(rest.skip(i - 1) =~= pieces.skip(i));
    }
}

/// Taking one more piece adds its length to the joined length, which stays within the whole.
pub proof fn taking_one_more_piece(pieces: Seq<Seq<u8>>, i: int)
    requires
        0 <= i < pieces.len(),
    ensures
        pieces.take(i + 1).flatten() == pieces.take(i).flatten() + pieces[i],
        pieces.take(i + 1).flatten().len() <= pieces.flatten().len(),
{
    assert(pieces.take(i + 1).drop_last() =~= pieces.take(i));
    pieces.take(i + 1).lemma_flatten_and_flatten_alt_are_equivalent();
    pieces.take(i).lemma_flatten_and_flatten_alt_are_equivalent();
    assert(pieces =~= pieces.take(i + 1) + pieces.skip(i + 1));
    vstd::seq_lib::lemma_flatten_concat(pieces.take(i + 1), pieces.skip(i + 1));
}

/// Bytes in pieces, of which some were read.
pub struct Chunks {
    buffers: Vec<Vec<u8>>,
    total_length: usize,
    read: usize,
}

/// What a [`Chunks`] holds.
#[verifier::ext_equal]
pub struct ChunksView {
    pub pieces: Seq<Seq<u8>>,
    /// How many bytes were read.
    pub read: nat,
}

impl ChunksView {
    /// All bytes.
    pub open spec fn data(self) -> Seq<u8> {
        self.pieces.flatten()
    }

    /// The bytes that were not read yet.
    pub open spec fn unread(self) -> Seq<u8> {
        self.data().skip(self.read as int)
    }

    /// The next contiguous part of the unread bytes.
    pub open spec fn chunk(self) -> Seq<u8> {
        chunk_at(self.pieces, self.read as int)
    }

    /// The contiguous parts of the unread bytes, in order.
    pub open spec fn chunks(self) -> Seq<Seq<u8>> {
        chunks_at(self.pieces, self.read as int)
    }
}

impl View for Chunks {
    type V = ChunksView;

    closed spec fn view(&self) -> ChunksView {
        ChunksView { pieces: pieces_of(self.buffers@), read: self.read as nat }
    }
}

impl Chunks {
    /// No more was read than there is.
    pub closed spec fn well_formed(&self) -> bool {
        &&& self@.read <= self@.data().len()
        &&& self.total_length == self@.data().len()
    }

    /// What is consistent is so for its view.
    pub proof fn well_formed_view(&self)
        requires
            self.well_formed(),
        ensures
            self@.read <= self@.data().len() <= usize::MAX,
    {
    }

    /// Bytes in the given pieces, none of them read.
    pub fn new(buffers: Vec<Vec<u8>>) -> (chunks: Self)
        requires
            pieces_of(buffers@).flatten().len() <= usize::MAX,
        ensures
            chunks.well_formed(),
            chunks@ == (ChunksView { pieces: pieces_of(buffers@), read: 0 }),
    {
        let ghost pieces = pieces_of(buffers@);
        let mut total_length: usize = 0;
        let mut i: usize = 0;
        assert(pieces.take(0).flatten().len() == 0);
        while i < buffers.len()
            invariant
                i <= buffers.len(),
                pieces == pieces_of(buffers@),
                pieces.flatten().len() <= usize::MAX,
                total_length == pieces.take(i as int).flatten().len(),
            decreases buffers.len() - i,
        {
            proof {
                taking_one_more_piece(pieces, i as int);
            }
            total_length += buffers[i].len();
            i += 1;
        }
        assert(pieces.take(i as int) =~= pieces);
        Chunks { buffers, total_length, read: 0 }
    }

    /// How many bytes there are, read or not.
    pub fn len(&self) -> (len: usize)
        requires
            self.well_formed(),
        ensures
            len == self@.data().len(),
    {
        self.total_length
    }

    /// How many bytes are unread.
    pub fn remaining(&self) -> (remaining: usize)
        requires
            self.well_formed(),
        ensures
            remaining == self@.unread().len(),
    {
        self.total_length - self.read
    }

    /// What is left, from byte number `read` on, of the piece which that byte is in.
    fn chunk_from(&self, read: usize) -> (chunk: &[u8])
        requires
            self.well_formed(),
        ensures
            chunk@ == chunk_at(self@.pieces, read as int),
    {
        let ghost pieces = self@.pieces;
        let mut skip: usize = read;
        let mut i: usize = 0;
        assert(pieces.take(0).flatten().len() == 0);
        while i < self.buffers.len()
            invariant
                i <= self.buffers.len(),
                pieces == pieces_of(self.buffers@),
                pieces.take(i as int).flatten().len() + skip == read,
            decreases self.buffers.len() - i,
        {
            let buffer = &self.buffers[i];
            proof {
                taking_one_more_piece(pieces, i as int);
                chunk_skips_read_pieces(pieces, read as int, i as int);
            }
            if buffer.len() <= skip {
                skip -= buffer.len();
                i += 1;
                continue ;
            }
            assert(pieces.skip(i as int)[0] == buffer@);
            return vstd::slice::slice_subrange(buffer.as_slice(), skip, buffer.len());
        }
        proof {
            chunk_skips_read_pieces(pieces, read as int, i as int);
            assert(pieces.skip(i as int).len() == 0);
        }
        &[]
    }

    /// The next contiguous part of the unread bytes.
    pub fn chunk(&self) -> (chunk: &[u8])
        requires
            self.well_formed(),
        ensures
            chunk@ == self@.chunk(),
    {
        self.chunk_from(self.read)
    }

    /// Count `count` bytes of the unread bytes as read.
    pub fn advance(&mut self, count: usize)
        requires
            old(self).well_formed(),
            count <= old(self)@.unread().len(),
        ensures
            final(self).well_formed(),
            final(self)@ == (ChunksView {
                read: (old(self)@.read + count) as nat,
                ..old(self)@
            }),
    {
        self.read += count;
    }

    /// Read at most `max_length` bytes of the next contiguous part of the unread bytes; `None`
    /// once all of them are read.
    pub fn get_bytes_upto_size(&mut self, max_length: usize) -> (bytes: Option<&[u8]>)
        requires
            old(self).well_formed(),
        ensures
            final(self).well_formed(),
            bytes is None <==> old(self)@.read == old(self)@.data().len(),
            bytes is None ==> final(self)@ == old(self)@,
            bytes matches Some(bytes) ==> {
                &&& bytes@ == old(self)@.chunk().take(bytes@.len() as int)
                &&& bytes@.len() == if max_length < old(self)@.chunk().len() {
                    max_length as nat
                } else {
                    old(self)@.chunk().len()
                }
                &&& final(self)@ == (ChunksView {
                    read: old(self)@.read + bytes@.len(),
                    ..old(self)@
                })
            },
    {
        let available: usize = self.chunk().len();
        proof {
            chunk_is_prefix_of_unread(self@.pieces, self@.read as int);
        }
        if available == 0 {
            return None;
        }
        let len: usize = if max_length < available {
            max_length
        } else {
            available
        };
        let before: usize = self.read;
        self.read = before + len;
        Some(vstd::slice::slice_subrange(self.chunk_from(before), 0, len))
    }

    /// Lay out the unread bytes in `dst`, one contiguous part after the other, as far as `dst` has
    /// room. Returns how many parts were laid out.
    pub fn chunks_vectored<'a>(&'a self, dst: &mut [&'a [u8]]) -> (filled: usize)
        requires
            self.well_formed(),
        ensures
            final(dst)@.len() == old(dst)@.len(),
            filled == if self@.chunks().len() < old(dst)@.len() {
                self@.chunks().len()
            } else {
                old(dst)@.len()
            },
            forall|i: int| 0 <= i < filled ==> (#[trigger] final(dst)@[i])@ == self@.chunks()[i],
            forall|i: int|
                filled <= i < old(dst)@.len() ==> #[trigger] final(dst)@[i] == old(dst)@[i],
    {
        let ghost pieces = self@.pieces;
        let mut skip: usize = self.read;
        let mut i: usize = 0;
        let mut filled: usize = 0;
        assert(pieces.skip(0) =~= pieces);
        while i < self.buffers.len() && filled < dst.len()
            invariant
                i <= self.buffers.len(),
                filled <= dst@.len(),
                dst@.len() == old(dst)@.len(),
                pieces == pieces_of(self.buffers@),
                filled + chunks_at(pieces.skip(i as int), skip as int).len()
                    == self@.chunks().len(),
                forall|j: int|
                    filled <= j < self@.chunks().len() ==> #[trigger] self@.chunks()[j]
                        == chunks_at(pieces.skip(i as int), skip as int)[j - filled],
                forall|j: int| 0 <= j < filled ==> (#[trigger] dst@[j])@ == self@.chunks()[j],
                forall|j: int|
                    filled <= j < old(dst)@.len() ==> #[trigger] dst@[j] == old(dst)@[j],
            decreases self.buffers.len() - i,
        {
            let buffer = &self.buffers[i];
            assert(pieces.skip(i as int)[0] == buffer@);
            assert(pieces.skip(i as int).drop_first() =~= pieces.skip(i + 1));
            if buffer.len() <= skip {
                skip -= buffer.len();
            } else {
                dst[filled] = vstd::slice::slice_subrange(buffer.as_slice(), skip, buffer.len());
                assert(self@.chunks()[filled as int] == dst@[filled as int]@);
                filled += 1;
                skip = 0;
            }
            i += 1;
        }
        assert(pieces.skip(pieces.len() as int).len() == 0);
        filled
    }
}

/// Data received on a stream, in the pieces that MsQuic indicated it in.
pub struct StreamRecvBuffer {
    offset: usize,
    chunks: Chunks,
    fin: bool,
}

/// What a [`StreamRecvBuffer`] holds.
#[verifier::ext_equal]
pub struct RecvBufferView {
    /// Where the data starts in the stream.
    pub offset: nat,
    pub pieces: Seq<Seq<u8>>,
    /// How much of the data was read.
    pub read: nat,
    /// Whether the stream ends with this data.
    pub fin: bool,
}

impl RecvBufferView {
    /// All data of the buffer.
    pub open spec fn data(self) -> Seq<u8> {
        self.pieces.flatten()
    }

    /// The data that was not read yet.
    pub open spec fn unread(self) -> Seq<u8> {
        self.data().skip(self.read as int)
    }

    /// The next contiguous part of the unread data.
    pub open spec fn chunk(self) -> Seq<u8> {
        chunk_at(self.pieces, self.read as int)
    }

    /// The contiguous parts of the unread data, in order.
    pub open spec fn chunks(self) -> Seq<Seq<u8>> {
        chunks_at(self.pieces, self.read as int)
    }

    /// No more was read than there is, and the end of the data has an offset in the stream.
    pub open spec fn well_formed(self) -> bool {
        &&& self.read <= self.data().len()
        &&& self.offset + self.data().len() <= usize::MAX
    }
}

impl View for StreamRecvBuffer {
    type V = RecvBufferView;

    closed spec fn view(&self) -> RecvBufferView {
        RecvBufferView {
            offset: self.offset as nat,
            pieces: self.chunks@.pieces,
            read: self.chunks@.read,
            fin: self.fin,
        }
    }
}

impl StreamRecvBuffer {
    /// The buffer is consistent.
    pub closed spec fn well_formed(&self) -> bool {
        &&& self@.well_formed()
        &&& self.chunks.well_formed()
    }

    /// A consistent buffer has a consistent view.
    pub proof fn well_formed_view(&self)
        requires
            self.well_formed(),
        ensures
            self@.well_formed(),
    {
    }

    /// Data that starts at `offset` of the stream; `fin` tells that the stream ends with it.
    pub fn new(offset: usize, buffers: Vec<Vec<u8>>, fin: bool) -> (buffer: Self)
        requires
            offset + pieces_of(buffers@).flatten().len() <= usize::MAX,
        ensures
            buffer.well_formed(),
            buffer@ == (RecvBufferView {
                offset: offset as nat,
                pieces: pieces_of(buffers@),
                read: 0,
                fin,
            }),
    {
        StreamRecvBuffer { offset, chunks: Chunks::new(buffers), fin }
    }

    /// How much of the data is unread.
    pub fn remaining(&self) -> (remaining: usize)
        requires
            self.well_formed(),
        ensures
            remaining == self@.unread().len(),
    {
        self.chunks.remaining()
    }

    /// Whether the buffer was received with no data at all.
    pub fn is_empty(&self) -> (empty: bool)
        requires
            self.well_formed(),
        ensures
            empty == (self@.data().len() == 0),
    {
        self.chunks.len() == 0
    }

    /// Whether the stream ends with this data.
    pub fn fin(&self) -> (fin: bool)
        ensures
            fin == self@.fin,
    {
        self.fin
    }

    /// The part of the stream that the data covers, read or not.
    pub fn range(&self) -> (range: core::ops::Range<usize>)
        requires
            self.well_formed(),
        ensures
            range.start == self@.offset,
            range.end == self@.offset + self@.data().len(),
    {
        self.offset..self.offset + self.chunks.len()
    }

    /// The next contiguous part of the unread data.
    pub fn chunk(&self) -> (chunk: &[u8])
        requires
            self.well_formed(),
        ensures
            chunk@ == self@.chunk(),
    {
        self.chunks.chunk()
    }

    /// Count `count` bytes of the unread data as read.
    pub fn advance(&mut self, count: usize)
        requires
            old(self).well_formed(),
            count <= old(self)@.unread().len(),
        ensures
            final(self).well_formed(),
            final(self)@ == (RecvBufferView {
                read: (old(self)@.read + count) as nat,
                ..old(self)@
            }),
    {
        self.chunks.advance(count)
    }

    /// Read at most `max_length` bytes of the next contiguous part of the unread data; `None`
    /// once all data is read.
    pub fn get_bytes_upto_size(&mut self, max_length: usize) -> (bytes: Option<&[u8]>)
        requires
            old(self).well_formed(),
        ensures
            final(self).well_formed(),
            bytes is None <==> old(self)@.read == old(self)@.data().len(),
            bytes is None ==> final(self)@ == old(self)@,
            bytes matches Some(bytes) ==> {
                &&& bytes@ == old(self)@.chunk().take(bytes@.len() as int)
                &&& bytes@.len() == if max_length < old(self)@.chunk().len() {
                    max_length as nat
                } else {
                    old(self)@.chunk().len()
                }
                &&& final(self)@ == (RecvBufferView {
                    read: old(self)@.read + bytes@.len(),
                    ..old(self)@
                })
            },
    {
        proof {
            chunk_is_prefix_of_unread(self@.pieces, self@.read as int);
        }
        self.chunks.get_bytes_upto_size(max_length)
    }

    /// Lay out the unread data in `dst`, one contiguous part after the other, as far as `dst` has
    /// room. Returns how many parts were laid out.
    pub fn chunks_vectored<'a>(&'a self, dst: &mut [&'a [u8]]) -> (filled: usize)
        requires
            self.well_formed(),
        ensures
            final(dst)@.len() == old(dst)@.len(),
            filled == if self@.chunks().len() < old(dst)@.len() {
                self@.chunks().len()
            } else {
                old(dst)@.len()
            },
            forall|i: int| 0 <= i < filled ==> (#[trigger] final(dst)@[i])@ == self@.chunks()[i],
            forall|i: int|
                filled <= i < old(dst)@.len() ==> #[trigger] final(dst)@[i] == old(dst)@[i],
    {
        self.chunks.chunks_vectored(dst)
    }
}

/// The contents of a list of `Bytes`.
pub open spec fn contents_of(chunks: Seq<Bytes>) -> Seq<Seq<u8>> {
    chunks.map_values(|chunk: Bytes| bytes_data(chunk))
}

/// Data on its way to MsQuic. It holds bytes of its own, and chunks that it shares with whoever
/// wrote them.
pub struct WriteBuffer {
    internal: Vec<u8>,
    zerocopy: Vec<Bytes>,
}

/// What a [`WriteBuffer`] holds.
#[verifier::ext_equal]
pub struct WriteBufferView {
    pub internal: Seq<u8>,
    pub zerocopy: Seq<Seq<u8>>,
}

impl WriteBufferView {
    /// Nothing was put.
    pub open spec fn blank() -> WriteBufferView {
        WriteBufferView { internal: Seq::empty(), zerocopy: Seq::empty() }
    }

    /// The buffers to hand to MsQuic: the shared chunks where there are any, else the own bytes.
    pub open spec fn parts(self) -> Seq<Seq<u8>> {
        if self.zerocopy.len() > 0 {
            self.zerocopy
        } else {
            seq![self.internal]
        }
    }
}

impl View for WriteBuffer {
    type V = WriteBufferView;

    closed spec fn view(&self) -> WriteBufferView {
        WriteBufferView { internal: self.internal@, zerocopy: contents_of(self.zerocopy@) }
    }
}

impl WriteBuffer {
    /// A buffer with nothing in it.
    pub fn new() -> (buffer: Self)
        ensures
            buffer@ == WriteBufferView::blank(),
    {
        let buffer = WriteBuffer { internal: Vec::new(), zerocopy: Vec::new() };
        assert(buffer@.zerocopy =~= Seq::empty());
        buffer
    }

    /// Add `buf` as a chunk, without copying it. Returns its length.
    pub fn put_zerocopy(&mut self, buf: &Bytes) -> (written: usize)
        ensures
            final(self)@ == (WriteBufferView {
                zerocopy: old(self)@.zerocopy.push(bytes_data(*buf)),
                ..old(self)@
            }),
            written == bytes_data(*buf).len(),
    {
        self.zerocopy.push(buf.clone());
        assert(self@.zerocopy =~= old(self)@.zerocopy.push(bytes_data(*buf)));
        buf.len()
    }

    /// Add a copy of `slice` to the own bytes. Returns its length.
    pub fn put_slice(&mut self, slice: &[u8]) -> (written: usize)
        ensures
            final(self)@ == (WriteBufferView {
                internal: old(self)@.internal + slice@,
                ..old(self)@
            }),
            written == slice@.len(),
    {
        self.internal.extend_from_slice(slice);
        assert(self.internal@ =~= old(self)@.internal + slice@);
        slice.len()
    }

    /// The buffers to hand to MsQuic.
    pub fn get_buffers(&self) -> (parts: Vec<&[u8]>)
        ensures
            parts@.map_values(|part: &[u8]| part@) == self@.parts(),
    {
        let mut parts: Vec<&[u8]> = Vec::new();
        if self.zerocopy.len() > 0 {
            let mut i: usize = 0;
            while i < self.zerocopy.len()
                invariant
                    i <= self.zerocopy.len(),
                    parts@.len() == i,
                    forall|j: int| 0 <= j < i ==> (#[trigger] parts@[j])@ == self@.zerocopy[j],
                decreases self.zerocopy.len() - i,
            {
                parts.push(core::ops::Deref::deref(&self.zerocopy[i]));
                i += 1;
            }
        } else {
            parts.push(self.internal.as_slice());
        }
        assert(parts@.map_values(|part: &[u8]| part@) =~= self@.parts());
        parts
    }

    /// Take everything out again.
    pub fn reset(&mut self)
        ensures
            final(self)@ == WriteBufferView::blank(),
    {
        self.internal.clear();
        self.zerocopy.clear();
        assert(self@.zerocopy =~= Seq::empty());
    }
}

} // verus!
