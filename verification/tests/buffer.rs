//! Buffers.
use bytes::Bytes;

use msquic_async::buffer::{Chunks, StreamRecvBuffer, WriteBuffer};

#[test]
fn test_stream_recv_buffers() {
    let buffers = vec![b"hello ".to_vec(), b"world".to_vec(), b"!".to_vec()];
    let mut buffer = StreamRecvBuffer::new(0, buffers.clone(), false);
    assert_eq!(buffer.remaining(), 12);
    assert!(!buffer.fin());
    assert_eq!(buffer.get_bytes_upto_size(10), Some(&b"hello "[..]));
    assert_eq!(buffer.remaining(), 6);
    assert_eq!(buffer.get_bytes_upto_size(10), Some(&b"world"[..]));
    assert_eq!(buffer.remaining(), 1);
    assert_eq!(buffer.get_bytes_upto_size(10), Some(&b"!"[..]));
    assert_eq!(buffer.remaining(), 0);
    assert_eq!(buffer.get_bytes_upto_size(10), None);

    let mut buffer = StreamRecvBuffer::new(0, buffers.clone(), true);
    assert!(buffer.fin());
    assert_eq!(buffer.get_bytes_upto_size(3), Some(&b"hel"[..]));
    assert_eq!(buffer.remaining(), 9);
    assert_eq!(buffer.get_bytes_upto_size(10), Some(&b"lo "[..]));
    assert_eq!(buffer.remaining(), 6);
    assert_eq!(buffer.get_bytes_upto_size(3), Some(&b"wor"[..]));
    assert_eq!(buffer.remaining(), 3);
    assert_eq!(buffer.get_bytes_upto_size(1), Some(&b"l"[..]));
    assert_eq!(buffer.remaining(), 2);
    assert_eq!(buffer.get_bytes_upto_size(10), Some(&b"d"[..]));
    assert_eq!(buffer.remaining(), 1);
    assert_eq!(buffer.get_bytes_upto_size(10), Some(&b"!"[..]));
    assert_eq!(buffer.remaining(), 0);
    assert_eq!(buffer.get_bytes_upto_size(10), None);

    let mut buffer = StreamRecvBuffer::new(0, buffers.clone(), false);
    assert_eq!(buffer.chunk(), b"hello ");
    buffer.advance(3);
    assert_eq!(buffer.remaining(), 9);
    assert_eq!(buffer.chunk(), b"lo ");
    buffer.advance(3);
    assert_eq!(buffer.remaining(), 6);
    assert_eq!(buffer.chunk(), b"world");
    buffer.advance(6);
    assert_eq!(buffer.remaining(), 0);
    assert_eq!(buffer.chunk(), b"");

    let buffer = StreamRecvBuffer::new(0, buffers, false);
    let mut dst: [&[u8]; 3] = [&[]; 3];
    assert_eq!(buffer.chunks_vectored(&mut dst), 3);
    assert_eq!(dst[0].get(..), Some(&b"hello "[..]));
    assert_eq!(dst[1].get(..), Some(&b"world"[..]));
    assert_eq!(dst[2].get(..), Some(&b"!"[..]));
}

#[test]
fn empty_pieces_are_passed_over() {
    let pieces = vec![Vec::new(), b"ab".to_vec(), Vec::new(), b"c".to_vec(), Vec::new()];
    let mut buffer = StreamRecvBuffer::new(5, pieces, true);
    assert!(!buffer.is_empty());
    assert_eq!(buffer.range(), 5..8);
    let mut dst: [&[u8]; 4] = [b"x"; 4];
    assert_eq!(buffer.chunks_vectored(&mut dst), 2);
    assert_eq!(dst, [&b"ab"[..], &b"c"[..], &b"x"[..], &b"x"[..]]);
    buffer.advance(1);
    let mut short: [&[u8]; 1] = [b""; 1];
    assert_eq!(buffer.chunks_vectored(&mut short), 1);
    assert_eq!(short[0], b"b");
    buffer.advance(1);
    assert_eq!(buffer.chunk(), b"c");
    assert_eq!(buffer.range(), 5..8, "reading does not move the range");
}

#[test]
fn a_buffer_without_data_is_empty() {
    let mut buffer = StreamRecvBuffer::new(11, vec![Vec::new()], true);
    assert!(buffer.is_empty() && buffer.fin());
    assert_eq!(buffer.range(), 11..11);
    assert_eq!(buffer.get_bytes_upto_size(1), None);
    assert_eq!(buffer.remaining(), 0);
}

#[test]
fn chunks_make_up_what_is_unread() {
    let mut chunks = Chunks::new(vec![b"abc".to_vec(), b"de".to_vec()]);
    assert_eq!(chunks.len(), 5);
    chunks.advance(1);
    let mut dst: [&[u8]; 2] = [b""; 2];
    assert_eq!(chunks.chunks_vectored(&mut dst), 2);
    assert_eq!(dst.concat(), b"bcde");
    assert_eq!(chunks.get_bytes_upto_size(0), Some(&b""[..]));
    assert_eq!(chunks.remaining(), 4);
    assert_eq!(chunks.len(), 5);
}

#[test]
fn write_buffers_hand_out_what_was_put() {
    let mut buffer = WriteBuffer::new();
    assert_eq!(buffer.get_buffers(), vec![&b""[..]]);
    assert_eq!(buffer.put_slice(b"hello"), 5);
    assert_eq!(buffer.put_slice(b" world"), 6);
    assert_eq!(buffer.get_buffers(), vec![&b"hello world"[..]]);

    assert_eq!(buffer.put_zerocopy(&Bytes::from("one")), 3);
    assert_eq!(buffer.put_zerocopy(&Bytes::from("three")), 5);
    assert_eq!(buffer.get_buffers(), vec![&b"one"[..], &b"three"[..]]);

    buffer.reset();
    assert_eq!(buffer.get_buffers(), vec![&b""[..]]);
}
