//! Wire codec for the UDP echo protocol: a fixed 20-byte datagram holding a
//! 4-byte magic prefix, a big-endian 64-bit sequence number, and a big-endian
//! 64-bit sender-relative timestamp in microseconds.

use vstd::prelude::*;

verus! {

/// First magic byte, ASCII 'P'.
pub const MAGIC0: u8 = 0x50;
/// Second magic byte, ASCII 'I'.
pub const MAGIC1: u8 = 0x49;
/// Third magic byte, ASCII 'N'.
pub const MAGIC2: u8 = 0x4e;
/// Fourth magic byte, ASCII 'G'.
pub const MAGIC3: u8 = 0x47;

/// Length in bytes of an encoded datagram.
pub const PACKET_LEN: usize = 20;

/// The 64-bit integer stored big-endian in the eight bytes of `b` starting at `off`.
pub open spec fn be_u64_at(b: Seq<u8>, off: int) -> u64 {
    (((b[off] as u64) << 56) | ((b[off + 1] as u64) << 48) | ((b[off + 2] as u64) << 40)
        | ((b[off + 3] as u64) << 32) | ((b[off + 4] as u64) << 24) | ((b[off + 5] as u64) << 16)
        | ((b[off + 6] as u64) << 8) | (b[off + 7] as u64))
}

/// The eight bytes of `v` in big-endian order.
pub open spec fn be_bytes_of(v: u64) -> Seq<u8> {
    seq![
        (v >> 56) as u8,
        (v >> 48) as u8,
        (v >> 40) as u8,
        (v >> 32) as u8,
        (v >> 24) as u8,
        (v >> 16) as u8,
        (v >> 8) as u8,
        v as u8,
    ]
}

/// Whether `b` begins with the four magic bytes "PING".
pub open spec fn has_magic(b: Seq<u8>) -> bool {
    &&& b.len() >= 4
    &&& b[0] == MAGIC0
    &&& b[1] == MAGIC1
    &&& b[2] == MAGIC2
    &&& b[3] == MAGIC3
}

/// The encoded datagram carrying `seq` and `timestamp_us`.
pub open spec fn encode_spec(seq: u64, timestamp_us: u64) -> Seq<u8> {
    seq![MAGIC0, MAGIC1, MAGIC2, MAGIC3] + be_bytes_of(seq) + be_bytes_of(timestamp_us)
}

/// What decoding `b` yields: the sequence number and timestamp of a
/// well-formed datagram, or nothing for a short or foreign packet.
pub open spec fn decode_spec(b: Seq<u8>) -> Option<(u64, u64)> {
    if b.len() >= PACKET_LEN && has_magic(b) {
        Some((be_u64_at(b, 4), be_u64_at(b, 12)))
    } else {
        None
    }
}

/// Encode `seq` and `timestamp_us` into a 20-byte datagram. Total: every pair
/// of inputs yields exactly the datagram `encode_spec` describes.
pub fn encode_packet(seq: u64, timestamp_us: u64) -> (r: Vec<u8>)
    ensures
        r@ == encode_spec(seq, timestamp_us),
        r@.len() == PACKET_LEN,
{
    let mut buf: Vec<u8> = Vec::with_capacity(PACKET_LEN);
    buf.push(MAGIC0);
    buf.push(MAGIC1);
    buf.push(MAGIC2);
    buf.push(MAGIC3);
    push_be_u64(&mut buf, seq);
    push_be_u64(&mut buf, timestamp_us);
    proof {
        assert(buf@ =~= encode_spec(seq, timestamp_us));
    }
    buf
}

/// Append the eight big-endian bytes of `v` to `buf`.
fn push_be_u64(buf: &mut Vec<u8>, v: u64)
    ensures
        final(buf)@ == old(buf)@ + be_bytes_of(v),
{
    buf.push((v >> 56) as u8);
    buf.push((v >> 48) as u8);
    buf.push((v >> 40) as u8);
    buf.push((v >> 32) as u8);
    buf.push((v >> 24) as u8);
    buf.push((v >> 16) as u8);
    buf.push((v >> 8) as u8);
    buf.push(v as u8);
    proof {
        assert(buf@ =~= old(buf)@ + be_bytes_of(v));
    }
}

/// Decode a received buffer. Returns the sequence number and timestamp of a
/// well-formed datagram; a buffer shorter than 20 bytes or one whose first
/// four bytes are not the magic is rejected with `None`.
pub fn decode_packet(buf: &[u8]) -> (r: Option<(u64, u64)>)
    ensures
        r == decode_spec(buf@),
        buf@.len() < PACKET_LEN ==> r is None,
        !has_magic(buf@) ==> r is None,
{
    if buf.len() < PACKET_LEN {
        return None;
    }
    if !(buf[0] == MAGIC0 && buf[1] == MAGIC1 && buf[2] == MAGIC2 && buf[3] == MAGIC3) {
        return None;
    }
    let seq = read_be_u64(buf, 4);
    let timestamp_us = read_be_u64(buf, 12);
    Some((seq, timestamp_us))
}

/// Read the big-endian 64-bit integer at `off` in `buf`.
fn read_be_u64(buf: &[u8], off: usize) -> (r: u64)
    requires
        off + 8 <= buf@.len(),
    ensures
        r == be_u64_at(buf@, off as int),
{
    ((buf[off] as u64) << 56) | ((buf[off + 1] as u64) << 48) | ((buf[off + 2] as u64) << 40)
        | ((buf[off + 3] as u64) << 32) | ((buf[off + 4] as u64) << 24)
        | ((buf[off + 5] as u64) << 16) | ((buf[off + 6] as u64) << 8) | (buf[off + 7] as u64)
}

/// Reassembling the big-endian bytes of `v` gives back `v`.
proof fn lemma_be_round_trip(v: u64)
    ensures
        be_u64_at(be_bytes_of(v), 0) == v,
{
    assert((((((v >> 56) as u8) as u64) << 56) | ((((v >> 48) as u8) as u64) << 48) | ((((v >> 40)
        as u8) as u64) << 40) | ((((v >> 32) as u8) as u64) << 32) | ((((v >> 24) as u8) as u64)
        << 24) | ((((v >> 16) as u8) as u64) << 16) | ((((v >> 8) as u8) as u64) << 8) | ((
    v as u8) as u64)) == v) by (bit_vector);
}

/// Law: for every sequence number and timestamp, decoding the encoded
/// datagram returns exactly that pair.
pub proof fn lemma_codec_round_trip(seq: u64, timestamp_us: u64)
    ensures
        decode_spec(encode_spec(seq, timestamp_us)) == Some((seq, timestamp_us)),
{
    let b = encode_spec(seq, timestamp_us);
    lemma_be_round_trip(seq);
    lemma_be_round_trip(timestamp_us);
    assert(be_u64_at(b, 4) == be_u64_at(be_bytes_of(seq), 0));
    assert(be_u64_at(b, 12) == be_u64_at(be_bytes_of(timestamp_us), 0));
}

} // verus!
