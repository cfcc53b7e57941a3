//! The packet frame: a three-byte little-endian payload length, a one-byte
//! sequence id, then the payload.

use byteorder::{LittleEndian, WriteBytesExt};
use vstd::prelude::*;

verus! {

/// Bytes in a frame header.
pub const HEADER_LEN: usize = 4;

/// Largest payload that the three-byte length field can announce.
pub const MAX_PAYLOAD: usize = 0xFF_FFFF;

/// The payload length announced by the first three bytes of `header`.
pub open spec fn parse_length(header: Seq<u8>) -> nat
    recommends
        header.len() >= 3,
{
    (header[0] as nat) + 256 * (header[1] as nat) + 65536 * (header[2] as nat)
}

/// The three-byte little-endian encoding of `len`.
pub open spec fn encode_length(len: nat) -> Seq<u8>
    recommends
        len <= MAX_PAYLOAD,
{
    seq![(len % 256) as u8, ((len / 256) % 256) as u8, ((len / 65536) % 256) as u8]
}

/// The two-byte little-endian encoding of `value`.
pub open spec fn encode_u16(value: u16) -> Seq<u8> {
    seq![(value % 256) as u8, (value / 256) as u8]
}

/// A whole frame: the header for `payload`, then `payload` itself.
pub open spec fn frame(sequence_id: u8, payload: Seq<u8>) -> Seq<u8>
    recommends
        payload.len() <= MAX_PAYLOAD,
{
    encode_length(payload.len()) + seq![sequence_id] + payload
}

/// `bytes` is exactly one frame: a header and the payload it announces.
pub open spec fn is_frame(bytes: Seq<u8>) -> bool {
    bytes.len() >= HEADER_LEN && bytes.len() == HEADER_LEN + parse_length(bytes)
}

/// Appends `value` to `buf` through byteorder's `WriteBytesExt::write_u16`
/// with `LittleEndian`. That method hands the two bytes of
/// `value.to_le_bytes()` to `write_all`, which on a `Vec<u8>` appends them and
/// cannot fail, so the contract claims that the low byte and then the high
/// byte are added at the end and nothing else changes.
#[verifier::external_body]
pub(crate) fn write_u16_le(buf: &mut Vec<u8>, value: u16)
    ensures
        final(buf)@ == old(buf)@ + encode_u16(value),
{
    buf.write_u16::<LittleEndian>(value).unwrap();
}

/// Appends the low three bytes of `value` to `buf` through byteorder's
/// `WriteBytesExt::write_u24` with `LittleEndian`. That method panics unless
/// `value` fits in 24 bits, which `requires` demands; it then copies the first
/// three bytes of the little-endian form of `value` and hands them to
/// `write_all`, which on a `Vec<u8>` appends them and cannot fail.
#[verifier::external_body]
pub(crate) fn write_u24_le(buf: &mut Vec<u8>, value: u32)
    requires
        value <= MAX_PAYLOAD,
    ensures
        final(buf)@ == old(buf)@ + encode_length(value as nat),
{
    buf.write_u24::<LittleEndian>(value).unwrap();
}

/// Parse the MySQL packet length (3 byte little-endian).
pub fn parse_packet_length(header: &[u8]) -> (len: usize)
    requires
        header@.len() >= 3,
    ensures
        len == parse_length(header@),
        len <= MAX_PAYLOAD,
{
    let b0: u32 = header[0] as u32;
    let b1: u32 = header[1] as u32;
    let b2: u32 = header[2] as u32;
    assert(((b2 << 16) | (b1 << 8) | b0) == b0 + 256 * b1 + 65536 * b2) by (bit_vector)
        requires
            b0 < 256,
            b1 < 256,
            b2 < 256,
    ;
    (((b2 << 16) | (b1 << 8)) | b0) as usize
}

/// Encoding a length and parsing it again gives the length back, for every
/// length that three bytes can hold.
pub proof fn lemma_length_round_trip(len: nat)
    requires
        len <= MAX_PAYLOAD,
    ensures
        encode_length(len).len() == 3,
        parse_length(encode_length(len)) == len,
{
}

/// Three bytes are the encoding of the length that they parse to, which is
/// one that three bytes can hold.
pub proof fn lemma_length_unique(header: Seq<u8>)
    requires
        header.len() == 3,
    ensures
        parse_length(header) <= MAX_PAYLOAD,
        encode_length(parse_length(header)) == header,
{
}

/// The header of a frame announces the length of its payload: parsing the
/// frame built for a payload recovers that payload's length, and the frame is
/// the header, the sequence id and the payload, in that order.
pub proof fn lemma_frame(sequence_id: u8, payload: Seq<u8>)
    requires
        payload.len() <= MAX_PAYLOAD,
    ensures
        parse_length(frame(sequence_id, payload)) == payload.len(),
        is_frame(frame(sequence_id, payload)),
        frame(sequence_id, payload)[3] == sequence_id,
        frame(sequence_id, payload).skip(HEADER_LEN as int) == payload,
{
    lemma_length_round_trip(payload.len());
    let f = frame(sequence_id, payload);
    assert(f[2] == encode_length(payload.len())[2]);
}

} // verus!
