//! The wire format: fixed-width little-endian encodings for the primitive
//! types, built on `vstd::bytes`, together with the round-trip laws that
//! guarantee a value written is the value read back.
//!
//! Platform-width integers (`usize`/`isize`) are always encoded as eight
//! bytes, regardless of the host pointer width. Signed integers use the
//! two's-complement bit pattern of the same-width unsigned type.

use vstd::prelude::*;

use vstd::bytes::lemma_auto_spec_u16_to_from_le_bytes;
use vstd::bytes::lemma_auto_spec_u32_to_from_le_bytes;
use vstd::bytes::lemma_auto_spec_u64_to_from_le_bytes;
use vstd::bytes::spec_u16_from_le_bytes;
use vstd::bytes::spec_u16_to_le_bytes;
use vstd::bytes::spec_u32_from_le_bytes;
use vstd::bytes::spec_u32_to_le_bytes;
use vstd::bytes::spec_u64_from_le_bytes;
use vstd::bytes::spec_u64_to_le_bytes;
use vstd::utf8::decode_utf8;
use vstd::utf8::encode_utf8;
use vstd::utf8::encode_utf8_decode_utf8;
use vstd::utf8::encode_utf8_valid_utf8;
use vstd::utf8::valid_utf8;

use crate::stream::overwrite;

verus! {

/// A `u8` is encoded as the raw byte itself.
pub open spec fn spec_u8_to_le_bytes(x: u8) -> Seq<u8> {
    seq![x]
}

/// Decodes a single raw byte.
pub open spec fn spec_u8_from_le_bytes(s: Seq<u8>) -> u8
    recommends
        s.len() == 1,
{
    s[0]
}

/// An `i8` is encoded as the byte holding its two's-complement pattern.
pub open spec fn spec_i8_to_le_bytes(x: i8) -> Seq<u8> {
    spec_u8_to_le_bytes(x as u8)
}

/// Decodes an `i8` from its two's-complement byte.
pub open spec fn spec_i8_from_le_bytes(s: Seq<u8>) -> i8
    recommends
        s.len() == 1,
{
    spec_u8_from_le_bytes(s) as i8
}

/// An `i16` is encoded as the little-endian bytes of its two's-complement
/// pattern.
pub open spec fn spec_i16_to_le_bytes(x: i16) -> Seq<u8> {
    spec_u16_to_le_bytes(x as u16)
}

/// Decodes an `i16` from two little-endian two's-complement bytes.
pub open spec fn spec_i16_from_le_bytes(s: Seq<u8>) -> i16
    recommends
        s.len() == 2,
{
    spec_u16_from_le_bytes(s) as i16
}

/// An `i32` is encoded as the little-endian bytes of its two's-complement
/// pattern.
pub open spec fn spec_i32_to_le_bytes(x: i32) -> Seq<u8> {
    spec_u32_to_le_bytes(x as u32)
}

/// Decodes an `i32` from four little-endian two's-complement bytes.
pub open spec fn spec_i32_from_le_bytes(s: Seq<u8>) -> i32
    recommends
        s.len() == 4,
{
    spec_u32_from_le_bytes(s) as i32
}

/// An `i64` is encoded as the little-endian bytes of its two's-complement
/// pattern.
pub open spec fn spec_i64_to_le_bytes(x: i64) -> Seq<u8> {
    spec_u64_to_le_bytes(x as u64)
}

/// Decodes an `i64` from eight little-endian two's-complement bytes.
pub open spec fn spec_i64_from_le_bytes(s: Seq<u8>) -> i64
    recommends
        s.len() == 8,
{
    spec_u64_from_le_bytes(s) as i64
}

/// A `usize` is encoded as eight little-endian bytes, whatever the host
/// pointer width.
pub open spec fn spec_usize_to_le_bytes(x: usize) -> Seq<u8> {
    spec_u64_to_le_bytes(x as u64)
}

/// An `isize` is encoded as eight little-endian two's-complement bytes,
/// whatever the host pointer width.
pub open spec fn spec_isize_to_le_bytes(x: isize) -> Seq<u8> {
    spec_i64_to_le_bytes(x as i64)
}

/// Round trip for `u8`: decoding an encoded value yields the value.
pub proof fn lemma_u8_round_trip(x: u8)
    ensures
        spec_u8_to_le_bytes(x).len() == 1,
        spec_u8_from_le_bytes(spec_u8_to_le_bytes(x)) == x,
{
}

/// Round trip for `u16`.
pub proof fn lemma_u16_round_trip(x: u16)
    ensures
        spec_u16_to_le_bytes(x).len() == 2,
        spec_u16_from_le_bytes(spec_u16_to_le_bytes(x)) == x,
{
    lemma_auto_spec_u16_to_from_le_bytes();
    assert(spec_u16_to_le_bytes(x).len() == 2);
    assert(spec_u16_from_le_bytes(spec_u16_to_le_bytes(x)) == x);
}

/// Round trip for `u32`.
pub proof fn lemma_u32_round_trip(x: u32)
    ensures
        spec_u32_to_le_bytes(x).len() == 4,
        spec_u32_from_le_bytes(spec_u32_to_le_bytes(x)) == x,
{
    lemma_auto_spec_u32_to_from_le_bytes();
    assert(spec_u32_to_le_bytes(x).len() == 4);
    assert(spec_u32_from_le_bytes(spec_u32_to_le_bytes(x)) == x);
}

/// Round trip for `u64`.
pub proof fn lemma_u64_round_trip(x: u64)
    ensures
        spec_u64_to_le_bytes(x).len() == 8,
        spec_u64_from_le_bytes(spec_u64_to_le_bytes(x)) == x,
{
    lemma_auto_spec_u64_to_from_le_bytes();
    assert(spec_u64_to_le_bytes(x).len() == 8);
    assert(spec_u64_from_le_bytes(spec_u64_to_le_bytes(x)) == x);
}

/// Round trip for `i8`: the two's-complement pattern decodes to the same
/// signed value.
pub proof fn lemma_i8_round_trip(x: i8)
    ensures
        spec_i8_to_le_bytes(x).len() == 1,
        spec_i8_from_le_bytes(spec_i8_to_le_bytes(x)) == x,
{
    assert((x as u8) as i8 == x) by (bit_vector);
}

/// Round trip for `i16`.
pub proof fn lemma_i16_round_trip(x: i16)
    ensures
        spec_i16_to_le_bytes(x).len() == 2,
        spec_i16_from_le_bytes(spec_i16_to_le_bytes(x)) == x,
{
    lemma_u16_round_trip(x as u16);
    assert((x as u16) as i16 == x) by (bit_vector);
}

/// Round trip for `i32`.
pub proof fn lemma_i32_round_trip(x: i32)
    ensures
        spec_i32_to_le_bytes(x).len() == 4,
        spec_i32_from_le_bytes(spec_i32_to_le_bytes(x)) == x,
{
    lemma_u32_round_trip(x as u32);
    assert((x as u32) as i32 == x) by (bit_vector);
}

/// Round trip for `i64`.
pub proof fn lemma_i64_round_trip(x: i64)
    ensures
        spec_i64_to_le_bytes(x).len() == 8,
        spec_i64_from_le_bytes(spec_i64_to_le_bytes(x)) == x,
{
    lemma_u64_round_trip(x as u64);
    assert((x as u64) as i64 == x) by (bit_vector);
}

/// Round trip for `usize`: the eight-byte encoding decodes to a value that
/// fits the host's pointer width and equals what was encoded.
pub proof fn lemma_usize_round_trip(x: usize)
    ensures
        spec_usize_to_le_bytes(x).len() == 8,
        spec_u64_from_le_bytes(spec_usize_to_le_bytes(x)) == x as u64,
        spec_u64_from_le_bytes(spec_usize_to_le_bytes(x)) <= usize::MAX,
        spec_u64_from_le_bytes(spec_usize_to_le_bytes(x)) as usize == x,
{
    lemma_u64_round_trip(x as u64);
}

/// Round trip for `isize`: the eight-byte two's-complement encoding decodes
/// to a value inside the host's pointer-width range that equals what was
/// encoded.
pub proof fn lemma_isize_round_trip(x: isize)
    ensures
        spec_isize_to_le_bytes(x).len() == 8,
        spec_i64_from_le_bytes(spec_isize_to_le_bytes(x)) == x as i64,
        isize::MIN <= spec_i64_from_le_bytes(spec_isize_to_le_bytes(x)) <= isize::MAX,
        spec_i64_from_le_bytes(spec_isize_to_le_bytes(x)) as isize == x,
{
    lemma_i64_round_trip(x as i64);
}

/// String round trip: after a length-prefixed string frame for `s` is
/// written at `pos`, the eight-byte prefix reads back as the length of
/// `s`'s UTF-8 encoding — its byte length, not its character count — and
/// the payload behind it is valid UTF-8 that decodes to exactly `s`.
pub proof fn lemma_string_round_trip(data: Seq<u8>, pos: int, s: Seq<char>)
    requires
        0 <= pos <= data.len(),
        encode_utf8(s).len() <= usize::MAX,
    ensures
        ({
            let payload = encode_utf8(s);
            let out = overwrite(data, pos, spec_u64_to_le_bytes(payload.len() as u64) + payload);
            &&& spec_u64_from_le_bytes(out.subrange(pos, pos + 8)) == payload.len()
            &&& out.subrange(pos + 8, pos + 8 + payload.len()) == payload
            &&& valid_utf8(payload)
            &&& decode_utf8(out.subrange(pos + 8, pos + 8 + payload.len())) == s
        }),
{
    let payload = encode_utf8(s);
    let prefix = spec_u64_to_le_bytes(payload.len() as u64);
    let frame = prefix + payload;
    let out = overwrite(data, pos, frame);
    lemma_u64_round_trip(payload.len() as u64);
    crate::stream::lemma_overwrite_read_back(data, pos, frame);
    assert(out.subrange(pos, pos + frame.len()) == frame);
    assert(out.subrange(pos, pos + 8) =~= frame.subrange(0, 8));
    assert(frame.subrange(0, 8) =~= prefix);
    assert(out.subrange(pos + 8, pos + 8 + payload.len()) =~= frame.subrange(
        8,
        8 + payload.len() as int,
    ));
    assert(frame.subrange(8, 8 + payload.len() as int) =~= payload);
    encode_utf8_valid_utf8(s);
    encode_utf8_decode_utf8(s);
}

} // verus!
