//! Little-endian encoding and decoding of the integer fields on the wire.

use vstd::prelude::*;

verus! {

/// The two little-endian bytes of a 16-bit integer.
pub open spec fn u16_le(x: u16) -> Seq<u8> {
    seq![(x & 0xff) as u8, ((x >> 8) & 0xff) as u8]
}

/// The four little-endian bytes of a 32-bit integer.
pub open spec fn u32_le(x: u32) -> Seq<u8> {
    seq![
        (x & 0xff) as u8,
        ((x >> 8) & 0xff) as u8,
        ((x >> 16) & 0xff) as u8,
        ((x >> 24) & 0xff) as u8,
    ]
}

/// The eight little-endian bytes of a 64-bit integer.
pub open spec fn u64_le(x: u64) -> Seq<u8> {
    seq![
        (x & 0xff) as u8,
        ((x >> 8) & 0xff) as u8,
        ((x >> 16) & 0xff) as u8,
        ((x >> 24) & 0xff) as u8,
        ((x >> 32) & 0xff) as u8,
        ((x >> 40) & 0xff) as u8,
        ((x >> 48) & 0xff) as u8,
        ((x >> 56) & 0xff) as u8,
    ]
}

/// Signed 32-bit integers travel as their two's-complement bit pattern.
pub open spec fn i32_le(x: i32) -> Seq<u8> {
    u32_le(x as u32)
}

/// Signed 64-bit integers travel as their two's-complement bit pattern.
pub open spec fn i64_le(x: i64) -> Seq<u8> {
    u64_le(x as u64)
}

/// The 16-bit integer whose little-endian bytes open `b`.
pub open spec fn le_to_u16(b: Seq<u8>) -> u16
    recommends
        b.len() >= 2,
{
    (b[0] as u16) | ((b[1] as u16) << 8)
}

/// The 32-bit integer whose little-endian bytes open `b`.
pub open spec fn le_to_u32(b: Seq<u8>) -> u32
    recommends
        b.len() >= 4,
{
    (b[0] as u32) | ((b[1] as u32) << 8) | ((b[2] as u32) << 16) | ((b[3] as u32) << 24)
}

/// The 64-bit integer whose little-endian bytes open `b`.
pub open spec fn le_to_u64(b: Seq<u8>) -> u64
    recommends
        b.len() >= 8,
{
    (b[0] as u64) | ((b[1] as u64) << 8) | ((b[2] as u64) << 16) | ((b[3] as u64) << 24)
        | ((b[4] as u64) << 32) | ((b[5] as u64) << 40) | ((b[6] as u64) << 48)
        | ((b[7] as u64) << 56)
}

/// The signed 32-bit integer whose little-endian bytes open `b`.
pub open spec fn le_to_i32(b: Seq<u8>) -> i32
    recommends
        b.len() >= 4,
{
    le_to_u32(b) as i32
}

/// The signed 64-bit integer whose little-endian bytes open `b`.
pub open spec fn le_to_i64(b: Seq<u8>) -> i64
    recommends
        b.len() >= 8,
{
    le_to_u64(b) as i64
}

/// Decoding the encoding of a 16-bit integer gives it back.
pub proof fn lemma_u16_le_round_trip(x: u16)
    ensures
        le_to_u16(u16_le(x)) == x,
{
    let b0 = (x & 0xff) as u8;
    let b1 = ((x >> 8) & 0xff) as u8;
    assert((b0 as u16) | ((b1 as u16) << 8) == x) by (bit_vector)
        requires
            b0 == (x & 0xff) as u8,
            b1 == ((x >> 8) & 0xff) as u8,
    ;
}

/// Decoding the encoding of a 32-bit integer gives it back.
pub proof fn lemma_u32_le_round_trip(x: u32)
    ensures
        le_to_u32(u32_le(x)) == x,
{
    let b0 = (x & 0xff) as u8;
    let b1 = ((x >> 8) & 0xff) as u8;
    let b2 = ((x >> 16) & 0xff) as u8;
    let b3 = ((x >> 24) & 0xff) as u8;
    assert((b0 as u32) | ((b1 as u32) << 8) | ((b2 as u32) << 16) | ((b3 as u32) << 24) == x)
        by (bit_vector)
        requires
            b0 == (x & 0xff) as u8,
            b1 == ((x >> 8) & 0xff) as u8,
            b2 == ((x >> 16) & 0xff) as u8,
            b3 == ((x >> 24) & 0xff) as u8,
    ;
}

/// Decoding the encoding of a 64-bit integer gives it back.
pub proof fn lemma_u64_le_round_trip(x: u64)
    ensures
        le_to_u64(u64_le(x)) == x,
{
    let b0 = (x & 0xff) as u8;
    let b1 = ((x >> 8) & 0xff) as u8;
    let b2 = ((x >> 16) & 0xff) as u8;
    let b3 = ((x >> 24) & 0xff) as u8;
    let b4 = ((x >> 32) & 0xff) as u8;
    let b5 = ((x >> 40) & 0xff) as u8;
    let b6 = ((x >> 48) & 0xff) as u8;
    let b7 = ((x >> 56) & 0xff) as u8;
    assert((b0 as u64) | ((b1 as u64) << 8) | ((b2 as u64) << 16) | ((b3 as u64) << 24)
        | ((b4 as u64) << 32) | ((b5 as u64) << 40) | ((b6 as u64) << 48) | ((b7 as u64) << 56)
        == x) by (bit_vector)
        requires
            b0 == (x & 0xff) as u8,
            b1 == ((x >> 8) & 0xff) as u8,
            b2 == ((x >> 16) & 0xff) as u8,
            b3 == ((x >> 24) & 0xff) as u8,
            b4 == ((x >> 32) & 0xff) as u8,
            b5 == ((x >> 40) & 0xff) as u8,
            b6 == ((x >> 48) & 0xff) as u8,
            b7 == ((x >> 56) & 0xff) as u8,
    ;
}

/// Decoding the encoding of a signed 32-bit integer gives it back.
pub proof fn lemma_i32_le_round_trip(x: i32)
    ensures
        le_to_i32(i32_le(x)) == x,
{
    lemma_u32_le_round_trip(x as u32);
    assert((x as u32) as i32 == x) by (bit_vector);
}

/// Decoding the encoding of a signed 64-bit integer gives it back.
pub proof fn lemma_i64_le_round_trip(x: i64)
    ensures
        le_to_i64(i64_le(x)) == x,
{
    lemma_u64_le_round_trip(x as u64);
    assert((x as u64) as i64 == x) by (bit_vector);
}

/// Two sequences with the same first four bytes decode to the same 32-bit
/// integer.
pub proof fn lemma_le_to_u32_prefix(a: Seq<u8>, b: Seq<u8>)
    requires
        a.len() >= 4,
        b.len() >= 4,
        a.take(4) == b.take(4),
    ensures
        le_to_u32(a) == le_to_u32(b),
{
    assert(forall|i: int| 0 <= i < 4 ==> a[i] == a.take(4)[i] && b[i] == b.take(4)[i]);
}

/// Two sequences with the same first four bytes decode to the same signed
/// 32-bit integer.
pub proof fn lemma_le_to_i32_prefix(a: Seq<u8>, b: Seq<u8>)
    requires
        a.len() >= 4,
        b.len() >= 4,
        a.take(4) == b.take(4),
    ensures
        le_to_i32(a) == le_to_i32(b),
{
    lemma_le_to_u32_prefix(a, b);
}

/// Append the two little-endian bytes of `x` to `v`.
pub fn push_u16_le(v: &mut Vec<u8>, x: u16)
    ensures
        final(v)@ == old(v)@ + u16_le(x),
{
    v.push(#[verifier::truncate] ((x & 0xff) as u8));
    v.push(#[verifier::truncate] (((x >> 8) & 0xff) as u8));
    assert(v@ =~= old(v)@ + u16_le(x));
}

/// Append the four little-endian bytes of `x` to `v`.
pub fn push_u32_le(v: &mut Vec<u8>, x: u32)
    ensures
        final(v)@ == old(v)@ + u32_le(x),
{
    v.push(#[verifier::truncate] ((x & 0xff) as u8));
    v.push(#[verifier::truncate] (((x >> 8) & 0xff) as u8));
    v.push(#[verifier::truncate] (((x >> 16) & 0xff) as u8));
    v.push(#[verifier::truncate] (((x >> 24) & 0xff) as u8));
    assert(v@ =~= old(v)@ + u32_le(x));
}

/// Append the eight little-endian bytes of `x` to `v`.
pub fn push_u64_le(v: &mut Vec<u8>, x: u64)
    ensures
        final(v)@ == old(v)@ + u64_le(x),
{
    v.push(#[verifier::truncate] ((x & 0xff) as u8));
    v.push(#[verifier::truncate] (((x >> 8) & 0xff) as u8));
    v.push(#[verifier::truncate] (((x >> 16) & 0xff) as u8));
    v.push(#[verifier::truncate] (((x >> 24) & 0xff) as u8));
    v.push(#[verifier::truncate] (((x >> 32) & 0xff) as u8));
    v.push(#[verifier::truncate] (((x >> 40) & 0xff) as u8));
    v.push(#[verifier::truncate] (((x >> 48) & 0xff) as u8));
    v.push(#[verifier::truncate] (((x >> 56) & 0xff) as u8));
    assert(v@ =~= old(v)@ + u64_le(x));
}

/// Append the four little-endian bytes of a signed 32-bit integer to `v`.
pub fn push_i32_le(v: &mut Vec<u8>, x: i32)
    ensures
        final(v)@ == old(v)@ + i32_le(x),
{
    push_u32_le(v, #[verifier::truncate] (x as u32));
}

/// Append the eight little-endian bytes of a signed 64-bit integer to `v`.
pub fn push_i64_le(v: &mut Vec<u8>, x: i64)
    ensures
        final(v)@ == old(v)@ + i64_le(x),
{
    push_u64_le(v, #[verifier::truncate] (x as u64));
}

/// Read the 16-bit integer at offset `at` of `b`.
pub fn read_u16_le(b: &Vec<u8>, at: usize) -> (r: u16)
    requires
        at + 2 <= b@.len(),
    ensures
        r == le_to_u16(b@.skip(at as int)),
{
    let n: usize = b.len();
    let r = (b[at] as u16) | ((b[at + 1] as u16) << 8);
    assert(b@.skip(at as int)[0] == b@[at as int]);
    assert(b@.skip(at as int)[1] == b@[at as int + 1]);
    r
}

/// Read the 32-bit integer at offset `at` of `b`.
pub fn read_u32_le(b: &Vec<u8>, at: usize) -> (r: u32)
    requires
        at + 4 <= b@.len(),
    ensures
        r == le_to_u32(b@.skip(at as int)),
{
    let n: usize = b.len();
    let r = (b[at] as u32) | ((b[at + 1] as u32) << 8) | ((b[at + 2] as u32) << 16)
        | ((b[at + 3] as u32) << 24);
    assert(forall|i: int| 0 <= i < 4 ==> b@.skip(at as int)[i] == b@[at as int + i]);
    r
}

/// Read the 64-bit integer at offset `at` of `b`.
pub fn read_u64_le(b: &Vec<u8>, at: usize) -> (r: u64)
    requires
        at + 8 <= b@.len(),
    ensures
        r == le_to_u64(b@.skip(at as int)),
{
    let n: usize = b.len();
    let r = (b[at] as u64) | ((b[at + 1] as u64) << 8) | ((b[at + 2] as u64) << 16)
        | ((b[at + 3] as u64) << 24) | ((b[at + 4] as u64) << 32) | ((b[at + 5] as u64) << 40)
        | ((b[at + 6] as u64) << 48) | ((b[at + 7] as u64) << 56);
    assert(forall|i: int| 0 <= i < 8 ==> b@.skip(at as int)[i] == b@[at as int + i]);
    r
}

/// Read the signed 32-bit integer at offset `at` of `b`.
pub fn read_i32_le(b: &Vec<u8>, at: usize) -> (r: i32)
    requires
        at + 4 <= b@.len(),
    ensures
        r == le_to_i32(b@.skip(at as int)),
{
    #[verifier::truncate] (read_u32_le(b, at) as i32)
}

/// Read the signed 64-bit integer at offset `at` of `b`.
pub fn read_i64_le(b: &Vec<u8>, at: usize) -> (r: i64)
    requires
        at + 8 <= b@.len(),
    ensures
        r == le_to_i64(b@.skip(at as int)),
{
    #[verifier::truncate] (read_u64_le(b, at) as i64)
}

} // verus!
