//! Little-endian encoding of the fixed-width integers that make up the
//! kernel's records.

use vstd::prelude::*;

verus! {

/// The four bytes of `x`, least significant first.
pub open spec fn u32_le(x: u32) -> Seq<u8> {
    seq![x as u8, (x >> 8u32) as u8, (x >> 16u32) as u8, (x >> 24u32) as u8]
}

/// The eight bytes of `x`, least significant first.
pub open spec fn u64_le(x: u64) -> Seq<u8> {
    seq![
        x as u8,
        (x >> 8u64) as u8,
        (x >> 16u64) as u8,
        (x >> 24u64) as u8,
        (x >> 32u64) as u8,
        (x >> 40u64) as u8,
        (x >> 48u64) as u8,
        (x >> 56u64) as u8,
    ]
}

pub open spec fn join_u32(b0: u8, b1: u8, b2: u8, b3: u8) -> u32 {
    (b0 as u32) | ((b1 as u32) << 8u32) | ((b2 as u32) << 16u32) | ((b3 as u32) << 24u32)
}

/// The `u32` whose little-endian bytes start at `at` in `s`.
pub open spec fn u32_at(s: Seq<u8>, at: int) -> u32 {
    join_u32(s[at], s[at + 1], s[at + 2], s[at + 3])
}

pub open spec fn join_u64(lo: u32, hi: u32) -> u64 {
    (lo as u64) | ((hi as u64) << 32u64)
}

/// The `u64` whose little-endian bytes start at `at` in `s`.
pub open spec fn u64_at(s: Seq<u8>, at: int) -> u64 {
    join_u64(u32_at(s, at), u32_at(s, at + 4))
}

proof fn lemma_join_u32_split(x: u32)
    by (bit_vector)
    ensures
        join_u32(x as u8, (x >> 8u32) as u8, (x >> 16u32) as u8, (x >> 24u32) as u8) == x,
{
}

proof fn lemma_split_join_u32(b0: u8, b1: u8, b2: u8, b3: u8)
    by (bit_vector)
    ensures
        join_u32(b0, b1, b2, b3) as u8 == b0,
        (join_u32(b0, b1, b2, b3) >> 8u32) as u8 == b1,
        (join_u32(b0, b1, b2, b3) >> 16u32) as u8 == b2,
        (join_u32(b0, b1, b2, b3) >> 24u32) as u8 == b3,
{
}

proof fn lemma_join_u64_split(x: u64)
    by (bit_vector)
    ensures
        join_u64(x as u32, (x >> 32u64) as u32) == x,
        (x as u32) as u8 == x as u8,
        ((x as u32) >> 8u32) as u8 == (x >> 8u64) as u8,
        ((x as u32) >> 16u32) as u8 == (x >> 16u64) as u8,
        ((x as u32) >> 24u32) as u8 == (x >> 24u64) as u8,
        ((x >> 32u64) as u32) as u8 == (x >> 32u64) as u8,
        (((x >> 32u64) as u32) >> 8u32) as u8 == (x >> 40u64) as u8,
        (((x >> 32u64) as u32) >> 16u32) as u8 == (x >> 48u64) as u8,
        (((x >> 32u64) as u32) >> 24u32) as u8 == (x >> 56u64) as u8,
{
}

proof fn lemma_split_join_u64(lo: u32, hi: u32)
    by (bit_vector)
    ensures
        join_u64(lo, hi) as u32 == lo,
        (join_u64(lo, hi) >> 32u64) as u32 == hi,
{
}

/// Reading back the bytes of a `u32` gives the `u32`.
pub proof fn lemma_u32_round_trip(x: u32)
    ensures
        u32_at(u32_le(x), 0) == x,
{
    lemma_join_u32_split(x);
}

/// Any four bytes are the encoding of the `u32` read from them.
pub proof fn lemma_u32_bytes_round_trip(s: Seq<u8>, at: int)
    requires
        0 <= at,
        at + 4 <= s.len(),
    ensures
        u32_le(u32_at(s, at)) == s.subrange(at, at + 4),
{
    lemma_split_join_u32(s[at], s[at + 1], s[at + 2], s[at + 3]);
    assert(u32_le(u32_at(s, at)) =~= s.subrange(at, at + 4));
}

/// Reading back the bytes of a `u64` gives the `u64`.
pub proof fn lemma_u64_round_trip(x: u64)
    ensures
        u64_at(u64_le(x), 0) == x,
{
    lemma_join_u64_split(x);
    lemma_join_u32_split(x as u32);
    lemma_join_u32_split((x >> 32u64) as u32);
}

/// Any eight bytes are the encoding of the `u64` read from them.
pub proof fn lemma_u64_bytes_round_trip(s: Seq<u8>, at: int)
    requires
        0 <= at,
        at + 8 <= s.len(),
    ensures
        u64_le(u64_at(s, at)) == s.subrange(at, at + 8),
{
    let lo = u32_at(s, at);
    let hi = u32_at(s, at + 4);
    lemma_split_join_u64(lo, hi);
    lemma_join_u64_split(join_u64(lo, hi));
    lemma_split_join_u32(s[at], s[at + 1], s[at + 2], s[at + 3]);
    lemma_split_join_u32(s[at + 4], s[at + 5], s[at + 6], s[at + 7]);
    assert(u64_le(u64_at(s, at)) =~= s.subrange(at, at + 8));
}

/// The two's complement bits of `x`.
pub open spec fn i32_bits(x: i32) -> u32 {
    #[verifier::truncate]
    (x as u32)
}

/// The `i32` whose two's complement bits are `x`.
pub open spec fn i32_of_bits(x: u32) -> i32 {
    #[verifier::truncate]
    (x as i32)
}

/// The two's complement bits of `x`.
pub open spec fn i64_bits(x: i64) -> u64 {
    #[verifier::truncate]
    (x as u64)
}

/// The `i64` whose two's complement bits are `x`.
pub open spec fn i64_of_bits(x: u64) -> i64 {
    #[verifier::truncate]
    (x as i64)
}

/// Going to bits and back is the identity, both ways.
pub proof fn lemma_i32_bits(x: i32, u: u32)
    ensures
        i32_of_bits(i32_bits(x)) == x,
        i32_bits(i32_of_bits(u)) == u,
{
    assert(i32_of_bits(i32_bits(x)) == x) by (bit_vector);
    assert(i32_bits(i32_of_bits(u)) == u) by (bit_vector);
}

/// Going to bits and back is the identity, both ways.
pub proof fn lemma_i64_bits(x: i64, u: u64)
    ensures
        i64_of_bits(i64_bits(x)) == x,
        i64_bits(i64_of_bits(u)) == u,
{
    assert(i64_of_bits(i64_bits(x)) == x) by (bit_vector);
    assert(i64_bits(i64_of_bits(u)) == u) by (bit_vector);
}

/// Appends the little-endian bytes of `x` to `out`.
pub fn push_u32(out: &mut Vec<u8>, x: u32)
    ensures
        final(out)@ == old(out)@ + u32_le(x),
{
    out.push(x as u8);
    out.push((x >> 8u32) as u8);
    out.push((x >> 16u32) as u8);
    out.push((x >> 24u32) as u8);
    assert(final(out)@ =~= old(out)@ + u32_le(x));
}

/// Appends the little-endian bytes of `x` to `out`.
pub fn push_u64(out: &mut Vec<u8>, x: u64)
    ensures
        final(out)@ == old(out)@ + u64_le(x),
{
    push_u32(out, x as u32);
    push_u32(out, (x >> 32u64) as u32);
    proof {
        lemma_join_u64_split(x);
    }
    assert(final(out)@ =~= old(out)@ + u64_le(x));
}

/// The `u32` whose little-endian bytes start at `at` in `b`.
pub fn read_u32(b: &[u8], at: usize) -> (r: u32)
    requires
        at + 4 <= b@.len(),
    ensures
        r == u32_at(b@, at as int),
{
    (b[at] as u32) | ((b[at + 1] as u32) << 8u32) | ((b[at + 2] as u32) << 16u32) | ((
    b[at + 3] as u32) << 24u32)
}

/// The `u64` whose little-endian bytes start at `at` in `b`.
pub fn read_u64(b: &[u8], at: usize) -> (r: u64)
    requires
        at + 8 <= b@.len(),
    ensures
        r == u64_at(b@, at as int),
{
    let lo = read_u32(b, at);
    let n = b.len();
    assert(at + 4 <= n);
    let hi = read_u32(b, at + 4);
    (lo as u64) | ((hi as u64) << 32u64)
}

} // verus!
