//! Big-endian integers in the binary (send / receive) formats.
use vstd::prelude::*;

verus! {

/// The four bytes of `x`, most significant first.
pub open spec fn u32_be(x: u32) -> Seq<u8> {
    seq![(x >> 24u32) as u8, (x >> 16u32) as u8, (x >> 8u32) as u8, x as u8]
}

/// The `u32` whose big-endian bytes are the first four of `b`.
pub open spec fn u32_of_be(b: Seq<u8>) -> u32 {
    ((b[0] as u32) << 24u32) | ((b[1] as u32) << 16u32) | ((b[2] as u32) << 8u32) | (b[3] as u32)
}

/// The eight bytes of `x`, most significant first.
pub open spec fn u64_be(x: u64) -> Seq<u8> {
    u32_be((x >> 32u64) as u32) + u32_be(x as u32)
}

/// The `u64` whose big-endian bytes are the first eight of `b`.
pub open spec fn u64_of_be(b: Seq<u8>) -> u64 {
    ((u32_of_be(b) as u64) << 32u64) | (u32_of_be(b.subrange(4, 8)) as u64)
}

/// The sixteen bytes of `x`, most significant first.
pub open spec fn u128_be(x: u128) -> Seq<u8> {
    u64_be((x >> 64u128) as u64) + u64_be(x as u64)
}

/// The `u128` whose big-endian bytes are the first sixteen of `b`.
pub open spec fn u128_of_be(b: Seq<u8>) -> u128 {
    ((u64_of_be(b) as u128) << 64u128) | (u64_of_be(b.subrange(8, 16)) as u128)
}

/// Reading back the bytes of a `u32` gives the `u32`.
pub proof fn lemma_u32_round_trip(x: u32)
    ensures u32_of_be(u32_be(x)) == x, u32_be(x).len() == 4,
{
    let b0 = (x >> 24u32) as u8;
    let b1 = (x >> 16u32) as u8;
    let b2 = (x >> 8u32) as u8;
    let b3 = x as u8;
    assert(((b0 as u32) << 24u32) | ((b1 as u32) << 16u32) | ((b2 as u32) << 8u32) | (b3 as u32) == x)
        by (bit_vector)
        requires b0 == (x >> 24u32) as u8, b1 == (x >> 16u32) as u8, b2 == (x >> 8u32) as u8, b3 == x as u8;
}

/// Writing the `u32` read from four bytes gives the bytes back.
pub proof fn lemma_u32_bytes_round_trip(b: Seq<u8>)
    requires b.len() == 4,
    ensures u32_be(u32_of_be(b)) == b,
{
    let (b0, b1, b2, b3) = (b[0], b[1], b[2], b[3]);
    let x = u32_of_be(b);
    assert((x >> 24u32) as u8 == b0 && (x >> 16u32) as u8 == b1 && (x >> 8u32) as u8 == b2 && x as u8 == b3)
        by (bit_vector)
        requires x == ((b0 as u32) << 24u32) | ((b1 as u32) << 16u32) | ((b2 as u32) << 8u32) | (b3 as u32);
    assert(u32_be(x) =~= b);
}

/// Reading back the bytes of a `u64` gives the `u64`.
pub proof fn lemma_u64_round_trip(x: u64)
    ensures u64_of_be(u64_be(x)) == x, u64_be(x).len() == 8,
{
    let hi = (x >> 32u64) as u32;
    let lo = x as u32;
    lemma_u32_round_trip(hi);
    lemma_u32_round_trip(lo);
    let b = u64_be(x);
    assert(b.subrange(0, 4) =~= u32_be(hi));
    assert(b.subrange(4, 8) =~= u32_be(lo));
    assert(u32_of_be(b) == u32_of_be(b.subrange(0, 4)));
    assert(((hi as u64) << 32u64) | (lo as u64) == x) by (bit_vector)
        requires hi == (x >> 32u64) as u32, lo == x as u32;
}

/// Writing the `u64` read from eight bytes gives the bytes back.
pub proof fn lemma_u64_bytes_round_trip(b: Seq<u8>)
    requires b.len() == 8,
    ensures u64_be(u64_of_be(b)) == b,
{
    let hi = u32_of_be(b);
    let lo = u32_of_be(b.subrange(4, 8));
    let x = u64_of_be(b);
    assert((x >> 32u64) as u32 == hi && x as u32 == lo) by (bit_vector)
        requires x == ((hi as u64) << 32u64) | (lo as u64);
    assert(u32_of_be(b) == u32_of_be(b.subrange(0, 4)));
    lemma_u32_bytes_round_trip(b.subrange(0, 4));
    lemma_u32_bytes_round_trip(b.subrange(4, 8));
    assert(u64_be(x) =~= b.subrange(0, 4) + b.subrange(4, 8));
    assert(b =~= b.subrange(0, 4) + b.subrange(4, 8));
}

/// Reading back the bytes of a `u128` gives the `u128`.
pub proof fn lemma_u128_round_trip(x: u128)
    ensures u128_of_be(u128_be(x)) == x, u128_be(x).len() == 16,
{
    let hi = (x >> 64u128) as u64;
    let lo = x as u64;
    lemma_u64_round_trip(hi);
    lemma_u64_round_trip(lo);
    let b = u128_be(x);
    assert(b.subrange(0, 8) =~= u64_be(hi));
    assert(b.subrange(8, 16) =~= u64_be(lo));
    assert(u64_of_be(b) == u64_of_be(b.subrange(0, 8))) by {
        assert(b.subrange(0, 8).subrange(4, 8) =~= b.subrange(4, 8));
    }
    assert(((hi as u128) << 64u128) | (lo as u128) == x) by (bit_vector)
        requires hi == (x >> 64u128) as u64, lo == x as u64;
}

/// Writing the `u128` read from sixteen bytes gives the bytes back.
pub proof fn lemma_u128_bytes_round_trip(b: Seq<u8>)
    requires b.len() == 16,
    ensures u128_be(u128_of_be(b)) == b,
{
    let hi = u64_of_be(b);
    let lo = u64_of_be(b.subrange(8, 16));
    let x = u128_of_be(b);
    assert((x >> 64u128) as u64 == hi && x as u64 == lo) by (bit_vector)
        requires x == ((hi as u128) << 64u128) | (lo as u128);
    assert(u64_of_be(b) == u64_of_be(b.subrange(0, 8))) by {
        assert(b.subrange(0, 8).subrange(4, 8) =~= b.subrange(4, 8));
    }
    lemma_u64_bytes_round_trip(b.subrange(0, 8));
    lemma_u64_bytes_round_trip(b.subrange(8, 16));
    assert(b =~= b.subrange(0, 8) + b.subrange(8, 16));
}

/// Appends the big-endian bytes of `x`.
pub fn push_u32_be(out: &mut Vec<u8>, x: u32)
    ensures final(out)@ == old(out)@ + u32_be(x),
{
    out.push((x >> 24u32) as u8);
    out.push((x >> 16u32) as u8);
    out.push((x >> 8u32) as u8);
    out.push(x as u8);
    assert(final(out)@ =~= old(out)@ + u32_be(x));
}

/// Appends the big-endian bytes of `x`.
pub fn push_u64_be(out: &mut Vec<u8>, x: u64)
    ensures final(out)@ == old(out)@ + u64_be(x),
{
    push_u32_be(out, (x >> 32u64) as u32);
    push_u32_be(out, x as u32);
    assert(final(out)@ =~= old(out)@ + u64_be(x));
}

/// Appends the big-endian bytes of `x`.
pub fn push_u128_be(out: &mut Vec<u8>, x: u128)
    ensures final(out)@ == old(out)@ + u128_be(x),
{
    push_u64_be(out, (x >> 64u128) as u64);
    push_u64_be(out, x as u64);
    assert(final(out)@ =~= old(out)@ + u128_be(x));
}

/// The `u32` whose big-endian bytes start at `at`.
pub fn read_u32_be(b: &[u8], at: usize) -> (r: u32)
    requires at + 4 <= b@.len(),
    ensures r == u32_of_be(b@.subrange(at as int, at + 4)),
{
    ((b[at] as u32) << 24u32) | ((b[at + 1] as u32) << 16u32) | ((b[at + 2] as u32) << 8u32)
        | (b[at + 3] as u32)
}

/// The `u64` whose big-endian bytes start at `at`.
pub fn read_u64_be(b: &[u8], at: usize) -> (r: u64)
    requires at + 8 <= b@.len(),
    ensures r == u64_of_be(b@.subrange(at as int, at + 8)),
{
    let _n = b.len();
    let hi = read_u32_be(b, at);
    let lo = read_u32_be(b, at + 4);
    let ghost s = b@.subrange(at as int, at + 8);
    assert(s.subrange(4, 8) =~= b@.subrange(at + 4, at + 8));
    assert(u32_of_be(s) == u32_of_be(b@.subrange(at as int, at + 4)));
    ((hi as u64) << 32u64) | (lo as u64)
}

/// The `u128` whose big-endian bytes start at `at`.
pub fn read_u128_be(b: &[u8], at: usize) -> (r: u128)
    requires at + 16 <= b@.len(),
    ensures r == u128_of_be(b@.subrange(at as int, at + 16)),
{
    let _n = b.len();
    let hi = read_u64_be(b, at);
    let lo = read_u64_be(b, at + 8);
    let ghost s = b@.subrange(at as int, at + 16);
    assert(s.subrange(8, 16) =~= b@.subrange(at + 8, at + 16));
    assert(s.subrange(0, 8) =~= b@.subrange(at as int, at + 8));
    assert(u64_of_be(s) == u64_of_be(s.subrange(0, 8))) by {
        assert(s.subrange(0, 8).subrange(4, 8) =~= s.subrange(4, 8));
        assert(u32_of_be(s) == u32_of_be(s.subrange(0, 8)));
    }
    ((hi as u128) << 64u128) | (lo as u128)
}

} // verus!
