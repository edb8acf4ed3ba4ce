//! Little-endian integer images, the building blocks of every FUSE frame.
//!
//! The kernel and the file system daemon share one host, and on the hosts
//! this crate serves the native byte order is little-endian. All functions
//! here are stated in plain arithmetic on bytes.

use vstd::prelude::*;

verus! {

/// The four bytes of `x`, least significant first.
#[verifier::opaque]
pub open spec fn u32_le(x: u32) -> Seq<u8> {
    seq![
        (x % 256) as u8,
        (x / 256 % 256) as u8,
        (x / 65536 % 256) as u8,
        (x / 16777216 % 256) as u8,
    ]
}

/// The eight bytes of `x`, least significant first.
#[verifier::opaque]
pub open spec fn u64_le(x: u64) -> Seq<u8> {
    u32_le((x % 4294967296) as u32) + u32_le((x / 4294967296) as u32)
}

/// The number that the four bytes of `s` from `at` on spell, least
/// significant byte first.
#[verifier::opaque]
pub open spec fn u32_at(s: Seq<u8>, at: int) -> u32 {
    (s[at] + 256 * s[at + 1] + 65536 * s[at + 2] + 16777216 * s[at + 3]) as u32
}

/// The number that the eight bytes of `s` from `at` on spell, least
/// significant byte first.
#[verifier::opaque]
pub open spec fn u64_at(s: Seq<u8>, at: int) -> u64 {
    (u32_at(s, at) + 4294967296 * u32_at(s, at + 4)) as u64
}

/// The two's complement bit pattern of `x` as an unsigned number.
pub open spec fn i32_bits(x: i32) -> u32 {
    if x >= 0 {
        x as u32
    } else {
        (x + 4294967296) as u32
    }
}

/// The signed number with the two's complement bit pattern `x`.
pub open spec fn i32_of_bits(x: u32) -> i32 {
    if x < 2147483648 {
        x as i32
    } else {
        (x - 4294967296) as i32
    }
}

/// The two's complement bit pattern of `x` as an unsigned number.
pub open spec fn i64_bits(x: i64) -> u64 {
    if x >= 0 {
        x as u64
    } else {
        (x + 18446744073709551616) as u64
    }
}

/// The signed number with the two's complement bit pattern `x`.
pub open spec fn i64_of_bits(x: u64) -> i64 {
    if x < 9223372036854775808 {
        x as i64
    } else {
        (x - 18446744073709551616) as i64
    }
}

/// The four bytes of the bit pattern of `x`, least significant first.
pub open spec fn i32_le(x: i32) -> Seq<u8> {
    u32_le(i32_bits(x))
}

/// The eight bytes of the bit pattern of `x`, least significant first.
pub open spec fn i64_le(x: i64) -> Seq<u8> {
    u64_le(i64_bits(x))
}

/// The signed number that the four bytes of `s` from `at` on spell.
pub open spec fn i32_at(s: Seq<u8>, at: int) -> i32 {
    i32_of_bits(u32_at(s, at))
}

/// The signed number that the eight bytes of `s` from `at` on spell.
pub open spec fn i64_at(s: Seq<u8>, at: int) -> i64 {
    i64_of_bits(u64_at(s, at))
}

/// `n` zero bytes.
pub open spec fn zeros(n: nat) -> Seq<u8> {
    Seq::new(n, |i: int| 0u8)
}

/// Concatenation may be regrouped.
pub broadcast proof fn lemma_concat_assoc(a: Seq<u8>, b: Seq<u8>, c: Seq<u8>)
    ensures
        #[trigger] ((a + b) + c) == a + (b + c),
{
    assert((a + b) + c =~= a + (b + c));
}

/// The image of a 32-bit number has four bytes.
pub broadcast proof fn lemma_u32_le_len(x: u32)
    ensures
        #[trigger] u32_le(x).len() == 4,
{
    reveal(u32_le);
}

/// The image of a 64-bit number has eight bytes.
pub broadcast proof fn lemma_u64_le_len(x: u64)
    ensures
        #[trigger] u64_le(x).len() == 8,
{
    reveal(u64_le);
    lemma_u32_le_len((x % 4294967296) as u32);
    lemma_u32_le_len((x / 4294967296) as u32);
}

/// Reading the image of a 32-bit number gives the number.
pub broadcast proof fn lemma_u32_at_le(x: u32)
    ensures
        #[trigger] u32_at(u32_le(x), 0) == x,
{
    reveal(u32_le);
    reveal(u32_at);
}

/// A 32-bit read looks at its own four bytes only: what stands before them
/// shifts the place, what stands after them does not matter.
pub broadcast proof fn lemma_u32_at_concat(a: Seq<u8>, b: Seq<u8>, at: int)
    ensures
        a.len() <= at && at + 4 <= a.len() + b.len() ==> #[trigger] u32_at(a + b, at) == u32_at(
            b,
            at - a.len(),
        ),
        0 <= at && at + 4 <= a.len() ==> u32_at(a + b, at) == u32_at(a, at),
{
    reveal(u32_at);
}

/// Reading the image of a 64-bit number gives the number.
pub broadcast proof fn lemma_u64_at_le(x: u64)
    ensures
        #[trigger] u64_at(u64_le(x), 0) == x,
{
    reveal(u64_le);
    reveal(u64_at);
    let lo = (x % 4294967296) as u32;
    let hi = (x / 4294967296) as u32;
    lemma_u32_le_len(lo);
    lemma_u32_le_len(hi);
    lemma_u32_at_le(lo);
    lemma_u32_at_le(hi);
    lemma_u32_at_concat(u32_le(lo), u32_le(hi), 0);
    lemma_u32_at_concat(u32_le(lo), u32_le(hi), 4);
}

/// A 64-bit read looks at its own eight bytes only.
pub broadcast proof fn lemma_u64_at_concat(a: Seq<u8>, b: Seq<u8>, at: int)
    ensures
        a.len() <= at && at + 8 <= a.len() + b.len() ==> #[trigger] u64_at(a + b, at) == u64_at(
            b,
            at - a.len(),
        ),
        0 <= at && at + 8 <= a.len() ==> u64_at(a + b, at) == u64_at(a, at),
{
    reveal(u64_at);
    lemma_u32_at_concat(a, b, at);
    lemma_u32_at_concat(a, b, at + 4);
}

/// The facts by which a frame that was put together from images is read
/// back piece by piece.
pub broadcast group group_wire {
    lemma_u32_le_len,
    lemma_u64_le_len,
    lemma_u32_at_le,
    lemma_u32_at_concat,
    lemma_u64_at_le,
    lemma_u64_at_concat,
}

/// Computes the two's complement bit pattern of `x`.
pub fn i32_to_bits(x: i32) -> (r: u32)
    ensures
        r == i32_bits(x),
{
    if x >= 0 {
        x as u32
    } else {
        (x - i32::MIN) as u32 + 2147483648u32
    }
}

/// Computes the signed number with bit pattern `x`.
pub fn i32_from_bits(x: u32) -> (r: i32)
    ensures
        r == i32_of_bits(x),
{
    if x < 2147483648u32 {
        x as i32
    } else {
        (x - 2147483648u32) as i32 + i32::MIN
    }
}

/// Computes the two's complement bit pattern of `x`.
pub fn i64_to_bits(x: i64) -> (r: u64)
    ensures
        r == i64_bits(x),
{
    if x >= 0 {
        x as u64
    } else {
        (x - i64::MIN) as u64 + 9223372036854775808u64
    }
}

/// Computes the signed number with bit pattern `x`.
pub fn i64_from_bits(x: u64) -> (r: i64)
    ensures
        r == i64_of_bits(x),
{
    if x < 9223372036854775808u64 {
        x as i64
    } else {
        (x - 9223372036854775808u64) as i64 + i64::MIN
    }
}

/// Appends the little-endian image of `x` to `out`.
pub fn put_u32(out: &mut Vec<u8>, x: u32)
    ensures
        final(out)@ == old(out)@ + u32_le(x),
        u32_le(x).len() == 4,
{
    out.push((x % 256) as u8);
    out.push((x / 256 % 256) as u8);
    out.push((x / 65536 % 256) as u8);
    out.push((x / 16777216 % 256) as u8);
    proof {
        reveal(u32_le);
    }
    assert(u32_le(x).len() == 4);
    assert(out@ =~= old(out)@ + u32_le(x));
}

/// Appends the little-endian image of `x` to `out`.
pub fn put_u64(out: &mut Vec<u8>, x: u64)
    ensures
        final(out)@ == old(out)@ + u64_le(x),
        u64_le(x).len() == 8,
{
    put_u32(out, (x % 4294967296) as u32);
    put_u32(out, (x / 4294967296) as u32);
    proof {
        reveal(u64_le);
        lemma_u64_le_len(x);
    }
    assert(out@ =~= old(out)@ + u64_le(x));
}

/// Appends the little-endian two's complement image of `x` to `out`.
pub fn put_i32(out: &mut Vec<u8>, x: i32)
    ensures
        final(out)@ == old(out)@ + i32_le(x),
        i32_le(x).len() == 4,
{
    put_u32(out, i32_to_bits(x));
}

/// Appends the little-endian two's complement image of `x` to `out`.
pub fn put_i64(out: &mut Vec<u8>, x: i64)
    ensures
        final(out)@ == old(out)@ + i64_le(x),
        i64_le(x).len() == 8,
{
    put_u64(out, i64_to_bits(x));
}

/// Appends `n` zero bytes to `out`.
pub fn put_zeros(out: &mut Vec<u8>, n: usize)
    ensures
        final(out)@ == old(out)@ + zeros(n as nat),
{
    let mut i: usize = 0;
    while i < n
        invariant
            i <= n,
            out@ == old(out)@ + zeros(i as nat),
        decreases n - i,
    {
        out.push(0u8);
        i = i + 1;
        assert(out@ =~= old(out)@ + zeros(i as nat));
    }
}

/// Appends the bytes of `data` to `out`.
pub fn put_bytes(out: &mut Vec<u8>, data: &[u8])
    ensures
        final(out)@ == old(out)@ + data@,
{
    out.extend_from_slice(data);
}

/// Reads the little-endian number that starts at byte `at` of `bytes`.
pub fn get_u32(bytes: &[u8], at: usize) -> (x: u32)
    requires
        at + 4 <= bytes@.len(),
    ensures
        x == u32_at(bytes@, at as int),
{
    let b0: u32 = bytes[at] as u32;
    let b1: u32 = bytes[at + 1] as u32;
    let b2: u32 = bytes[at + 2] as u32;
    let b3: u32 = bytes[at + 3] as u32;
    proof {
        reveal(u32_at);
    }
    b0 + 256 * b1 + 65536 * b2 + 16777216 * b3
}

/// Reads the little-endian number that starts at byte `at` of `bytes`.
pub fn get_u64(bytes: &[u8], at: usize) -> (x: u64)
    requires
        at + 8 <= bytes@.len(),
    ensures
        x == u64_at(bytes@, at as int),
{
    let len: usize = bytes.len();
    assert(at + 8 <= len);
    let lo: u64 = get_u32(bytes, at) as u64;
    let hi: u64 = get_u32(bytes, at + 4) as u64;
    proof {
        reveal(u64_at);
    }
    lo + 4294967296 * hi
}

/// Reads the little-endian two's complement number at byte `at`.
pub fn get_i32(bytes: &[u8], at: usize) -> (x: i32)
    requires
        at + 4 <= bytes@.len(),
    ensures
        x == i32_at(bytes@, at as int),
{
    i32_from_bits(get_u32(bytes, at))
}

/// Reads the little-endian two's complement number at byte `at`.
pub fn get_i64(bytes: &[u8], at: usize) -> (x: i64)
    requires
        at + 8 <= bytes@.len(),
    ensures
        x == i64_at(bytes@, at as int),
{
    i64_from_bits(get_u64(bytes, at))
}

} // verus!
