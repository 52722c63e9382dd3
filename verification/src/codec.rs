//! Little-endian encoding of unsigned 64-bit integers, as both wire formats
//! of this crate use it.

use vstd::prelude::*;

verus! {

/// The number that eight bytes stand for when the first byte is the least
/// significant one. Meaningful for sequences of length eight.
pub open spec fn u64_from_le(s: Seq<u8>) -> int {
    s[0] as int
        + s[1] as int * 0x100
        + s[2] as int * 0x1_0000
        + s[3] as int * 0x100_0000
        + s[4] as int * 0x1_0000_0000
        + s[5] as int * 0x100_0000_0000
        + s[6] as int * 0x1_0000_0000_0000
        + s[7] as int * 0x100_0000_0000_0000
}

/// The eight bytes that stand for `x`, least significant byte first.
pub open spec fn u64_to_le(x: u64) -> Seq<u8> {
    seq![
        (x % 0x100) as u8,
        ((x / 0x100) % 0x100) as u8,
        ((x / 0x1_0000) % 0x100) as u8,
        ((x / 0x100_0000) % 0x100) as u8,
        ((x / 0x1_0000_0000) % 0x100) as u8,
        ((x / 0x100_0000_0000) % 0x100) as u8,
        ((x / 0x1_0000_0000_0000) % 0x100) as u8,
        ((x / 0x100_0000_0000_0000) % 0x100) as u8,
    ]
}

/// Eight bytes always stand for a number that fits in 64 bits.
pub proof fn lemma_u64_from_le_bounds(s: Seq<u8>)
    requires
        s.len() == 8,
    ensures
        0 <= u64_from_le(s) <= u64::MAX,
{
}

/// Decoding what was encoded gives the number back.
pub proof fn lemma_u64_le_roundtrip(x: u64)
    ensures
        u64_to_le(x).len() == 8,
        u64_from_le(u64_to_le(x)) == x,
{
    let q1 = x / 0x100;
    let q2 = q1 / 0x100;
    let q3 = q2 / 0x100;
    let q4 = q3 / 0x100;
    let q5 = q4 / 0x100;
    let q6 = q5 / 0x100;
    let q7 = q6 / 0x100;
    assert(q2 == x / 0x1_0000);
    assert(q3 == x / 0x100_0000);
    assert(q4 == x / 0x1_0000_0000);
    assert(q5 == x / 0x100_0000_0000);
    assert(q6 == x / 0x1_0000_0000_0000);
    assert(q7 == x / 0x100_0000_0000_0000);
    assert(q7 < 0x100);
}

/// Encoding what was decoded gives the bytes back.
pub proof fn lemma_u64_le_bytes_roundtrip(s: Seq<u8>)
    requires
        s.len() == 8,
    ensures
        u64_to_le(u64_from_le(s) as u64) == s,
{
    lemma_u64_from_le_bounds(s);
    let x = u64_from_le(s) as u64;
    let t7: int = s[7] as int;
    let t6: int = s[6] + 0x100 * t7;
    let t5: int = s[5] + 0x100 * t6;
    let t4: int = s[4] + 0x100 * t5;
    let t3: int = s[3] + 0x100 * t4;
    let t2: int = s[2] + 0x100 * t3;
    let t1: int = s[1] + 0x100 * t2;
    let t0: int = s[0] + 0x100 * t1;
    assert(t0 == x);
    assert(x / 0x100 == t1 && x % 0x100 == s[0]);
    assert(t1 / 0x100 == t2 && t1 % 0x100 == s[1]);
    assert(t2 / 0x100 == t3 && t2 % 0x100 == s[2]);
    assert(t3 / 0x100 == t4 && t3 % 0x100 == s[3]);
    assert(t4 / 0x100 == t5 && t4 % 0x100 == s[4]);
    assert(t5 / 0x100 == t6 && t5 % 0x100 == s[5]);
    assert(t6 / 0x100 == t7 && t6 % 0x100 == s[6]);
    assert(t2 == x / 0x1_0000);
    assert(t3 == x / 0x100_0000);
    assert(t4 == x / 0x1_0000_0000);
    assert(t5 == x / 0x100_0000_0000);
    assert(t6 == x / 0x1_0000_0000_0000);
    assert(t7 == x / 0x100_0000_0000_0000);
    assert(u64_to_le(x) =~= s);
}

/// Reads the number that the eight bytes of `src` from `at` on stand for.
pub fn read_u64_le(src: &[u8], at: usize) -> (x: u64)
    requires
        at + 8 <= src@.len(),
    ensures
        x == u64_from_le(src@.subrange(at as int, at + 8)),
{
    let b0: u64 = src[at] as u64;
    let b1: u64 = src[at + 1] as u64;
    let b2: u64 = src[at + 2] as u64;
    let b3: u64 = src[at + 3] as u64;
    let b4: u64 = src[at + 4] as u64;
    let b5: u64 = src[at + 5] as u64;
    let b6: u64 = src[at + 6] as u64;
    let b7: u64 = src[at + 7] as u64;
    b0 + b1 * 0x100 + b2 * 0x1_0000 + b3 * 0x100_0000 + b4 * 0x1_0000_0000 + b5
        * 0x100_0000_0000 + b6 * 0x1_0000_0000_0000 + b7 * 0x100_0000_0000_0000
}

/// Appends the eight bytes that stand for `x` to `dst`.
pub fn push_u64_le(dst: &mut Vec<u8>, x: u64)
    ensures
        final(dst)@ == old(dst)@ + u64_to_le(x),
{
    dst.push((x % 0x100) as u8);
    dst.push(((x / 0x100) % 0x100) as u8);
    dst.push(((x / 0x1_0000) % 0x100) as u8);
    dst.push(((x / 0x100_0000) % 0x100) as u8);
    dst.push(((x / 0x1_0000_0000) % 0x100) as u8);
    dst.push(((x / 0x100_0000_0000) % 0x100) as u8);
    dst.push(((x / 0x1_0000_0000_0000) % 0x100) as u8);
    dst.push(((x / 0x100_0000_0000_0000) % 0x100) as u8);
    assert(dst@ =~= old(dst)@ + u64_to_le(x));
}

} // verus!
