//! The 32-bit family: length buckets split at 4, 12 and 24 bytes and a
//! 20-byte chunk loop over three words of state.
use vstd::prelude::*;

use crate::city64::lemma_chunk_in_bounds;
use crate::mix::{bswap32, le32, read_le32, rotate32, rotr32, swap_bytes32};

verus! {

/// Multiplicative constants of the Murmur3 mixing steps.
pub const C1: u32 = 0xcc9e2d51;
pub const C2: u32 = 0x1b873593;

/// The additive constant of the `h * 5 + n` step.
pub const N1: u32 = 0xe6546b64;

/// The Murmur3 finaliser: three xor-shifts interleaved with two multiplications.
pub open spec fn spec_fmix(h: u32) -> u32 {
    let h = h ^ (h >> 16u32);
    let h = h.wrapping_mul(0x85ebca6b);
    let h = h ^ (h >> 13u32);
    let h = h.wrapping_mul(0xc2b2ae35);
    h ^ (h >> 16u32)
}

/// A word scrambled before it is combined: multiply, rotate, multiply.
pub open spec fn spec_scramble32(a: u32) -> u32 {
    rotr32(a.wrapping_mul(C1), 17).wrapping_mul(C2)
}

/// The Murmur3 combine of a word `a` into a running value `h`.
pub open spec fn spec_mur(a: u32, h: u32) -> u32 {
    rotr32(h ^ spec_scramble32(a), 19).wrapping_mul(5).wrapping_add(N1)
}

/// The Murmur3 finaliser of a 32-bit word.
pub fn fmix(h: u32) -> (r: u32)
    ensures
        r == spec_fmix(h),
{
    let mut h = h;
    h = h ^ (h >> 16u32);
    h = h.wrapping_mul(0x85ebca6b);
    h = h ^ (h >> 13u32);
    h = h.wrapping_mul(0xc2b2ae35);
    h ^ (h >> 16u32)
}

fn scramble32(a: u32) -> (r: u32)
    ensures
        r == spec_scramble32(a),
{
    rotate32(a.wrapping_mul(C1), 17).wrapping_mul(C2)
}

/// Combines the word `a` into the running value `h`.
pub fn mur(a: u32, h: u32) -> (r: u32)
    ensures
        r == spec_mur(a, h),
{
    rotate32(h ^ scramble32(a), 19).wrapping_mul(5).wrapping_add(N1)
}

/// Rotates three values: `a` takes `c`'s, `b` takes `a`'s and `c` takes `b`'s.
pub fn permute3<T>(a: &mut T, b: &mut T, c: &mut T)
    ensures
        *final(a) == *old(c),
        *final(b) == *old(a),
        *final(c) == *old(b),
{
    std::mem::swap(a, b);
    std::mem::swap(a, c);
}

/// The byte fold of a short input over its first `n` bytes: the pair `(b, c)`.
pub open spec fn spec_len4_fold(s: Seq<u8>, n: nat) -> (u32, u32)
    decreases n,
{
    if n == 0 || n > s.len() {
        (0, 9)
    } else {
        let (b, c) = spec_len4_fold(s, (n - 1) as nat);
        let b = b.wrapping_mul(C1).wrapping_add((s[n - 1] as i8) as u32);
        (b, c ^ b)
    }
}

/// Digest of an input of at most 4 bytes: each byte, sign-extended, folded into `b` and `c`.
pub open spec fn spec_hash32_len_0_to_4(s: Seq<u8>) -> u32 {
    let (b, c) = spec_len4_fold(s, s.len());
    spec_fmix(spec_mur(b, spec_mur(s.len() as u32, c)))
}

fn hash32_len4(bytes: &[u8]) -> (r: u32)
    ensures
        r == spec_hash32_len_0_to_4(bytes@),
{
    let mut b: u32 = 0;
    let mut c: u32 = 9;
    let mut i: usize = 0;
    while i < bytes.len()
        invariant
            i <= bytes@.len(),
            (b, c) == spec_len4_fold(bytes@, i as nat),
        decreases bytes.len() - i,
    {
        let v = bytes[i] as i8;
        b = b.wrapping_mul(C1).wrapping_add(v as u32);
        c = c ^ b;
        i = i + 1;
    }
    fmix(mur(b, mur(bytes.len() as u32, c)))
}

/// Digest of an input of 5 to 12 bytes: the first, last and a middle word.
pub open spec fn spec_hash32_len_5_to_12(s: Seq<u8>) -> u32 {
    let len = s.len() as u32;
    let a = len.wrapping_add(le32(s, 0));
    let b = len.wrapping_mul(5).wrapping_add(le32(s, s.len() - 4));
    let c = 9u32.wrapping_add(le32(s, ((len >> 1u32) & 4u32) as int));
    let d = len.wrapping_mul(5);
    spec_fmix(spec_mur(c, spec_mur(b, spec_mur(a, d))))
}

fn hash32_len5to12(bytes: &[u8]) -> (r: u32)
    requires
        5 <= bytes.len() <= 12,
    ensures
        r == spec_hash32_len_5_to_12(bytes@),
{
    let len = bytes.len() as u32;
    let mid = (len >> 1u32) & 4u32;
    assert(mid == 0 || (mid == 4 && len >= 8)) by (bit_vector)
        requires
            mid == (len >> 1u32) & 4u32,
            5 <= len <= 12,
    ;
    let a = len.wrapping_add(read_le32(bytes, 0));
    let b = len.wrapping_mul(5).wrapping_add(read_le32(bytes, bytes.len() - 4));
    let c = 9u32.wrapping_add(read_le32(bytes, mid as usize));
    let d = len.wrapping_mul(5);
    fmix(mur(c, mur(b, mur(a, d))))
}

/// Digest of an input of 13 to 24 bytes: six words at fixed offsets.
pub open spec fn spec_hash32_len_13_to_24(s: Seq<u8>) -> u32 {
    let len = s.len();
    let a = le32(s, len / 2 - 4);
    let b = le32(s, 4);
    let c = le32(s, len - 8);
    let d = le32(s, (len / 2) as int);
    let e = le32(s, 0);
    let f = le32(s, len - 4);
    spec_fmix(spec_mur(f, spec_mur(e, spec_mur(d, spec_mur(c, spec_mur(b, spec_mur(a, len as u32)))))))
}

fn hash32_len13to24(bytes: &[u8]) -> (r: u32)
    requires
        13 <= bytes.len() <= 24,
    ensures
        r == spec_hash32_len_13_to_24(bytes@),
{
    let len = bytes.len();
    let a = read_le32(bytes, len / 2 - 4);
    let b = read_le32(bytes, 4);
    let c = read_le32(bytes, len - 8);
    let d = read_le32(bytes, len / 2);
    let e = read_le32(bytes, 0);
    let f = read_le32(bytes, len - 4);
    fmix(mur(f, mur(e, mur(d, mur(c, mur(b, mur(a, len as u32)))))))
}

/// `h * 5 + N1`, the step that closes each combine.
pub open spec fn spec_times5(h: u32) -> u32 {
    h.wrapping_mul(5).wrapping_add(N1)
}

/// The words `(f, g, h)` after the last 20 bytes are mixed in, before the chunk loop.
pub open spec fn spec_long32_init(s: Seq<u8>) -> (u32, u32, u32) {
    let len = s.len();
    let h = len as u32;
    let g = C1.wrapping_mul(h);
    let a0 = spec_scramble32(le32(s, len - 4));
    let a1 = spec_scramble32(le32(s, len - 8));
    let a2 = spec_scramble32(le32(s, len - 16));
    let a3 = spec_scramble32(le32(s, len - 12));
    let a4 = spec_scramble32(le32(s, len - 20));
    let h = spec_times5(rotr32(h ^ a0, 19));
    let h = spec_times5(rotr32(h ^ a2, 19));
    let f = spec_times5(rotr32(g.wrapping_add(a4), 19));
    let g = spec_times5(rotr32(g ^ a1, 19));
    let g = spec_times5(rotr32(g ^ a3, 19));
    (f, g, h)
}

/// One 20-byte chunk at `at`, ending in the rotation of `f`, `h` and `g`.
pub open spec fn spec_long32_step(st: (u32, u32, u32), s: Seq<u8>, at: int) -> (u32, u32, u32) {
    let (f, g, h) = st;
    let a0 = spec_scramble32(le32(s, at));
    let a1 = le32(s, at + 4);
    let a2 = spec_scramble32(le32(s, at + 8));
    let a3 = spec_scramble32(le32(s, at + 12));
    let a4 = le32(s, at + 16);
    let h = spec_times5(rotr32(h ^ a0, 18));
    let f = rotr32(f.wrapping_add(a1), 19).wrapping_mul(C1);
    let g = spec_times5(rotr32(g.wrapping_add(a2), 18));
    let h = spec_times5(rotr32(h ^ a3.wrapping_add(a1), 19));
    let g = bswap32(g ^ a4).wrapping_mul(5);
    let h = bswap32(h.wrapping_add(a4.wrapping_mul(5)));
    let f = f.wrapping_add(a0);
    (g, h, f)
}

/// The words after the first `n` chunks.
pub open spec fn spec_long32_loop(s: Seq<u8>, n: nat) -> (u32, u32, u32)
    decreases n,
{
    if n == 0 {
        spec_long32_init(s)
    } else {
        spec_long32_step(spec_long32_loop(s, (n - 1) as nat), s, 20 * (n - 1))
    }
}

/// Digest of an input of more than 24 bytes.
pub open spec fn spec_hash32_long(s: Seq<u8>) -> u32 {
    let (f, g, h) = spec_long32_loop(s, ((s.len() - 1) / 20) as nat);
    let g = rotr32(rotr32(g, 11).wrapping_mul(C1), 17).wrapping_mul(C1);
    let f = rotr32(rotr32(f, 11).wrapping_mul(C1), 17).wrapping_mul(C1);
    let h = rotr32(spec_times5(rotr32(h.wrapping_add(g), 19)), 17).wrapping_mul(C1);
    rotr32(spec_times5(rotr32(h.wrapping_add(f), 19)), 17).wrapping_mul(C1)
}

/// The 32-bit CityHash of a byte sequence.
pub open spec fn spec_city_hash32(s: Seq<u8>) -> u32 {
    if s.len() <= 4 {
        spec_hash32_len_0_to_4(s)
    } else if s.len() <= 12 {
        spec_hash32_len_5_to_12(s)
    } else if s.len() <= 24 {
        spec_hash32_len_13_to_24(s)
    } else {
        spec_hash32_long(s)
    }
}

fn times5(h: u32) -> (r: u32)
    ensures
        r == spec_times5(h),
{
    h.wrapping_mul(5).wrapping_add(N1)
}

fn long32_init(bytes: &[u8]) -> (r: (u32, u32, u32))
    requires
        bytes.len() > 24,
    ensures
        r == spec_long32_init(bytes@),
{
    let len = bytes.len();
    let h = len as u32;
    let g = C1.wrapping_mul(h);
    let a0 = scramble32(read_le32(bytes, len - 4));
    let a1 = scramble32(read_le32(bytes, len - 8));
    let a2 = scramble32(read_le32(bytes, len - 16));
    let a3 = scramble32(read_le32(bytes, len - 12));
    let a4 = scramble32(read_le32(bytes, len - 20));
    let h = times5(rotate32(h ^ a0, 19));
    let h = times5(rotate32(h ^ a2, 19));
    let f = times5(rotate32(g.wrapping_add(a4), 19));
    let g = times5(rotate32(g ^ a1, 19));
    let g = times5(rotate32(g ^ a3, 19));
    (f, g, h)
}

fn city_hash32_impl(bytes: &[u8]) -> (r: u32)
    ensures
        r == spec_city_hash32(bytes@),
{
    let len = bytes.len();
    if len <= 24 {
        if len <= 12 {
            return if len <= 4 {
                hash32_len4(bytes)
            } else {
                hash32_len5to12(bytes)
            };
        }
        return hash32_len13to24(bytes);
    }
    let (mut f, mut g, mut h) = long32_init(bytes);
    let iters = (len - 1) / 20;
    let mut i: usize = 0;
    while i < iters
        invariant
            len == bytes@.len(),
            len > 24,
            iters == (len - 1) / 20,
            i <= iters,
            (f, g, h) == spec_long32_loop(bytes@, i as nat),
        decreases iters - i,
    {
        proof {
            lemma_chunk_in_bounds(i as int, iters as int, len as int, 20);
        }
        let at = 20 * i;
        let a0 = scramble32(read_le32(bytes, at));
        let a1 = read_le32(bytes, at + 4);
        let a2 = scramble32(read_le32(bytes, at + 8));
        let a3 = scramble32(read_le32(bytes, at + 12));
        let a4 = read_le32(bytes, at + 16);
        h = times5(rotate32(h ^ a0, 18));
        f = rotate32(f.wrapping_add(a1), 19).wrapping_mul(C1);
        g = times5(rotate32(g.wrapping_add(a2), 18));
        h = times5(rotate32(h ^ a3.wrapping_add(a1), 19));
        g = swap_bytes32(g ^ a4).wrapping_mul(5);
        h = swap_bytes32(h.wrapping_add(a4.wrapping_mul(5)));
        f = f.wrapping_add(a0);
        permute3(&mut f, &mut h, &mut g);
        i = i + 1;
    }
    g = rotate32(rotate32(g, 11).wrapping_mul(C1), 17).wrapping_mul(C1);
    f = rotate32(rotate32(f, 11).wrapping_mul(C1), 17).wrapping_mul(C1);
    h = rotate32(times5(rotate32(h.wrapping_add(g), 19)), 17).wrapping_mul(C1);
    rotate32(times5(rotate32(h.wrapping_add(f), 19)), 17).wrapping_mul(C1)
}

/// Computes the 32-bit CityHash of a byte slice.
pub fn city_hash32(bytes: &[u8]) -> (r: u32)
    ensures
        r == spec_city_hash32(bytes@),
{
    city_hash32_impl(bytes)
}

} // verus!
