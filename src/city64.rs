//! The 64-bit family: length-bucketed digests up to 64 bytes and a
//! 64-byte chunk loop over five words of state beyond that.
use vstd::prelude::*;

use crate::mix::{
    bswap64, hash_len_16_u64, hash_len_16_with_mul, le32, le64, read_le32, read_le64, rotate64,
    rotr64, shift_mix, spec_hash_len_16, spec_hash_len_16_with_mul, spec_shift_mix, swap_bytes64,
    K0, K1, K2,
};

verus! {

/// Digest of an input of at most 16 bytes: one or two reads folded under a
/// multiplier that grows with the length.
pub open spec fn spec_hash64_len_0_to_16(s: Seq<u8>) -> u64 {
    let len = s.len();
    if len >= 8 {
        let mul = K2.wrapping_add((len as u64).wrapping_mul(2));
        let a = le64(s, 0).wrapping_add(K2);
        let b = le64(s, len - 8);
        let c = rotr64(b, 37).wrapping_mul(mul).wrapping_add(a);
        let d = rotr64(a, 25).wrapping_add(b).wrapping_mul(mul);
        spec_hash_len_16_with_mul(c, d, mul)
    } else if len >= 4 {
        let mul = K2.wrapping_add((len as u64).wrapping_mul(2));
        let a = le32(s, 0) as u64;
        spec_hash_len_16_with_mul((len as u64).wrapping_add(a << 3u64), le32(s, len - 4) as u64, mul)
    } else if len > 0 {
        let a = s[0] as u32;
        let b = s[(len / 2) as int] as u32;
        let c = s[len - 1] as u32;
        let y = a.wrapping_add(b << 8u32);
        let z = (len as u32).wrapping_add(c << 2u32);
        spec_shift_mix((y as u64).wrapping_mul(K2) ^ (z as u64).wrapping_mul(K0)).wrapping_mul(K2)
    } else {
        K2
    }
}

/// Digest of an input of at most 16 bytes.
pub fn hash64_len_0_to_16(bytes: &[u8]) -> (r: u64)
    requires
        bytes@.len() <= 16,
    ensures
        r == spec_hash64_len_0_to_16(bytes@),
{
    let len = bytes.len();
    if len >= 8 {
        let mul = K2.wrapping_add((len as u64).wrapping_mul(2));
        let a = read_le64(bytes, 0).wrapping_add(K2);
        let b = read_le64(bytes, len - 8);
        let c = rotate64(b, 37).wrapping_mul(mul).wrapping_add(a);
        let d = rotate64(a, 25).wrapping_add(b).wrapping_mul(mul);
        hash_len_16_with_mul(c, d, mul)
    } else if len >= 4 {
        let mul = K2.wrapping_add((len as u64).wrapping_mul(2));
        let a = read_le32(bytes, 0) as u64;
        hash_len_16_with_mul((len as u64).wrapping_add(a << 3u64), read_le32(bytes, len - 4) as u64, mul)
    } else if len > 0 {
        let a = bytes[0] as u32;
        let b = bytes[len / 2] as u32;
        let c = bytes[len - 1] as u32;
        let y = a.wrapping_add(b << 8u32);
        let z = (len as u32).wrapping_add(c << 2u32);
        shift_mix((y as u64).wrapping_mul(K2) ^ (z as u64).wrapping_mul(K0)).wrapping_mul(K2)
    } else {
        K2
    }
}

/// Digest of an input of 17 to 32 bytes: four words folded under a length-scaled multiplier.
pub open spec fn spec_hash64_len_17_to_32(s: Seq<u8>) -> u64 {
    let len = s.len();
    let mul = K2.wrapping_add((len * 2) as u64);
    let a = le64(s, 0).wrapping_mul(K1);
    let b = le64(s, 8);
    let c = le64(s, len - 8).wrapping_mul(mul);
    let d = le64(s, len - 16).wrapping_mul(K2);
    spec_hash_len_16_with_mul(
        rotr64(a.wrapping_add(b), 43).wrapping_add(rotr64(c, 30)).wrapping_add(d),
        a.wrapping_add(rotr64(b.wrapping_add(K2), 18)).wrapping_add(c),
        mul,
    )
}

/// Digest of an input of 17 to 32 bytes.
pub fn hash64_len_17_to_32(bytes: &[u8]) -> (r: u64)
    requires
        17 <= bytes@.len() <= 32,
    ensures
        r == spec_hash64_len_17_to_32(bytes@),
{
    let len = bytes.len();
    let mul = K2.wrapping_add(len as u64 * 2);
    let a = read_le64(bytes, 0).wrapping_mul(K1);
    let b = read_le64(bytes, 8);
    let c = read_le64(bytes, len - 8).wrapping_mul(mul);
    let d = read_le64(bytes, len - 16).wrapping_mul(K2);
    hash_len_16_with_mul(
        rotate64(a.wrapping_add(b), 43).wrapping_add(rotate64(c, 30)).wrapping_add(d),
        a.wrapping_add(rotate64(b.wrapping_add(K2), 18)).wrapping_add(c),
        mul,
    )
}

/// The 32-byte weak hash: four words and two seeds folded into two words.
pub open spec fn spec_weak_hash_words(w: u64, x: u64, y: u64, z: u64, a: u64, b: u64) -> (u64, u64) {
    let a = a.wrapping_add(w);
    let b = rotr64(b.wrapping_add(a).wrapping_add(z), 21);
    let c = a;
    let a = a.wrapping_add(x);
    let a = a.wrapping_add(y);
    let b = b.wrapping_add(rotr64(a, 44));
    (a.wrapping_add(z), b.wrapping_add(c))
}

/// The weak hash of the 32 bytes at `at`.
pub open spec fn spec_weak_hash_len_32_with_seeds(s: Seq<u8>, at: int, a: u64, b: u64) -> (u64, u64) {
    spec_weak_hash_words(le64(s, at), le64(s, at + 8), le64(s, at + 16), le64(s, at + 24), a, b)
}

/// The weak hash of four words under two seeds.
pub fn weak_hash_len_32_with_seeds_impl(w: u64, x: u64, y: u64, z: u64, a: u64, b: u64) -> (r: (
    u64,
    u64,
))
    ensures
        r == spec_weak_hash_words(w, x, y, z, a, b),
{
    let a = a.wrapping_add(w);
    let b = rotate64(b.wrapping_add(a).wrapping_add(z), 21);
    let c = a;
    let a = a.wrapping_add(x);
    let a = a.wrapping_add(y);
    let b = b.wrapping_add(rotate64(a, 44));
    (a.wrapping_add(z), b.wrapping_add(c))
}

/// The weak hash of the 32 bytes at `at` under two seeds.
pub fn weak_hash_len_32_with_seeds(bytes: &[u8], at: usize, a: u64, b: u64) -> (r: (u64, u64))
    requires
        at + 32 <= bytes.len(),
    ensures
        r == spec_weak_hash_len_32_with_seeds(bytes@, at as int, a, b),
{
    weak_hash_len_32_with_seeds_impl(
        read_le64(bytes, at),
        read_le64(bytes, at + 8),
        read_le64(bytes, at + 16),
        read_le64(bytes, at + 24),
        a,
        b,
    )
}

/// Digest of an input of 33 to 64 bytes: eight words with byte swaps between the folds.
pub open spec fn spec_hash64_len_33_to_64(s: Seq<u8>) -> u64 {
    let len = s.len();
    let mul = K2.wrapping_add((len * 2) as u64);
    let a = le64(s, 0).wrapping_mul(K2);
    let b = le64(s, 8);
    let c = le64(s, len - 24);
    let d = le64(s, len - 32);
    let e = le64(s, 16).wrapping_mul(K2);
    let f = le64(s, 24).wrapping_mul(9);
    let g = le64(s, len - 8);
    let h = le64(s, len - 16).wrapping_mul(mul);
    let u = rotr64(a.wrapping_add(g), 43).wrapping_add(
        rotr64(b, 30).wrapping_add(c).wrapping_mul(9),
    );
    let v = (a.wrapping_add(g) ^ d).wrapping_add(f).wrapping_add(1);
    let w = bswap64(u.wrapping_add(v).wrapping_mul(mul)).wrapping_add(h);
    let x = rotr64(e.wrapping_add(f), 42).wrapping_add(c);
    let y = bswap64(v.wrapping_add(w).wrapping_mul(mul)).wrapping_add(g).wrapping_mul(mul);
    let z = e.wrapping_add(f).wrapping_add(c);
    let a = bswap64(x.wrapping_add(z).wrapping_mul(mul).wrapping_add(y)).wrapping_add(b);
    let b = spec_shift_mix(
        z.wrapping_add(a).wrapping_mul(mul).wrapping_add(d).wrapping_add(h),
    ).wrapping_mul(mul);
    b.wrapping_add(x)
}

/// Digest of an input of 33 to 64 bytes.
pub fn hash64_len_33_to_64(bytes: &[u8]) -> (r: u64)
    requires
        33 <= bytes@.len() <= 64,
    ensures
        r == spec_hash64_len_33_to_64(bytes@),
{
    let len = bytes.len();
    let mul = K2.wrapping_add(len as u64 * 2);
    let a = read_le64(bytes, 0).wrapping_mul(K2);
    let b = read_le64(bytes, 8);
    let c = read_le64(bytes, len - 24);
    let d = read_le64(bytes, len - 32);
    let e = read_le64(bytes, 16).wrapping_mul(K2);
    let f = read_le64(bytes, 24).wrapping_mul(9);
    let g = read_le64(bytes, len - 8);
    let h = read_le64(bytes, len - 16).wrapping_mul(mul);
    let u = rotate64(a.wrapping_add(g), 43).wrapping_add(
        rotate64(b, 30).wrapping_add(c).wrapping_mul(9),
    );
    let v = (a.wrapping_add(g) ^ d).wrapping_add(f).wrapping_add(1);
    let w = swap_bytes64(u.wrapping_add(v).wrapping_mul(mul)).wrapping_add(h);
    let x = rotate64(e.wrapping_add(f), 42).wrapping_add(c);
    let y = swap_bytes64(v.wrapping_add(w).wrapping_mul(mul)).wrapping_add(g).wrapping_mul(mul);
    let z = e.wrapping_add(f).wrapping_add(c);
    let a = swap_bytes64(x.wrapping_add(z).wrapping_mul(mul).wrapping_add(y)).wrapping_add(b);
    let b = shift_mix(z.wrapping_add(a).wrapping_mul(mul).wrapping_add(d).wrapping_add(h)).wrapping_mul(
        mul,
    );
    b.wrapping_add(x)
}

/// The five words of state carried through the long-input loop.
#[derive(Clone, Copy)]
pub struct LongState {
    pub x: u64,
    pub y: u64,
    pub z: u64,
    pub v: (u64, u64),
    pub w: (u64, u64),
}

/// The state after hashing the last 64 bytes, before the chunk loop.
#[verifier::opaque]
pub open spec fn spec_long64_init(s: Seq<u8>) -> LongState {
    let len = s.len();
    let x = le64(s, len - 40);
    let y = le64(s, len - 16).wrapping_add(le64(s, len - 56));
    let z = spec_hash_len_16(le64(s, len - 48).wrapping_add(len as u64), le64(s, len - 24));
    let v = spec_weak_hash_len_32_with_seeds(s, len - 64, len as u64, z);
    let w = spec_weak_hash_len_32_with_seeds(s, len - 32, y.wrapping_add(K1), x);
    LongState { x: x.wrapping_mul(K1).wrapping_add(le64(s, 0)), y, z, v, w }
}

/// One 64-byte chunk at `at`: the words are stirred and `x` and `z` trade places.
#[verifier::opaque]
pub open spec fn spec_long64_step(st: LongState, s: Seq<u8>, at: int) -> LongState {
    let x = rotr64(st.x.wrapping_add(st.y).wrapping_add(st.v.0).wrapping_add(le64(s, at + 8)), 37).wrapping_mul(K1);
    let y = rotr64(st.y.wrapping_add(st.v.1).wrapping_add(le64(s, at + 48)), 42).wrapping_mul(K1);
    let x = x ^ st.w.1;
    let y = y.wrapping_add(st.v.0.wrapping_add(le64(s, at + 40)));
    let z = rotr64(st.z.wrapping_add(st.w.0), 33).wrapping_mul(K1);
    let v = spec_weak_hash_len_32_with_seeds(s, at, st.v.1.wrapping_mul(K1), x.wrapping_add(st.w.0));
    let w = spec_weak_hash_len_32_with_seeds(
        s,
        at + 32,
        z.wrapping_add(st.w.1),
        y.wrapping_add(le64(s, at + 16)),
    );
    LongState { x: z, y, z: x, v, w }
}

/// The state after the first `n` chunks.
pub open spec fn spec_long64_loop(s: Seq<u8>, n: nat) -> LongState
    decreases n,
{
    if n == 0 {
        spec_long64_init(s)
    } else {
        spec_long64_step(spec_long64_loop(s, (n - 1) as nat), s, 64 * (n - 1))
    }
}

/// Digest of an input of more than 64 bytes.
pub open spec fn spec_hash64_long(s: Seq<u8>) -> u64 {
    let st = spec_long64_loop(s, ((s.len() - 1) / 64) as nat);
    spec_hash_len_16(
        spec_hash_len_16(st.v.0, st.w.0).wrapping_add(
            spec_shift_mix(st.y).wrapping_mul(K1).wrapping_add(st.z),
        ),
        spec_hash_len_16(st.v.1, st.w.1).wrapping_add(st.x),
    )
}

/// The 64-bit CityHash of a byte sequence.
pub open spec fn spec_city_hash64(s: Seq<u8>) -> u64 {
    if s.len() <= 16 {
        spec_hash64_len_0_to_16(s)
    } else if s.len() <= 32 {
        spec_hash64_len_17_to_32(s)
    } else if s.len() <= 64 {
        spec_hash64_len_33_to_64(s)
    } else {
        spec_hash64_long(s)
    }
}

/// The seeded 64-bit digest: the unseeded one, offset and folded with the seeds.
pub open spec fn spec_city_hash64_with_seeds(s: Seq<u8>, seed0: u64, seed1: u64) -> u64 {
    spec_hash_len_16(spec_city_hash64(s).wrapping_sub(seed0), seed1)
}

/// The 64-bit CityHash under one seed.
pub open spec fn spec_city_hash64_with_seed(s: Seq<u8>, seed: u64) -> u64 {
    spec_city_hash64_with_seeds(s, K0, seed)
}

fn long64_step(st: LongState, bytes: &[u8], at: usize) -> (r: LongState)
    requires
        at + 64 <= bytes.len(),
    ensures
        r == spec_long64_step(st, bytes@, at as int),
{
    reveal(spec_long64_step);
    let mut x = rotate64(
        st.x.wrapping_add(st.y).wrapping_add(st.v.0).wrapping_add(read_le64(bytes, at + 8)),
        37,
    ).wrapping_mul(K1);
    let mut y = rotate64(st.y.wrapping_add(st.v.1).wrapping_add(read_le64(bytes, at + 48)), 42).wrapping_mul(K1);
    x = x ^ st.w.1;
    y = y.wrapping_add(st.v.0.wrapping_add(read_le64(bytes, at + 40)));
    let z = rotate64(st.z.wrapping_add(st.w.0), 33).wrapping_mul(K1);
    let v = weak_hash_len_32_with_seeds(bytes, at, st.v.1.wrapping_mul(K1), x.wrapping_add(st.w.0));
    let w = weak_hash_len_32_with_seeds(
        bytes,
        at + 32,
        z.wrapping_add(st.w.1),
        y.wrapping_add(read_le64(bytes, at + 16)),
    );
    LongState { x: z, y, z: x, v, w }
}

/// A chunk of `width` bytes at `width * i`, for `i` below `(len - 1) / width`, ends within `len`.
pub proof fn lemma_chunk_in_bounds(i: int, chunks: int, len: int, width: int)
    requires
        0 <= i < chunks,
        width > 0,
        len >= 1,
        chunks == (len - 1) / width,
    ensures
        width * i + width <= len - 1,
{
    assert(width * i + width <= width * chunks) by (nonlinear_arith)
        requires
            i < chunks,
            width > 0,
    ;
    assert(width * ((len - 1) / width) <= len - 1) by (nonlinear_arith)
        requires
            width > 0,
            len >= 1,
    ;
}

fn long64_init(bytes: &[u8]) -> (r: LongState)
    requires
        bytes@.len() > 64,
    ensures
        r == spec_long64_init(bytes@),
{
    reveal(spec_long64_init);
    let len = bytes.len();
    let x = read_le64(bytes, len - 40);
    let y = read_le64(bytes, len - 16).wrapping_add(read_le64(bytes, len - 56));
    let z = hash_len_16_u64(read_le64(bytes, len - 48).wrapping_add(len as u64), read_le64(bytes, len - 24));
    let v = weak_hash_len_32_with_seeds(bytes, len - 64, len as u64, z);
    let w = weak_hash_len_32_with_seeds(bytes, len - 32, y.wrapping_add(K1), x);
    LongState { x: x.wrapping_mul(K1).wrapping_add(read_le64(bytes, 0)), y, z, v, w }
}

fn hash64_long(bytes: &[u8]) -> (r: u64)
    requires
        bytes@.len() > 64,
    ensures
        r == spec_hash64_long(bytes@),
{
    let len = bytes.len();
    let mut st = long64_init(bytes);
    let chunks = (len - 1) / 64;
    let mut i: usize = 0;
    while i < chunks
        invariant
            len == bytes@.len(),
            len > 64,
            chunks == (len - 1) / 64,
            i <= chunks,
            st == spec_long64_loop(bytes@, i as nat),
        decreases chunks - i,
    {
        proof {
            lemma_chunk_in_bounds(i as int, chunks as int, len as int, 64);
        }
        st = long64_step(st, bytes, 64 * i);
        i = i + 1;
    }
    hash_len_16_u64(
        hash_len_16_u64(st.v.0, st.w.0).wrapping_add(shift_mix(st.y).wrapping_mul(K1).wrapping_add(st.z)),
        hash_len_16_u64(st.v.1, st.w.1).wrapping_add(st.x),
    )
}

/// Computes the 64-bit CityHash of a byte slice.
pub fn city_hash64(bytes: &[u8]) -> (r: u64)
    ensures
        r == spec_city_hash64(bytes@),
{
    let len = bytes.len();
    if len <= 32 {
        if len <= 16 {
            hash64_len_0_to_16(bytes)
        } else {
            hash64_len_17_to_32(bytes)
        }
    } else if len <= 64 {
        hash64_len_33_to_64(bytes)
    } else {
        hash64_long(bytes)
    }
}

fn city_hash64_with_seeds(bytes: &[u8], seed0: u64, seed1: u64) -> (r: u64)
    ensures
        r == spec_city_hash64_with_seeds(bytes@, seed0, seed1),
{
    hash_len_16_u64(city_hash64(bytes).wrapping_sub(seed0), seed1)
}

/// Computes the 64-bit CityHash of a byte slice under a 64-bit seed.
pub fn city_hash64_with_seed(bytes: &[u8], seed: u64) -> (r: u64)
    ensures
        r == spec_city_hash64_with_seed(bytes@, seed),
{
    city_hash64_with_seeds(bytes, K0, seed)
}

} // verus!
