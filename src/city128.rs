//! The 128-bit family: the hybrid below 128 bytes, a double-chunk loop above.
use vstd::prelude::*;

use crate::city64::{spec_weak_hash_len_32_with_seeds, weak_hash_len_32_with_seeds, LongState};
use crate::mix::{
    hash_len_16_u64, le64, make128, pack128, read_le64, rotate64, rotr64, spec_hash_len_16,
    split128, high64, low64, K0, K1,
};
use crate::city256::{city_hash256_crc, spec_city_hash256_crc_with_seed};
use crate::murmur::{city_murmur_with_seed, spec_city_murmur_with_seed};

verus! {

/// The state before the main loop, from the seed's halves and the first 96 bytes.
pub open spec fn spec_long128_init(s: Seq<u8>, seed: u128) -> LongState {
    let x = low64(seed);
    let y = high64(seed);
    let z = (s.len() as u64).wrapping_mul(K1);
    let v0 = rotr64(y ^ K1, 49).wrapping_mul(K1).wrapping_add(le64(s, 0));
    let v1 = rotr64(v0, 42).wrapping_mul(K1).wrapping_add(le64(s, 8));
    let w0 = rotr64(y.wrapping_add(z), 35).wrapping_mul(K1).wrapping_add(x);
    let w1 = rotr64(x.wrapping_add(le64(s, 88)), 53).wrapping_mul(K1);
    LongState { x, y, z, v: (v0, v1), w: (w0, w1) }
}

/// One 64-byte chunk at `at`, as in the 64-bit loop.
#[verifier::opaque]
pub open spec fn spec_long128_step(st: LongState, s: Seq<u8>, at: int) -> LongState {
    let x = rotr64(st.x.wrapping_add(st.y).wrapping_add(st.v.0).wrapping_add(le64(s, at + 8)), 37).wrapping_mul(K1);
    let y = rotr64(st.y.wrapping_add(st.v.1.wrapping_add(le64(s, at + 48))), 42).wrapping_mul(K1);
    let x = x ^ st.w.1;
    let y = y.wrapping_add(st.v.0.wrapping_add(le64(s, at + 40)));
    let z = rotr64(st.z.wrapping_add(st.w.0), 33).wrapping_mul(K1);
    let v = spec_weak_hash_len_32_with_seeds(s, at, st.v.1.wrapping_mul(K1), x.wrapping_add(st.w.0));
    let w = spec_weak_hash_len_32_with_seeds(
        s,
        at + 32,
        z.wrapping_add(st.w.1),
        y.wrapping_add(le64(s, at + 16)),
    );
    LongState { x: z, y, z: x, v, w }
}

/// The state between the main loop and the tail.
pub open spec fn spec_long128_mid(st: LongState) -> LongState {
    LongState {
        x: st.x.wrapping_add(rotr64(st.v.0.wrapping_add(st.z), 49).wrapping_mul(K0)),
        y: st.y.wrapping_mul(K0).wrapping_add(rotr64(st.w.1, 37)),
        z: st.z.wrapping_mul(K0).wrapping_add(rotr64(st.w.0, 27)),
        v: (st.v.0.wrapping_mul(K0), st.v.1),
        w: (st.w.0.wrapping_mul(9), st.w.1),
    }
}

/// One tail step over the 32 bytes at `at`.
#[verifier::opaque]
pub open spec fn spec_tail128_step(st: LongState, s: Seq<u8>, at: int) -> LongState {
    let y = rotr64(st.x.wrapping_add(st.y), 42).wrapping_mul(K0).wrapping_add(st.v.1);
    let w0 = st.w.0.wrapping_add(le64(s, at + 16));
    let x = st.x.wrapping_mul(K0).wrapping_add(w0);
    let z = st.z.wrapping_add(st.w.1.wrapping_add(le64(s, at)));
    let w1 = st.w.1.wrapping_add(st.v.0);
    let v = spec_weak_hash_len_32_with_seeds(s, at, st.v.0.wrapping_add(z), st.v.1);
    LongState { x, y, z, v: (v.0.wrapping_mul(K0), v.1), w: (w0, w1) }
}

/// Tail steps over 32-byte groups read backwards from the end, `done` bytes of
/// the `rem` left after the main loop having been taken.
pub open spec fn spec_tail128(s: Seq<u8>, st: LongState, rem: int, done: int) -> LongState
    decreases rem + 32 - done,
{
    if done < rem {
        spec_tail128(s, spec_tail128_step(st, s, s.len() - (done + 32)), rem, done + 32)
    } else {
        st
    }
}

/// The main loop from `at` on, two chunks per turn while 128 bytes remain, then the tail.
pub open spec fn spec_main128(s: Seq<u8>, st: LongState, at: int) -> LongState
    decreases s.len() - at,
{
    if at >= 0 && s.len() - at >= 128 {
        spec_main128(
            s,
            spec_long128_step(spec_long128_step(st, s, at), s, at + 64),
            at + 128,
        )
    } else {
        spec_tail128(s, spec_long128_mid(st), s.len() - at, 0)
    }
}

/// The digest of an input of at least 128 bytes under a seed.
pub open spec fn spec_hash128_long(s: Seq<u8>, seed: u128) -> u128 {
    let st = spec_main128(s, spec_long128_init(s, seed), 0);
    let x = spec_hash_len_16(st.x, st.v.0);
    let y = spec_hash_len_16(st.y.wrapping_add(st.z), st.w.0);
    pack128(
        spec_hash_len_16(x.wrapping_add(st.v.1), st.w.1).wrapping_add(y),
        spec_hash_len_16(x.wrapping_add(st.w.1), y.wrapping_add(st.v.1)),
    )
}

/// The seeded 128-bit CityHash of a byte sequence.
pub open spec fn spec_city_hash128_with_seed(s: Seq<u8>, seed: u128) -> u128 {
    if s.len() < 128 {
        spec_city_murmur_with_seed(s, seed)
    } else {
        spec_hash128_long(s, seed)
    }
}

/// The unseeded 128-bit CityHash: the first 16 bytes, when there are that many, seed the rest.
pub open spec fn spec_city_hash128(s: Seq<u8>) -> u128 {
    if s.len() >= 16 {
        spec_city_hash128_with_seed(
            s.subrange(16, s.len() as int),
            pack128(le64(s, 0), le64(s, 8).wrapping_add(K0)),
        )
    } else {
        spec_city_hash128_with_seed(s, pack128(K0, K1))
    }
}

fn long128_init(bytes: &[u8], seed: u128) -> (r: LongState)
    requires
        bytes.len() >= 128,
    ensures
        r == spec_long128_init(bytes@, seed),
{
    let (x, y) = split128(seed);
    let z = (bytes.len() as u64).wrapping_mul(K1);
    let v0 = rotate64(y ^ K1, 49).wrapping_mul(K1).wrapping_add(read_le64(bytes, 0));
    let v1 = rotate64(v0, 42).wrapping_mul(K1).wrapping_add(read_le64(bytes, 8));
    let w0 = rotate64(y.wrapping_add(z), 35).wrapping_mul(K1).wrapping_add(x);
    let w1 = rotate64(x.wrapping_add(read_le64(bytes, 88)), 53).wrapping_mul(K1);
    LongState { x, y, z, v: (v0, v1), w: (w0, w1) }
}

fn long128_step(st: LongState, bytes: &[u8], at: usize) -> (r: LongState)
    requires
        at + 64 <= bytes.len(),
    ensures
        r == spec_long128_step(st, bytes@, at as int),
{
    reveal(spec_long128_step);
    let mut x = rotate64(
        st.x.wrapping_add(st.y).wrapping_add(st.v.0).wrapping_add(read_le64(bytes, at + 8)),
        37,
    ).wrapping_mul(K1);
    let mut y = rotate64(st.y.wrapping_add(st.v.1.wrapping_add(read_le64(bytes, at + 48))), 42).wrapping_mul(K1);
    x = x ^ st.w.1;
    y = y.wrapping_add(st.v.0.wrapping_add(read_le64(bytes, at + 40)));
    let z = rotate64(st.z.wrapping_add(st.w.0), 33).wrapping_mul(K1);
    let v = weak_hash_len_32_with_seeds(bytes, at, st.v.1.wrapping_mul(K1), x.wrapping_add(st.w.0));
    let w = weak_hash_len_32_with_seeds(
        bytes,
        at + 32,
        z.wrapping_add(st.w.1),
        y.wrapping_add(read_le64(bytes, at + 16)),
    );
    LongState { x: z, y, z: x, v, w }
}

fn tail128_step(st: LongState, bytes: &[u8], at: usize) -> (r: LongState)
    requires
        at + 32 <= bytes.len(),
    ensures
        r == spec_tail128_step(st, bytes@, at as int),
{
    reveal(spec_tail128_step);
    let y = rotate64(st.x.wrapping_add(st.y), 42).wrapping_mul(K0).wrapping_add(st.v.1);
    let w0 = st.w.0.wrapping_add(read_le64(bytes, at + 16));
    let x = st.x.wrapping_mul(K0).wrapping_add(w0);
    let z = st.z.wrapping_add(st.w.1.wrapping_add(read_le64(bytes, at)));
    let w1 = st.w.1.wrapping_add(st.v.0);
    let v = weak_hash_len_32_with_seeds(bytes, at, st.v.0.wrapping_add(z), st.v.1);
    LongState { x, y, z, v: (v.0.wrapping_mul(K0), v.1), w: (w0, w1) }
}

fn long128_mid(st: LongState) -> (r: LongState)
    ensures
        r == spec_long128_mid(st),
{
    LongState {
        x: st.x.wrapping_add(rotate64(st.v.0.wrapping_add(st.z), 49).wrapping_mul(K0)),
        y: st.y.wrapping_mul(K0).wrapping_add(rotate64(st.w.1, 37)),
        z: st.z.wrapping_mul(K0).wrapping_add(rotate64(st.w.0, 27)),
        v: (st.v.0.wrapping_mul(K0), st.v.1),
        w: (st.w.0.wrapping_mul(9), st.w.1),
    }
}

fn hash128_long(bytes: &[u8], seed: u128) -> (r: u128)
    requires
        bytes.len() >= 128,
    ensures
        r == spec_hash128_long(bytes@, seed),
{
    let len = bytes.len();
    let ghost s = bytes@;
    let ghost goal = spec_main128(s, spec_long128_init(s, seed), 0);
    let mut st = long128_init(bytes, seed);
    let mut at: usize = 0;
    while len - at >= 128
        invariant
            len == s.len(),
            s == bytes@,
            at <= len,
            spec_main128(s, st, at as int) == goal,
        decreases len - at,
    {
        st = long128_step(st, bytes, at);
        st = long128_step(st, bytes, at + 64);
        at = at + 128;
    }
    let rem = len - at;
    st = long128_mid(st);
    let mut done: usize = 0;
    while done < rem
        invariant
            len == s.len(),
            s == bytes@,
            rem < 128,
            rem <= len,
            len >= 128,
            done <= 128,
            done % 32 == 0,
            spec_tail128(s, st, rem as int, done as int) == goal,
        decreases rem + 32 - done,
    {
        done = done + 32;
        st = tail128_step(st, bytes, len - done);
    }
    let x = hash_len_16_u64(st.x, st.v.0);
    let y = hash_len_16_u64(st.y.wrapping_add(st.z), st.w.0);
    make128(
        hash_len_16_u64(x.wrapping_add(st.v.1), st.w.1).wrapping_add(y),
        hash_len_16_u64(x.wrapping_add(st.w.1), y.wrapping_add(st.v.1)),
    )
}

fn city_128_with_seed_impl(bytes: &[u8], seed: u128) -> (r: u128)
    ensures
        r == spec_city_hash128_with_seed(bytes@, seed),
{
    if bytes.len() < 128 {
        city_murmur_with_seed(bytes, seed)
    } else {
        hash128_long(bytes, seed)
    }
}

/// Computes the 128-bit CityHash of a byte slice under a 128-bit seed.
pub fn city_hash128_with_seed(bytes: &[u8], seed: u128) -> (r: u128)
    ensures
        r == spec_city_hash128_with_seed(bytes@, seed),
{
    city_128_with_seed_impl(bytes, seed)
}

/// Computes the 128-bit CityHash of a byte slice.
pub fn city_hash128(bytes: &[u8]) -> (r: u128)
    ensures
        r == spec_city_hash128(bytes@),
{
    if bytes.len() >= 16 {
        let q0 = read_le64(bytes, 0);
        let q1 = read_le64(bytes, 8).wrapping_add(K0);
        let rest = vstd::slice::slice_subrange(bytes, 16, bytes.len());
        city_128_with_seed_impl(rest, make128(q0, q1))
    } else {
        city_128_with_seed_impl(bytes, make128(K0, K1))
    }
}

/// The 128-bit CityHash-CRC: the 128-bit CityHash up to 900 bytes, the high
/// half of the 256-bit CRC digest beyond.
pub open spec fn spec_city_hash128_crc(s: Seq<u8>) -> u128 {
    if s.len() <= 900 {
        spec_city_hash128(s)
    } else {
        spec_city_hash256_crc_with_seed(s, 0).hi
    }
}

/// The seeded 128-bit CityHash-CRC: the seeded 128-bit CityHash up to 900
/// bytes; beyond, the four words of the 256-bit CRC digest folded with the seed.
pub open spec fn spec_city_hash128_crc_with_seed(s: Seq<u8>, seed: u128) -> u128 {
    if s.len() <= 900 {
        spec_city_hash128_with_seed(s, seed)
    } else {
        let d = spec_city_hash256_crc_with_seed(s, 0);
        let u = high64(seed).wrapping_add(low64(d.lo));
        let v = low64(seed).wrapping_add(high64(d.lo));
        pack128(
            spec_hash_len_16(u, v.wrapping_add(low64(d.hi))),
            spec_hash_len_16(rotr64(v, 32), u.wrapping_mul(K0).wrapping_add(high64(d.hi))),
        )
    }
}

/// Computes the 128-bit CityHash-CRC of a byte slice.
pub fn city_hash128_crc(bytes: &[u8]) -> (r: u128)
    ensures
        r == spec_city_hash128_crc(bytes@),
{
    if bytes.len() <= 900 {
        city_hash128(bytes)
    } else {
        city_hash256_crc(bytes).hi
    }
}

/// Computes the 128-bit CityHash-CRC of a byte slice under a 128-bit seed.
pub fn city_hash128_crc_with_seed(bytes: &[u8], seed: u128) -> (r: u128)
    ensures
        r == spec_city_hash128_crc_with_seed(bytes@, seed),
{
    if bytes.len() <= 900 {
        city_hash128_with_seed(bytes, seed)
    } else {
        let hash = city_hash256_crc(bytes);
        let (result_lo, result_hi) = split128(hash.lo);
        let (result1_lo, result1_hi) = split128(hash.hi);
        let (seed_lo, seed_hi) = split128(seed);
        let u = seed_hi.wrapping_add(result_lo);
        let v = seed_lo.wrapping_add(result_hi);
        make128(
            hash_len_16_u64(u, v.wrapping_add(result1_lo)),
            hash_len_16_u64(rotate64(v, 32), u.wrapping_mul(K0).wrapping_add(result1_hi)),
        )
    }
}

} // verus!
