//! The CityMurmur hybrid: a 128-bit digest built from four words of state.
use vstd::prelude::*;

use crate::city64::{hash64_len_0_to_16, lemma_chunk_in_bounds, spec_hash64_len_0_to_16};
use crate::mix::{
    hash_len_16_u64, high64, le64, low64, make128, pack128, read_le64, shift_mix, spec_hash_len_16,
    spec_shift_mix, split128, K1,
};

verus! {

/// The four words `a, b, c, d` of the hybrid's state.
#[derive(Clone, Copy)]
pub struct MurmurState {
    pub a: u64,
    pub b: u64,
    pub c: u64,
    pub d: u64,
}

/// A word scrambled before it is folded into the state.
pub open spec fn spec_scramble(w: u64) -> u64 {
    spec_shift_mix(w.wrapping_mul(K1)).wrapping_mul(K1)
}

/// The state before the loop, from the seed's halves and the input.
pub open spec fn spec_murmur_init(s: Seq<u8>, seed: u128) -> MurmurState {
    let a = low64(seed);
    let b = high64(seed);
    let len = s.len();
    if len <= 16 {
        let a = spec_scramble(a);
        let c = b.wrapping_mul(K1).wrapping_add(spec_hash64_len_0_to_16(s));
        let d = spec_shift_mix(a.wrapping_add(if len >= 8 { le64(s, 0) } else { c }));
        MurmurState { a, b, c, d }
    } else {
        let c = spec_hash_len_16(le64(s, len - 8).wrapping_add(K1), a);
        let d = spec_hash_len_16(b.wrapping_add(len as u64), c.wrapping_add(le64(s, len - 16)));
        MurmurState { a: a.wrapping_add(d), b, c, d }
    }
}

/// One 16-byte step at `at`: the first word goes into `a` and on to `b`, the second into `c` and on to `d`.
pub open spec fn spec_murmur_step(st: MurmurState, s: Seq<u8>, at: int) -> MurmurState {
    let a = (st.a ^ spec_scramble(le64(s, at))).wrapping_mul(K1);
    let b = st.b ^ a;
    let c = (st.c ^ spec_scramble(le64(s, at + 8))).wrapping_mul(K1);
    let d = st.d ^ c;
    MurmurState { a, b, c, d }
}

/// The state after the first `n` steps; inputs of at most 16 bytes take none.
pub open spec fn spec_murmur_loop(s: Seq<u8>, seed: u128, n: nat) -> MurmurState
    decreases n,
{
    if n == 0 {
        spec_murmur_init(s, seed)
    } else {
        spec_murmur_step(spec_murmur_loop(s, seed, (n - 1) as nat), s, 16 * (n - 1))
    }
}

/// The number of 16-byte steps: every full 16 bytes but the last byte's.
pub open spec fn murmur_steps(len: nat) -> nat {
    if len <= 16 {
        0
    } else {
        ((len - 1) / 16) as nat
    }
}

/// The seeded CityMurmur digest of a byte sequence.
pub open spec fn spec_city_murmur_with_seed(s: Seq<u8>, seed: u128) -> u128 {
    let st = spec_murmur_loop(s, seed, murmur_steps(s.len()));
    let a = spec_hash_len_16(st.a, st.c);
    let b = spec_hash_len_16(st.d, st.b);
    pack128(a ^ b, spec_hash_len_16(b, a))
}

fn scramble(w: u64) -> (r: u64)
    ensures
        r == spec_scramble(w),
{
    shift_mix(w.wrapping_mul(K1)).wrapping_mul(K1)
}

fn murmur_init(bytes: &[u8], seed: u128) -> (r: MurmurState)
    ensures
        r == spec_murmur_init(bytes@, seed),
{
    let (a, b) = split128(seed);
    let len = bytes.len();
    if len <= 16 {
        let a = scramble(a);
        let c = b.wrapping_mul(K1).wrapping_add(hash64_len_0_to_16(bytes));
        let d = shift_mix(a.wrapping_add(if len >= 8 { read_le64(bytes, 0) } else { c }));
        MurmurState { a, b, c, d }
    } else {
        let c = hash_len_16_u64(read_le64(bytes, len - 8).wrapping_add(K1), a);
        let d = hash_len_16_u64(b.wrapping_add(len as u64), c.wrapping_add(read_le64(bytes, len - 16)));
        MurmurState { a: a.wrapping_add(d), b, c, d }
    }
}

fn murmur_step(st: MurmurState, bytes: &[u8], at: usize) -> (r: MurmurState)
    requires
        at + 16 <= bytes.len(),
    ensures
        r == spec_murmur_step(st, bytes@, at as int),
{
    let a = (st.a ^ scramble(read_le64(bytes, at))).wrapping_mul(K1);
    let b = st.b ^ a;
    let c = (st.c ^ scramble(read_le64(bytes, at + 8))).wrapping_mul(K1);
    let d = st.d ^ c;
    MurmurState { a, b, c, d }
}

fn city_murmur_with_seed_impl(bytes: &[u8], seed: u128) -> (r: u128)
    ensures
        r == spec_city_murmur_with_seed(bytes@, seed),
{
    let len = bytes.len();
    let mut st = murmur_init(bytes, seed);
    let steps: usize = if len <= 16 {
        0
    } else {
        (len - 1) / 16
    };
    let mut i: usize = 0;
    while i < steps
        invariant
            len == bytes@.len(),
            steps == murmur_steps(len as nat),
            i <= steps,
            st == spec_murmur_loop(bytes@, seed, i as nat),
        decreases steps - i,
    {
        proof {
            lemma_chunk_in_bounds(i as int, steps as int, len as int, 16);
        }
        st = murmur_step(st, bytes, 16 * i);
        i = i + 1;
    }
    let a = hash_len_16_u64(st.a, st.c);
    let b = hash_len_16_u64(st.d, st.b);
    make128(a ^ b, hash_len_16_u64(b, a))
}

/// Computes the 128-bit CityMurmur digest of a byte slice under a 128-bit seed,
/// whose low half and high half seed the first two words of state.
pub fn city_murmur_with_seed(bytes: &[u8], seed: u128) -> (r: u128)
    ensures
        r == spec_city_murmur_with_seed(bytes@, seed),
{
    city_murmur_with_seed_impl(bytes, seed)
}

/// Computes the 128-bit CityMurmur digest of a byte slice under the zero seed.
pub fn city_murmur(bytes: &[u8]) -> (r: u128)
    ensures
        r == spec_city_murmur_with_seed(bytes@, 0),
{
    city_murmur_with_seed_impl(bytes, 0)
}

} // verus!
