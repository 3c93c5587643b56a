//! The 256-bit CRC family: one algorithm over 240-byte groups of six 40-byte
//! chunks, with the CRC-32C step handed in so that every backend runs the same
//! data flow.
use vstd::prelude::*;

use crate::crc32c::{crc32c_u64, spec_crc32c_u64};
use crate::mix::{
    hash_len_16_u64, le64, make128, pack128, read_le64, rotate64, rotr64, shift_mix,
    spec_hash_len_16, spec_shift_mix, K0,
};

verus! {

/// A 256-bit digest as two 128-bit halves.
#[derive(Copy, Clone, Default, Debug)]
pub struct Hash256 {
    pub lo: u128,
    pub hi: u128,
}

/// The inputs below this length are padded with zeros up to it.
pub const MIN_LONG: usize = 240;

/// The eleven words of state.
#[derive(Clone, Copy)]
pub struct CrcState {
    pub a: u64,
    pub b: u64,
    pub c: u64,
    pub d: u64,
    pub e: u64,
    pub f: u64,
    pub g: u64,
    pub h: u64,
    pub x: u64,
    pub y: u64,
    pub z: u64,
}

/// A CRC-32C step function: it may be called on any state and word, and
/// returns what the software step returns.
pub open spec fn is_crc32c_step<F: Fn(u32, u64) -> u32>(crc: F) -> bool {
    &&& forall|c: u32, v: u64| #[trigger] crc.requires((c, v))
    &&& forall|c: u32, v: u64, r: u32| crc.ensures((c, v), r) ==> r == spec_crc32c_u64(c, v)
}

/// The state before the first chunk.
pub open spec fn spec_crc_init(s: Seq<u8>, seed: u32) -> CrcState {
    let len = s.len() as u64;
    let c = spec_hash_len_16(le64(s, 96).wrapping_add(K0), len);
    let d = le64(s, 120).wrapping_mul(K0).wrapping_add(len);
    CrcState {
        a: le64(s, 56).wrapping_add(K0),
        b: le64(s, 96).wrapping_add(K0),
        c,
        d,
        e: le64(s, 184).wrapping_add(seed as u64),
        f: 0,
        g: 0,
        h: c.wrapping_add(d),
        x: seed as u64,
        y: 0,
        z: 0,
    }
}

/// One 40-byte chunk at `at`, with `e` rotated by `r` at the end.
#[verifier::opaque]
pub open spec fn spec_crc_chunk(st: CrcState, s: Seq<u8>, at: int, r: u32) -> CrcState {
    let x = st.y;
    let z = st.x;
    let y = st.z;
    let b = st.b.wrapping_add(le64(s, at));
    let c = st.c.wrapping_add(le64(s, at + 8));
    let d = st.d.wrapping_add(le64(s, at + 16));
    let e = st.e.wrapping_add(le64(s, at + 24));
    let f = st.f.wrapping_add(le64(s, at + 32));
    let a = st.a.wrapping_add(b);
    let h = st.h.wrapping_add(f);
    let b = b.wrapping_add(c);
    let f = f.wrapping_add(d);
    let g = st.g.wrapping_add(e);
    let e = e.wrapping_add(z);
    let g = g.wrapping_add(x);
    let z = spec_crc32c_u64(z as u32, b.wrapping_add(g)) as u64;
    let y = spec_crc32c_u64(y as u32, e.wrapping_add(h)) as u64;
    let x = spec_crc32c_u64(x as u32, f.wrapping_add(a)) as u64;
    let e = rotr64(e, r);
    let c = c.wrapping_add(e);
    CrcState { a, b, c, d, e, f, g, h, x, y, z }
}

/// Six chunks of one 240-byte group, each followed by a rotation of three words.
#[verifier::opaque]
pub open spec fn spec_crc_group(st: CrcState, s: Seq<u8>, at: int) -> CrcState {
    let st = spec_crc_chunk(st, s, at, 0);
    let st = CrcState { a: st.c, h: st.a, c: st.h, ..st };
    let st = spec_crc_chunk(st, s, at + 40, 33);
    let st = CrcState { a: st.f, h: st.a, f: st.h, ..st };
    let st = spec_crc_chunk(st, s, at + 80, 0);
    let st = CrcState { b: st.f, h: st.b, f: st.h, ..st };
    let st = spec_crc_chunk(st, s, at + 120, 42);
    let st = CrcState { b: st.d, h: st.b, d: st.h, ..st };
    let st = spec_crc_chunk(st, s, at + 160, 0);
    let st = CrcState { b: st.e, h: st.b, e: st.h, ..st };
    let st = spec_crc_chunk(st, s, at + 200, 33);
    CrcState { a: st.e, h: st.a, e: st.h, ..st }
}

/// One 40-byte chunk after the full groups.
#[verifier::opaque]
pub open spec fn spec_crc_tail_chunk(st: CrcState, s: Seq<u8>, at: int) -> CrcState {
    let st = spec_crc_chunk(st, s, at, 29);
    let e = st.e ^ rotr64(st.a, 20);
    let h = st.h.wrapping_add(rotr64(st.b, 30));
    let g = st.g ^ rotr64(st.c, 40);
    let f = st.f.wrapping_add(rotr64(st.d, 34));
    CrcState { e, f, c: g, h: st.c, g: h, ..st }
}

/// The last 40 bytes, taken once more when the input is not a whole number of chunks.
#[verifier::opaque]
pub open spec fn spec_crc_last_chunk(st: CrcState, s: Seq<u8>) -> CrcState {
    let st = spec_crc_chunk(st, s, s.len() - 40, 33);
    CrcState {
        e: st.e ^ rotr64(st.a, 43),
        h: st.h.wrapping_add(rotr64(st.b, 42)),
        g: st.g ^ rotr64(st.c, 41),
        f: st.f.wrapping_add(rotr64(st.d, 40)),
        ..st
    }
}

/// The 40-byte chunks from `at` on, then the last 40 bytes if any remain.
pub open spec fn spec_crc_tail(s: Seq<u8>, st: CrcState, at: int) -> CrcState
    decreases s.len() - at,
{
    if at >= 0 && s.len() - at >= 40 {
        spec_crc_tail(s, spec_crc_tail_chunk(st, s, at), at + 40)
    } else if s.len() - at > 0 {
        spec_crc_last_chunk(st, s)
    } else {
        st
    }
}

/// The 240-byte groups from `at` on, then the tail.
pub open spec fn spec_crc_groups(s: Seq<u8>, st: CrcState, at: int) -> CrcState
    decreases s.len() - at,
{
    if at >= 0 && s.len() - at >= 240 {
        spec_crc_groups(s, spec_crc_group(st, s, at), at + 240)
    } else {
        spec_crc_tail(s, st, at)
    }
}

/// The four result words folded out of the final state; `r0` and `r1` are
/// the initial `c` and `d`.
#[verifier::opaque]
pub open spec fn spec_crc_finish(st: CrcState, r0: u64, r1: u64) -> Hash256 {
    let r0 = r0 ^ st.h;
    let r1 = r1 ^ st.g;
    let g = st.g.wrapping_add(st.h);
    let a = spec_hash_len_16(st.a, g.wrapping_add(st.z));
    let x = st.x.wrapping_add(st.y << 32u64);
    let b = st.b.wrapping_add(x);
    let c = spec_hash_len_16(st.c, st.z).wrapping_add(st.h);
    let d = spec_hash_len_16(st.d, st.e.wrapping_add(r0));
    let g = g.wrapping_add(st.e);
    let h = st.h.wrapping_add(spec_hash_len_16(x, st.f));
    let e = spec_hash_len_16(a, d).wrapping_add(g);
    let z = spec_hash_len_16(b, c).wrapping_add(a);
    let y = spec_hash_len_16(g, h).wrapping_add(c);
    let r0 = e.wrapping_add(z.wrapping_add(y.wrapping_add(x)));
    let a = spec_shift_mix(a.wrapping_add(y).wrapping_mul(K0)).wrapping_mul(K0).wrapping_add(b);
    let r1 = r1.wrapping_add(a.wrapping_add(r0));
    let a = spec_shift_mix(a.wrapping_mul(K0)).wrapping_mul(K0).wrapping_add(c);
    let r2 = a.wrapping_add(r1);
    let a = spec_shift_mix(a.wrapping_add(e).wrapping_mul(K0)).wrapping_mul(K0);
    let r3 = a.wrapping_add(r2);
    Hash256 { lo: pack128(r0, r1), hi: pack128(r2, r3) }
}

/// The digest of an input of at least 240 bytes under a 32-bit seed.
pub open spec fn spec_city256_long(s: Seq<u8>, seed: u32) -> Hash256 {
    let init = spec_crc_init(s, seed);
    spec_crc_finish(spec_crc_groups(s, init, 0), init.c, init.d)
}

/// A short input padded with zeros to 240 bytes.
pub open spec fn pad240(s: Seq<u8>) -> Seq<u8> {
    s + Seq::new((240 - s.len()) as nat, |i: int| 0u8)
}

/// The 256-bit CityHash-CRC of a byte sequence under a seed: inputs below 240
/// bytes are padded with zeros and hashed under the complement of their length.
pub open spec fn spec_city_hash256_crc_with_seed(s: Seq<u8>, seed: u32) -> Hash256 {
    if s.len() >= 240 {
        spec_city256_long(s, seed)
    } else {
        spec_city256_long(pad240(s), !(s.len() as u32))
    }
}

fn crc_init(bytes: &[u8], seed: u32) -> (r: CrcState)
    requires
        bytes.len() >= 240,
    ensures
        r == spec_crc_init(bytes@, seed),
{
    let len = bytes.len() as u64;
    let b = read_le64(bytes, 96).wrapping_add(K0);
    let c = hash_len_16_u64(b, len);
    let d = read_le64(bytes, 120).wrapping_mul(K0).wrapping_add(len);
    CrcState {
        a: read_le64(bytes, 56).wrapping_add(K0),
        b,
        c,
        d,
        e: read_le64(bytes, 184).wrapping_add(seed as u64),
        f: 0,
        g: 0,
        h: c.wrapping_add(d),
        x: seed as u64,
        y: 0,
        z: 0,
    }
}

fn crc_chunk<F: Fn(u32, u64) -> u32>(st: CrcState, bytes: &[u8], at: usize, r: u32, crc: &F) -> (res: CrcState)
    requires
        at + 40 <= bytes.len(),
        r < 64,
        is_crc32c_step(*crc),
    ensures
        res == spec_crc_chunk(st, bytes@, at as int, r),
{
    reveal(spec_crc_chunk);
    let x = st.y;
    let z = st.x;
    let y = st.z;
    let b = st.b.wrapping_add(read_le64(bytes, at));
    let c = st.c.wrapping_add(read_le64(bytes, at + 8));
    let d = st.d.wrapping_add(read_le64(bytes, at + 16));
    let e = st.e.wrapping_add(read_le64(bytes, at + 24));
    let f = st.f.wrapping_add(read_le64(bytes, at + 32));
    let a = st.a.wrapping_add(b);
    let h = st.h.wrapping_add(f);
    let b = b.wrapping_add(c);
    let f = f.wrapping_add(d);
    let g = st.g.wrapping_add(e);
    let e = e.wrapping_add(z);
    let g = g.wrapping_add(x);
    let z = crc(z as u32, b.wrapping_add(g)) as u64;
    let y = crc(y as u32, e.wrapping_add(h)) as u64;
    let x = crc(x as u32, f.wrapping_add(a)) as u64;
    let e = rotate64(e, r);
    let c = c.wrapping_add(e);
    CrcState { a, b, c, d, e, f, g, h, x, y, z }
}

fn crc_group<F: Fn(u32, u64) -> u32>(st: CrcState, bytes: &[u8], at: usize, crc: &F) -> (res: CrcState)
    requires
        at + 240 <= bytes.len(),
        is_crc32c_step(*crc),
    ensures
        res == spec_crc_group(st, bytes@, at as int),
{
    reveal(spec_crc_group);
    let st = crc_chunk(st, bytes, at, 0, crc);
    let st = CrcState { a: st.c, h: st.a, c: st.h, ..st };
    let st = crc_chunk(st, bytes, at + 40, 33, crc);
    let st = CrcState { a: st.f, h: st.a, f: st.h, ..st };
    let st = crc_chunk(st, bytes, at + 80, 0, crc);
    let st = CrcState { b: st.f, h: st.b, f: st.h, ..st };
    let st = crc_chunk(st, bytes, at + 120, 42, crc);
    let st = CrcState { b: st.d, h: st.b, d: st.h, ..st };
    let st = crc_chunk(st, bytes, at + 160, 0, crc);
    let st = CrcState { b: st.e, h: st.b, e: st.h, ..st };
    let st = crc_chunk(st, bytes, at + 200, 33, crc);
    CrcState { a: st.e, h: st.a, e: st.h, ..st }
}

fn crc_tail_chunk<F: Fn(u32, u64) -> u32>(st: CrcState, bytes: &[u8], at: usize, crc: &F) -> (res: CrcState)
    requires
        at + 40 <= bytes.len(),
        is_crc32c_step(*crc),
    ensures
        res == spec_crc_tail_chunk(st, bytes@, at as int),
{
    reveal(spec_crc_tail_chunk);
    let st = crc_chunk(st, bytes, at, 29, crc);
    let e = st.e ^ rotate64(st.a, 20);
    let h = st.h.wrapping_add(rotate64(st.b, 30));
    let g = st.g ^ rotate64(st.c, 40);
    let f = st.f.wrapping_add(rotate64(st.d, 34));
    CrcState { e, f, c: g, h: st.c, g: h, ..st }
}

fn crc_last_chunk<F: Fn(u32, u64) -> u32>(st: CrcState, bytes: &[u8], crc: &F) -> (res: CrcState)
    requires
        bytes.len() >= 40,
        is_crc32c_step(*crc),
    ensures
        res == spec_crc_last_chunk(st, bytes@),
{
    reveal(spec_crc_last_chunk);
    let st = crc_chunk(st, bytes, bytes.len() - 40, 33, crc);
    CrcState {
        e: st.e ^ rotate64(st.a, 43),
        h: st.h.wrapping_add(rotate64(st.b, 42)),
        g: st.g ^ rotate64(st.c, 41),
        f: st.f.wrapping_add(rotate64(st.d, 40)),
        ..st
    }
}

fn crc_finish(st: CrcState, r0: u64, r1: u64) -> (res: Hash256)
    ensures
        res == spec_crc_finish(st, r0, r1),
{
    reveal(spec_crc_finish);
    let r0 = r0 ^ st.h;
    let r1 = r1 ^ st.g;
    let g = st.g.wrapping_add(st.h);
    let a = hash_len_16_u64(st.a, g.wrapping_add(st.z));
    let x = st.x.wrapping_add(st.y << 32u64);
    let b = st.b.wrapping_add(x);
    let c = hash_len_16_u64(st.c, st.z).wrapping_add(st.h);
    let d = hash_len_16_u64(st.d, st.e.wrapping_add(r0));
    let g = g.wrapping_add(st.e);
    let h = st.h.wrapping_add(hash_len_16_u64(x, st.f));
    let e = hash_len_16_u64(a, d).wrapping_add(g);
    let z = hash_len_16_u64(b, c).wrapping_add(a);
    let y = hash_len_16_u64(g, h).wrapping_add(c);
    let r0 = e.wrapping_add(z.wrapping_add(y.wrapping_add(x)));
    let a = shift_mix(a.wrapping_add(y).wrapping_mul(K0)).wrapping_mul(K0).wrapping_add(b);
    let r1 = r1.wrapping_add(a.wrapping_add(r0));
    let a = shift_mix(a.wrapping_mul(K0)).wrapping_mul(K0).wrapping_add(c);
    let r2 = a.wrapping_add(r1);
    let a = shift_mix(a.wrapping_add(e).wrapping_mul(K0)).wrapping_mul(K0);
    let r3 = a.wrapping_add(r2);
    Hash256 { lo: make128(r0, r1), hi: make128(r2, r3) }
}

/// The 256-bit digest of an input of at least 240 bytes, with `crc` as the
/// CRC-32C step. Every step function that computes CRC-32C gives the same digest.
pub fn city256_long_with_crc<F: Fn(u32, u64) -> u32>(bytes: &[u8], seed: u32, crc: &F) -> (r: Hash256)
    requires
        bytes.len() >= 240,
        is_crc32c_step(*crc),
    ensures
        r == spec_city256_long(bytes@, seed),
{
    let len = bytes.len();
    let ghost s = bytes@;
    let init = crc_init(bytes, seed);
    let ghost goal = spec_crc_groups(s, init, 0);
    let mut st = init;
    let mut at: usize = 0;
    while len - at >= 240
        invariant
            len == s.len(),
            s == bytes@,
            at <= len,
            is_crc32c_step(*crc),
            spec_crc_groups(s, st, at as int) == goal,
        decreases len - at,
    {
        st = crc_group(st, bytes, at, crc);
        at = at + 240;
    }
    while len - at >= 40
        invariant
            len == s.len(),
            len >= 240,
            s == bytes@,
            at <= len,
            is_crc32c_step(*crc),
            spec_crc_tail(s, st, at as int) == goal,
        decreases len - at,
    {
        st = crc_tail_chunk(st, bytes, at, crc);
        at = at + 40;
    }
    if len - at > 0 {
        st = crc_last_chunk(st, bytes, crc);
    }
    crc_finish(st, init.c, init.d)
}

/// The 256-bit digest of an input of at least 240 bytes with the software CRC-32C step.
pub fn city256_long_crc(bytes: &[u8], seed: u32) -> (r: Hash256)
    requires
        bytes.len() >= 240,
    ensures
        r == spec_city256_long(bytes@, seed),
{
    city256_long_with_crc(bytes, seed, &crc32c_u64)
}

} // verus!

verus! {

/// Copies a short input into a 240-byte buffer, zeros after it.
fn pad_to_240(bytes: &[u8]) -> (buf: Vec<u8>)
    requires
        bytes.len() < 240,
    ensures
        buf@ == pad240(bytes@),
{
    let mut buf: Vec<u8> = Vec::with_capacity(MIN_LONG);
    let mut i: usize = 0;
    while i < bytes.len()
        invariant
            i <= bytes@.len(),
            buf@ == bytes@.subrange(0, i as int),
        decreases bytes.len() - i,
    {
        buf.push(bytes[i]);
        i = i + 1;
    }
    while buf.len() < MIN_LONG
        invariant
            bytes@.len() < 240,
            bytes@.len() <= buf@.len() <= 240,
            buf@.subrange(0, bytes@.len() as int) == bytes@,
            forall|j: int| bytes@.len() <= j < buf@.len() ==> buf@[j] == 0u8,
        decreases MIN_LONG - buf.len(),
    {
        let ghost prev = buf@;
        buf.push(0u8);
        assert(buf@.subrange(0, bytes@.len() as int) == prev.subrange(0, bytes@.len() as int));
    }
    assert(buf@ == pad240(bytes@));
    buf
}

/// The 256-bit CityHash-CRC of a byte slice under a 32-bit seed, with `crc` as
/// the CRC-32C step.
pub fn city_hash256_crc_with_seed_using<F: Fn(u32, u64) -> u32>(bytes: &[u8], seed: u32, crc: &F) -> (r: Hash256)
    requires
        is_crc32c_step(*crc),
    ensures
        r == spec_city_hash256_crc_with_seed(bytes@, seed),
{
    if bytes.len() >= MIN_LONG {
        city256_long_with_crc(bytes, seed, crc)
    } else {
        let buf = pad_to_240(bytes);
        city256_long_with_crc(buf.as_slice(), !(bytes.len() as u32), crc)
    }
}

/// Computes the 256-bit CityHash-CRC of a byte slice under a 32-bit seed.
pub fn city_hash256_crc_with_seed(bytes: &[u8], seed: u32) -> (r: Hash256)
    ensures
        r == spec_city_hash256_crc_with_seed(bytes@, seed),
{
    city_hash256_crc_with_seed_using(bytes, seed, &crc32c_u64)
}

/// Computes the 256-bit CityHash-CRC of a byte slice under the zero seed.
pub fn city_hash256_crc(bytes: &[u8]) -> (r: Hash256)
    ensures
        r == spec_city_hash256_crc_with_seed(bytes@, 0),
{
    city_hash256_crc_with_seed(bytes, 0)
}

/// The implementations of the CRC-32C step that a machine may offer.
#[derive(Clone, Copy, Debug, PartialEq, Eq, Structural)]
pub enum Crc32cBackend {
    Software,
    Sse42,
    ArmCrc,
}

/// Chooses the CRC-32C step from what the processor offers: the SSE 4.2
/// instruction first, then the ARM one, else the software step.
pub fn select_crc32c_backend(has_sse42: bool, has_arm_crc: bool) -> (r: Crc32cBackend)
    ensures
        r == (if has_sse42 {
            Crc32cBackend::Sse42
        } else if has_arm_crc {
            Crc32cBackend::ArmCrc
        } else {
            Crc32cBackend::Software
        }),
{
    if has_sse42 {
        Crc32cBackend::Sse42
    } else if has_arm_crc {
        Crc32cBackend::ArmCrc
    } else {
        Crc32cBackend::Software
    }
}

} // verus!
