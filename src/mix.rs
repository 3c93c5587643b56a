//! Little-endian reads and the mixing primitives shared by every width.
use vstd::prelude::*;

verus! {

/// Multiplicative constants of the 64-bit family.
pub const K0: u64 = 0xc3a5c85c97cb3127;
pub const K1: u64 = 0xb492b66fbe98f273;
pub const K2: u64 = 0x9ae16a3b2f90404f;

/// The multiplier of the two-to-one fold.
pub const K_MUL: u64 = 0x9ddfea08eb382d69;

/// The unsigned 64-bit value of the eight bytes at `i`, least significant first.
pub open spec fn le64(s: Seq<u8>, i: int) -> u64 {
    (s[i] as u64) | ((s[i + 1] as u64) << 8u64) | ((s[i + 2] as u64) << 16u64) | ((s[i + 3] as u64)
        << 24u64) | ((s[i + 4] as u64) << 32u64) | ((s[i + 5] as u64) << 40u64) | ((s[i + 6] as u64)
        << 48u64) | ((s[i + 7] as u64) << 56u64)
}

/// The unsigned 32-bit value of the four bytes at `i`, least significant first.
pub open spec fn le32(s: Seq<u8>, i: int) -> u32 {
    (s[i] as u32) | ((s[i + 1] as u32) << 8u32) | ((s[i + 2] as u32) << 16u32) | ((s[i + 3] as u32)
        << 24u32)
}

/// Reads eight bytes at `at` as a little-endian integer, whatever the host's byte order.
pub fn read_le64(bytes: &[u8], at: usize) -> (r: u64)
    requires
        at + 8 <= bytes.len(),
    ensures
        r == le64(bytes@, at as int),
{
    (bytes[at] as u64) | ((bytes[at + 1] as u64) << 8u64) | ((bytes[at + 2] as u64) << 16u64) | ((
    bytes[at + 3] as u64) << 24u64) | ((bytes[at + 4] as u64) << 32u64) | ((bytes[at + 5] as u64)
        << 40u64) | ((bytes[at + 6] as u64) << 48u64) | ((bytes[at + 7] as u64) << 56u64)
}

/// Reads four bytes at `at` as a little-endian integer, whatever the host's byte order.
pub fn read_le32(bytes: &[u8], at: usize) -> (r: u32)
    requires
        at + 4 <= bytes.len(),
    ensures
        r == le32(bytes@, at as int),
{
    (bytes[at] as u32) | ((bytes[at + 1] as u32) << 8u32) | ((bytes[at + 2] as u32) << 16u32) | ((
    bytes[at + 3] as u32) << 24u32)
}

/// Rotation of a 64-bit word to the right by `r` places.
pub open spec fn rotr64(x: u64, r: u32) -> u64 {
    if r == 0 {
        x
    } else {
        (x >> r) | (x << ((64 - r) as u32))
    }
}

/// Rotation of a 32-bit word to the right by `r` places.
pub open spec fn rotr32(x: u32, r: u32) -> u32 {
    if r == 0 {
        x
    } else {
        (x >> r) | (x << ((32 - r) as u32))
    }
}

/// Rotates a 64-bit word right by `r` places.
pub fn rotate64(x: u64, r: u32) -> (v: u64)
    requires
        r < 64,
    ensures
        v == rotr64(x, r),
{
    if r == 0 {
        x
    } else {
        (x >> r) | (x << (64 - r))
    }
}

/// Rotates a 32-bit word right by `r` places.
pub fn rotate32(x: u32, r: u32) -> (v: u32)
    requires
        r < 32,
    ensures
        v == rotr32(x, r),
{
    if r == 0 {
        x
    } else {
        (x >> r) | (x << (32 - r))
    }
}

/// The bytes of a 64-bit word in reverse order.
pub open spec fn bswap64(x: u64) -> u64 {
    ((x & 0xff) << 56u64) | (((x >> 8u64) & 0xff) << 48u64) | (((x >> 16u64) & 0xff) << 40u64) | (((x
        >> 24u64) & 0xff) << 32u64) | (((x >> 32u64) & 0xff) << 24u64) | (((x >> 40u64) & 0xff)
        << 16u64) | (((x >> 48u64) & 0xff) << 8u64) | (x >> 56u64)
}

/// The bytes of a 32-bit word in reverse order.
pub open spec fn bswap32(x: u32) -> u32 {
    ((x & 0xff) << 24u32) | (((x >> 8u32) & 0xff) << 16u32) | (((x >> 16u32) & 0xff) << 8u32) | (x
        >> 24u32)
}

/// Reverses the bytes of a 64-bit word.
pub fn swap_bytes64(x: u64) -> (v: u64)
    ensures
        v == bswap64(x),
{
    ((x & 0xff) << 56u64) | (((x >> 8u64) & 0xff) << 48u64) | (((x >> 16u64) & 0xff) << 40u64) | (((x
        >> 24u64) & 0xff) << 32u64) | (((x >> 32u64) & 0xff) << 24u64) | (((x >> 40u64) & 0xff)
        << 16u64) | (((x >> 48u64) & 0xff) << 8u64) | (x >> 56u64)
}

/// Reverses the bytes of a 32-bit word.
pub fn swap_bytes32(x: u32) -> (v: u32)
    ensures
        v == bswap32(x),
{
    ((x & 0xff) << 24u32) | (((x >> 8u32) & 0xff) << 16u32) | (((x >> 16u32) & 0xff) << 8u32) | (x
        >> 24u32)
}

/// `v ^ (v >> 47)`.
pub open spec fn spec_shift_mix(v: u64) -> u64 {
    v ^ (v >> 47u64)
}

/// `v ^ (v >> 47)`: folds the high bits of a word into its low bits.
pub fn shift_mix(v: u64) -> (r: u64)
    ensures
        r == spec_shift_mix(v),
{
    v ^ (v >> 47u64)
}

/// The Murmur-inspired fold of two words into one under the multiplier `mul`.
pub open spec fn spec_hash_len_16_with_mul(u: u64, v: u64, mul: u64) -> u64 {
    let a = (u ^ v).wrapping_mul(mul);
    let a = a ^ (a >> 47u64);
    let b = (v ^ a).wrapping_mul(mul);
    let b = b ^ (b >> 47u64);
    b.wrapping_mul(mul)
}

/// The fold of two words under the fixed multiplier `K_MUL`.
pub open spec fn spec_hash_len_16(u: u64, v: u64) -> u64 {
    spec_hash_len_16_with_mul(u, v, K_MUL)
}

/// Folds two words into one under the multiplier `mul`.
pub fn hash_len_16_with_mul(u: u64, v: u64, mul: u64) -> (r: u64)
    ensures
        r == spec_hash_len_16_with_mul(u, v, mul),
{
    let mut a = (u ^ v).wrapping_mul(mul);
    a = a ^ (a >> 47u64);
    let mut b = (v ^ a).wrapping_mul(mul);
    b = b ^ (b >> 47u64);
    b.wrapping_mul(mul)
}

/// Folds two words into one under the fixed multiplier.
pub fn hash_len_16_u64(u: u64, v: u64) -> (r: u64)
    ensures
        r == spec_hash_len_16(u, v),
{
    hash_len_16_with_mul(u, v, K_MUL)
}

} // verus!

verus! {

/// The 128-bit value whose low half is `lo` and whose high half is `hi`.
pub open spec fn pack128(lo: u64, hi: u64) -> u128 {
    (lo as u128) | ((hi as u128) << 64u32)
}

/// The low 64 bits of a 128-bit value.
pub open spec fn low64(v: u128) -> u64 {
    (v & 0xffff_ffff_ffff_ffff) as u64
}

/// The high 64 bits of a 128-bit value.
pub open spec fn high64(v: u128) -> u64 {
    (v >> 64u32) as u64
}

/// Packs two halves into a 128-bit value.
pub fn make128(lo: u64, hi: u64) -> (r: u128)
    ensures
        r == pack128(lo, hi),
        low64(r) == lo,
        high64(r) == hi,
{
    let r = (lo as u128) | ((hi as u128) << 64u32);
    assert(low64(r) == lo && high64(r) == hi) by (bit_vector)
        requires
            r == (lo as u128) | ((hi as u128) << 64u32),
    ;
    r
}

/// Splits a 128-bit value into its low and high halves.
pub fn split128(v: u128) -> (r: (u64, u64))
    ensures
        r == (low64(v), high64(v)),
{
    ((v & 0xffff_ffff_ffff_ffff) as u64, (v >> 64u32) as u64)
}

} // verus!
