//! Software CRC-32C (Castagnoli), one 64-bit word at a time, with the
//! state neither inverted on entry nor on exit.
use vstd::prelude::*;

verus! {

/// The reflected Castagnoli polynomial.
pub const CRC32C_POLY: u64 = 0x82f63b78;

/// One bit of the reflected division: shift right, and subtract the
/// polynomial when a one falls out.
pub open spec fn crc_shift(r: u64) -> u64 {
    if r & 1 == 1 {
        (r >> 1u64) ^ CRC32C_POLY
    } else {
        r >> 1u64
    }
}

/// `n` bits of the division.
pub open spec fn crc_shifts(r: u64, n: nat) -> u64
    decreases n,
{
    if n == 0 {
        r
    } else {
        crc_shifts(crc_shift(r), (n - 1) as nat)
    }
}

/// The CRC-32C of the eight bytes of `v`, least significant first, continued
/// from the state `crc`: the state is xored into the low word and all 64
/// bits are divided out.
pub open spec fn spec_crc32c_u64(crc: u32, v: u64) -> u32 {
    crc_shifts((crc as u64) ^ v, 64) as u32
}

/// Continues the CRC-32C state `crc` over the eight little-endian bytes of `v`.
pub fn crc32c_u64(crc: u32, v: u64) -> (r: u32)
    ensures
        r == spec_crc32c_u64(crc, v),
{
    let mut r: u64 = (crc as u64) ^ v;
    let mut i: u32 = 0;
    while i < 64
        invariant
            i <= 64,
            crc_shifts(r, (64 - i) as nat) == crc_shifts((crc as u64) ^ v, 64),
        decreases 64 - i,
    {
        r = if r & 1 == 1 {
            (r >> 1u64) ^ CRC32C_POLY
        } else {
            r >> 1u64
        };
        i = i + 1;
    }
    r as u32
}

} // verus!
