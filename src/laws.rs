//! Properties that hold across calls.
use vstd::prelude::*;

use crate::city128::{
    spec_city_hash128, spec_city_hash128_crc, spec_city_hash128_crc_with_seed,
    spec_city_hash128_with_seed,
};
use crate::city256::spec_city_hash256_crc_with_seed;
use crate::city32::spec_city_hash32;
use crate::city64::{spec_city_hash64, spec_city_hash64_with_seed};
use crate::murmur::spec_city_murmur_with_seed;

verus! {

/// Every digest depends on the input bytes and the seed alone: two calls on
/// equal bytes under equal seeds return equal digests, at every width.
pub proof fn lemma_digests_are_deterministic(
    a: Seq<u8>,
    b: Seq<u8>,
    seed32: u32,
    seed64: u64,
    seed128: u128,
)
    requires
        a == b,
    ensures
        spec_city_hash32(a) == spec_city_hash32(b),
        spec_city_hash64(a) == spec_city_hash64(b),
        spec_city_hash64_with_seed(a, seed64) == spec_city_hash64_with_seed(b, seed64),
        spec_city_murmur_with_seed(a, seed128) == spec_city_murmur_with_seed(b, seed128),
        spec_city_hash128(a) == spec_city_hash128(b),
        spec_city_hash128_with_seed(a, seed128) == spec_city_hash128_with_seed(b, seed128),
        spec_city_hash128_crc(a) == spec_city_hash128_crc(b),
        spec_city_hash128_crc_with_seed(a, seed128) == spec_city_hash128_crc_with_seed(b, seed128),
        spec_city_hash256_crc_with_seed(a, seed32) == spec_city_hash256_crc_with_seed(b, seed32),
{
}

} // verus!
