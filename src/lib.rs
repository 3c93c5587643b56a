//! CityHash fingerprints of byte sequences at 32, 64, 128 and 256 bits,
//! with every digest stated as a spec function of the input bytes.
pub mod city32;
pub mod city128;
pub mod city256;
pub mod city64;
pub mod crc32c;
pub mod hasher;
pub mod laws;
pub mod mix;
pub mod murmur;

pub use city32::city_hash32;
pub use city128::{city_hash128, city_hash128_crc, city_hash128_crc_with_seed, city_hash128_with_seed};
pub use city256::{city_hash256_crc, city_hash256_crc_with_seed, Hash256};
pub use city64::{city_hash64, city_hash64_with_seed};
pub use hasher::{City32Hasher, City64Hasher};
pub use murmur::{city_murmur, city_murmur_with_seed};
