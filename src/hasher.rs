//! Buffer-then-hash adapters for hash tables: bytes are collected as they are
//! written and hashed when the digest is asked for.
use vstd::prelude::*;

use crate::city32::{city_hash32, spec_city_hash32};
use crate::city64::{city_hash64, city_hash64_with_seed, spec_city_hash64, spec_city_hash64_with_seed};

verus! {

/// A hasher whose digest is the 32-bit CityHash of all bytes written to it.
pub struct City32Hasher {
    bytes: Vec<u8>,
}

impl View for City32Hasher {
    type V = Seq<u8>;

    /// The bytes written so far, in order.
    closed spec fn view(&self) -> Seq<u8> {
        self.bytes@
    }
}

impl City32Hasher {
    /// A hasher to which nothing has been written.
    pub fn new() -> (r: City32Hasher)
        ensures
            r@ == Seq::<u8>::empty(),
    {
        City32Hasher { bytes: Vec::new() }
    }

    /// Appends `bytes` to what has been written.
    pub fn write(&mut self, bytes: &[u8])
        ensures
            final(self)@ == old(self)@ + bytes@,
    {
        let mut i: usize = 0;
        let ghost start = self@;
        while i < bytes.len()
            invariant
                i <= bytes@.len(),
                self@ == start + bytes@.subrange(0, i as int),
            decreases bytes.len() - i,
        {
            self.bytes.push(bytes[i]);
            i = i + 1;
            assert(self@ == start + bytes@.subrange(0, i as int));
        }
        assert(bytes@.subrange(0, i as int) == bytes@);
    }

    /// The 32-bit CityHash of everything written, widened to 64 bits.
    pub fn finish(&self) -> (r: u64)
        ensures
            r == spec_city_hash32(self@) as u64,
    {
        city_hash32(self.bytes.as_slice()) as u64
    }
}

impl Default for City32Hasher {
    fn default() -> (r: City32Hasher)
        ensures
            r@ == Seq::<u8>::empty(),
    {
        City32Hasher::new()
    }
}

impl std::hash::Hasher for City32Hasher {
    fn finish(&self) -> u64 {
        City32Hasher::finish(self)
    }

    fn write(&mut self, bytes: &[u8]) {
        City32Hasher::write(self, bytes)
    }
}

/// A hasher whose digest is the 64-bit CityHash of all bytes written to it,
/// seeded unless its seed is zero.
pub struct City64Hasher {
    bytes: Vec<u8>,
    seed: u64,
}

impl View for City64Hasher {
    type V = Seq<u8>;

    /// The bytes written so far, in order.
    closed spec fn view(&self) -> Seq<u8> {
        self.bytes@
    }
}

/// The digest of a 64-bit hasher with `seed` over `bytes`: zero means unseeded.
pub open spec fn spec_city64_hasher_digest(bytes: Seq<u8>, seed: u64) -> u64 {
    if seed != 0 {
        spec_city_hash64_with_seed(bytes, seed)
    } else {
        spec_city_hash64(bytes)
    }
}

impl City64Hasher {
    /// The seed the hasher was made with.
    pub closed spec fn seed(&self) -> u64 {
        self.seed
    }

    /// Creates a hasher with the zero seed, to which nothing has been written.
    pub fn new() -> (r: City64Hasher)
        ensures
            r@ == Seq::<u8>::empty(),
            r.seed() == 0,
    {
        City64Hasher::new_with_seed(0)
    }

    /// Creates a hasher with the given seed, to which nothing has been written.
    pub fn new_with_seed(seed: u64) -> (r: City64Hasher)
        ensures
            r@ == Seq::<u8>::empty(),
            r.seed() == seed,
    {
        City64Hasher { bytes: Vec::new(), seed }
    }

    /// Appends `bytes` to what has been written; the seed stays.
    pub fn write(&mut self, bytes: &[u8])
        ensures
            final(self)@ == old(self)@ + bytes@,
            final(self).seed() == old(self).seed(),
    {
        let mut i: usize = 0;
        let ghost start = self@;
        while i < bytes.len()
            invariant
                i <= bytes@.len(),
                self@ == start + bytes@.subrange(0, i as int),
                self.seed() == old(self).seed(),
            decreases bytes.len() - i,
        {
            self.bytes.push(bytes[i]);
            i = i + 1;
            assert(self@ == start + bytes@.subrange(0, i as int));
        }
        assert(bytes@.subrange(0, i as int) == bytes@);
    }

    /// The 64-bit CityHash of everything written, under the seed when it is not zero.
    pub fn finish(&self) -> (r: u64)
        ensures
            r == spec_city64_hasher_digest(self@, self.seed()),
    {
        if self.seed != 0 {
            city_hash64_with_seed(self.bytes.as_slice(), self.seed)
        } else {
            city_hash64(self.bytes.as_slice())
        }
    }
}

impl Default for City64Hasher {
    fn default() -> (r: City64Hasher)
        ensures
            r@ == Seq::<u8>::empty(),
            r.seed() == 0,
    {
        City64Hasher::new()
    }
}

impl std::hash::Hasher for City64Hasher {
    fn finish(&self) -> u64 {
        City64Hasher::finish(self)
    }

    fn write(&mut self, bytes: &[u8]) {
        City64Hasher::write(self, bytes)
    }
}

} // verus!
