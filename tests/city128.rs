use cith::city_hash128_with_seed;

#[test]
fn test_hash_city128() {
    let data2 = b"The original MurmurHash was created as an attempt to make a faster function than Lookup3.[7] Although successful, it had not been tested thoroughly and was not capable of providing 64-bit hashes as in Lookup3. Its design would be later built upon in MurmurHash2, combining a multiplicative hash (similar to the FowlerNollVo hash function) with an Xorshift.";
    let hash2 = city_hash128_with_seed(data2, 0);
    assert_eq!(hash2, 181738720256903589065179743458014556635);
}

#[test]
fn test_hash_city128_2() {
    let data2 = b"The current version, completed April 3, 2011, is MurmurHash3,[12][13] which yields a 32-bit or 128-bit hash value. When using 128-bits, the x86 and x64 versions do not produce the same values, as the algorithms are optimized for their respective platforms. MurmurHash3 was released alongside SMHasher, a hash function test suite.";
    let hash2 = city_hash128_with_seed(data2, 0);
    assert_eq!(hash2, 141227953010020849533055099834667401374);
}

#[test]
fn test_hash_city128_2_with_seed() {
    let data2 = b"The current version, completed April 3, 2011, is MurmurHash3,[12][13] which yields a 32-bit or 128-bit hash value. When using 128-bits, the x86 and x64 versions do not produce the same values, as the algorithms are optimized for their respective platforms. MurmurHash3 was released alongside SMHasher, a hash function test suite.";
    let hash2 = city_hash128_with_seed(data2, 125);
    assert_eq!(hash2, 119575411414761893753960023769141284138);
}
