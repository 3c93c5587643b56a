use cith::city256::{city256_long_crc, city256_long_with_crc, city_hash256_crc_with_seed};
use cith::crc32c::crc32c_u64;

#[test]
fn city256_test_hash_city256_2_with_seed() {
    let data2 = b"The current version, completed April 3, 2011, is MurmurHash3,[12][13] which yields a 32-bit or 128-bit hash value. When using 128-bits, the x86 and x64 versions do not produce the same values, as the algorithms are optimized for their respective platforms. MurmurHash3 was released alongside SMHasher, a hash function test suite.";
    let hash2 = city256_long_with_crc(data2, 0, &crc32c_u64);
    assert_eq!(hash2.lo, 37959015251717061403964514692924197017);
    assert_eq!(hash2.hi, 204623909270555374608389012571575072155);

    let data2 = b"CRCs are based on the theory of cyclic error-correcting codes. The use of systematic cyclic codes, which encode messages by adding a fixed-length check value, for the purpose of error detection in communication networks, was first proposed by W. Wesley Peterson in 1961.[2] Cyclic codes are not only simple to implement but have the benefit of being particularly well suited for the detection of burst errors: contiguous sequences of erroneous data symbols in messages. This is important because burst errors are common transmission errors in many communication channels, including magnetic and optical storage devices. Typically an n-bit CRC applied to a data block of arbitrary length will detect any single error burst not longer than n bits, and the fraction of all longer error bursts that it will detect is approximately (1-2n).";
    let hash2 = city256_long_with_crc(data2, 0, &crc32c_u64);
    assert_eq!(hash2.lo, 159059450530848839484415022192514717329);
    assert_eq!(hash2.hi, 128150177799555610101972982489767506394);
}

#[test]
fn test_hash_city256_2_with_seed_generic() {
    let data2 = b"The current version, completed April 3, 2011, is MurmurHash3,[12][13] which yields a 32-bit or 128-bit hash value. When using 128-bits, the x86 and x64 versions do not produce the same values, as the algorithms are optimized for their respective platforms. MurmurHash3 was released alongside SMHasher, a hash function test suite.";
    let hash2 = city256_long_crc(data2, 0);
    assert_eq!(hash2.lo, 37959015251717061403964514692924197017);
    assert_eq!(hash2.hi, 204623909270555374608389012571575072155);

    let data2 = b"CRCs are based on the theory of cyclic error-correcting codes. The use of systematic cyclic codes, which encode messages by adding a fixed-length check value, for the purpose of error detection in communication networks, was first proposed by W. Wesley Peterson in 1961.[2] Cyclic codes are not only simple to implement but have the benefit of being particularly well suited for the detection of burst errors: contiguous sequences of erroneous data symbols in messages. This is important because burst errors are common transmission errors in many communication channels, including magnetic and optical storage devices. Typically an n-bit CRC applied to a data block of arbitrary length will detect any single error burst not longer than n bits, and the fraction of all longer error bursts that it will detect is approximately (1-2n).";
    let hash2 = city256_long_crc(data2, 0);
    assert_eq!(hash2.lo, 159059450530848839484415022192514717329);
    assert_eq!(hash2.hi, 128150177799555610101972982489767506394);
}

#[test]
fn test_hash_city256_small() {
    let data2 = b"Hello CRC";
    let hash2 = city_hash256_crc_with_seed(data2, 0);
    assert_eq!(hash2.lo, 167610683394798017944502699170498217074);
    assert_eq!(hash2.hi, 250595889336278130356695761762065153882);
}
