use cith::city256::{
    city256_long_crc, city256_long_with_crc, select_crc32c_backend, Crc32cBackend,
};
use cith::crc32c::crc32c_u64;
use cith::mix::{hash_len_16_u64, read_le32, read_le64, rotate32, rotate64, swap_bytes32, swap_bytes64, K0, K1};
use cith::{
    city_hash128, city_hash128_crc, city_hash128_crc_with_seed, city_hash128_with_seed,
    city_hash256_crc, city_hash256_crc_with_seed, city_hash32, city_hash64, city_hash64_with_seed,
    city_murmur, city_murmur_with_seed, City32Hasher, City64Hasher,
};

const BOUNDARIES: [usize; 26] = [
    0, 1, 3, 4, 5, 7, 8, 12, 13, 16, 17, 24, 25, 32, 33, 40, 64, 65, 127, 128, 129, 239, 240, 241,
    900, 901,
];

fn pattern(len: usize) -> Vec<u8> {
    (0..len).map(|i| (i * 7 + 3) as u8).collect()
}

#[test]
fn every_digest_at_every_bucket_boundary() {
    for &len in BOUNDARIES.iter() {
        let data = pattern(len);
        assert_eq!(city_hash32(&data), city_hash32(&data));
        assert_eq!(city_hash64(&data), city_hash64(&data));
        assert_eq!(city_hash64_with_seed(&data, 9), city_hash64_with_seed(&data, 9));
        assert_eq!(city_murmur(&data), city_murmur(&data));
        assert_eq!(city_murmur_with_seed(&data, 9), city_murmur_with_seed(&data, 9));
        assert_eq!(city_hash128(&data), city_hash128(&data));
        assert_eq!(city_hash128_with_seed(&data, 9), city_hash128_with_seed(&data, 9));
        assert_eq!(city_hash128_crc(&data), city_hash128_crc(&data));
        assert_eq!(city_hash128_crc_with_seed(&data, 9), city_hash128_crc_with_seed(&data, 9));
        let a = city_hash256_crc_with_seed(&data, 9);
        let b = city_hash256_crc_with_seed(&data, 9);
        assert_eq!((a.lo, a.hi), (b.lo, b.hi));
    }
}

#[test]
fn neighbouring_lengths_give_different_digests() {
    for w in BOUNDARIES.windows(2) {
        let short = pattern(w[0]);
        let long = pattern(w[1]);
        assert_ne!(city_hash64(&short), city_hash64(&long));
        assert_ne!(city_hash32(&short), city_hash32(&long));
        assert_ne!(city_hash128(&short), city_hash128(&long));
        assert_ne!(city_hash256_crc(&short).lo, city_hash256_crc(&long).lo);
    }
}

#[test]
fn seeds_change_the_digest() {
    for &len in [1usize, 20, 100, 300, 1000].iter() {
        let data = pattern(len);
        assert_ne!(city_hash64_with_seed(&data, 1), city_hash64_with_seed(&data, 2));
        assert_ne!(city_murmur_with_seed(&data, 1), city_murmur_with_seed(&data, 2));
        assert_ne!(city_hash128_with_seed(&data, 1), city_hash128_with_seed(&data, 2));
        assert_ne!(city_hash128_crc_with_seed(&data, 1), city_hash128_crc_with_seed(&data, 2));
        if len >= 240 {
            assert_ne!(
                city_hash256_crc_with_seed(&data, 1).lo,
                city_hash256_crc_with_seed(&data, 2).lo
            );
        } else {
            assert_eq!(
                city_hash256_crc_with_seed(&data, 1).lo,
                city_hash256_crc_with_seed(&data, 2).lo
            );
        }
    }
}

#[test]
fn literal_vectors() {
    assert_eq!(city_hash64(b""), 11160318154034397263);
    assert_eq!(
        city_hash64(b"The quick brown fox jumps over the lazy dog"),
        14008572299481893501
    );
    assert_eq!(city_murmur(b""), 236886107234819556091512130834823996519);
    assert_eq!(city_murmur(b"123"), 147516989038733154062198668001837519169);
    let h = city_hash256_crc(b"Hello CRC");
    assert_eq!(h.lo, 167610683394798017944502699170498217074);
    assert_eq!(h.hi, 250595889336278130356695761762065153882);
}

#[test]
fn seeded_64_is_a_fold_of_the_unseeded_digest() {
    let data = b"seeded sixty-four";
    assert_eq!(
        city_hash64_with_seed(data, 77),
        hash_len_16_u64(city_hash64(data).wrapping_sub(K0), 77)
    );
}

#[test]
fn hash128_takes_its_seed_from_the_first_sixteen_bytes() {
    let data = pattern(200);
    let seed = (read_le64(&data, 0) as u128) | ((read_le64(&data, 8).wrapping_add(K0) as u128) << 64);
    assert_eq!(city_hash128(&data), city_hash128_with_seed(&data[16..], seed));
    let short = pattern(10);
    let fixed = (K0 as u128) | ((K1 as u128) << 64);
    assert_eq!(city_hash128(&short), city_hash128_with_seed(&short, fixed));
}

#[test]
fn hash128_below_128_bytes_is_the_murmur_hybrid() {
    for &len in [0usize, 16, 17, 127].iter() {
        let data = pattern(len);
        assert_eq!(city_hash128_with_seed(&data, 5), city_murmur_with_seed(&data, 5));
    }
    let data = pattern(128);
    assert_ne!(city_hash128_with_seed(&data, 5), city_murmur_with_seed(&data, 5));
}

#[test]
fn hash128_crc_switches_at_900_bytes() {
    let data = pattern(900);
    assert_eq!(city_hash128_crc(&data), city_hash128(&data));
    assert_eq!(city_hash128_crc_with_seed(&data, 3), city_hash128_with_seed(&data, 3));
    let data = pattern(901);
    assert_eq!(city_hash128_crc(&data), city_hash256_crc(&data).hi);
    assert_ne!(city_hash128_crc(&data), city_hash128(&data));
}

#[test]
fn hash128_crc_with_seed_folds_the_256_bit_words() {
    let data = pattern(1000);
    let seed: u128 = (5u128 << 64) | 6;
    let d = city_hash256_crc(&data);
    let u = 5u64.wrapping_add(d.lo as u64);
    let v = 6u64.wrapping_add((d.lo >> 64) as u64);
    let lo = hash_len_16_u64(u, v.wrapping_add(d.hi as u64));
    let hi = hash_len_16_u64(v.rotate_right(32), u.wrapping_mul(K0).wrapping_add((d.hi >> 64) as u64));
    assert_eq!(city_hash128_crc_with_seed(&data, seed), (lo as u128) | ((hi as u128) << 64));
}

#[test]
fn short_inputs_are_padded_and_seeded_by_their_length() {
    let data = b"abc";
    let mut padded = data.to_vec();
    padded.resize(240, 0);
    let h = city_hash256_crc_with_seed(data, 7);
    let expected = city256_long_crc(&padded, !3u32);
    assert_eq!((h.lo, h.hi), (expected.lo, expected.hi));
    let as_long = city_hash256_crc_with_seed(&padded, 7);
    assert_ne!(h.lo, as_long.lo);
    let empty = city_hash256_crc(b"");
    let zeros = city_hash256_crc(&[0u8; 1]);
    assert_ne!(empty.lo, zeros.lo);
}

#[test]
fn backends_agree_on_long_inputs() {
    let table_free = |crc: u32, v: u64| crc32c_u64(crc, v);
    for &len in [240usize, 241, 479, 480, 1000].iter() {
        let data = pattern(len);
        let a = city256_long_crc(&data, 11);
        let b = city256_long_with_crc(&data, 11, &table_free);
        assert_eq!((a.lo, a.hi), (b.lo, b.hi));
    }
}

#[test]
fn crc32c_matches_the_published_check_values() {
    let run = |words: [u64; 4]| {
        let mut crc = 0xffff_ffffu32;
        for w in words.iter() {
            crc = crc32c_u64(crc, *w);
        }
        !crc
    };
    assert_eq!(run([0; 4]), 0x8a91_36aa);
    assert_eq!(run([u64::MAX; 4]), 0x62a8_ab43);
    let ascending: Vec<u8> = (0..32u8).collect();
    let words = [
        read_le64(&ascending, 0),
        read_le64(&ascending, 8),
        read_le64(&ascending, 16),
        read_le64(&ascending, 24),
    ];
    assert_eq!(run(words), 0x46dd_794e);
}

#[test]
fn the_backend_choice_prefers_hardware() {
    assert_eq!(select_crc32c_backend(true, false), Crc32cBackend::Sse42);
    assert_eq!(select_crc32c_backend(true, true), Crc32cBackend::Sse42);
    assert_eq!(select_crc32c_backend(false, true), Crc32cBackend::ArmCrc);
    assert_eq!(select_crc32c_backend(false, false), Crc32cBackend::Software);
}

#[test]
fn primitive_mixers() {
    let bytes = [1u8, 2, 3, 4, 5, 6, 7, 8, 9];
    assert_eq!(read_le64(&bytes, 1), 0x0908_0706_0504_0302);
    assert_eq!(read_le32(&bytes, 0), 0x0403_0201);
    assert_eq!(rotate64(1, 1), 1u64 << 63);
    assert_eq!(rotate64(0x1234, 0), 0x1234);
    assert_eq!(rotate32(0x8000_0001, 4), 0x1800_0000);
    assert_eq!(swap_bytes64(0x0102_0304_0506_0708), 0x0807_0605_0403_0201);
    assert_eq!(swap_bytes32(0x0102_0304), 0x0403_0201);
}

#[test]
fn hashers_digest_everything_written() {
    let mut h = City64Hasher::new_with_seed(5);
    h.write(b"ab");
    h.write(b"cd");
    assert_eq!(h.finish(), city_hash64_with_seed(b"abcd", 5));

    let mut h = City64Hasher::new();
    h.write(b"abcd");
    assert_eq!(h.finish(), city_hash64(b"abcd"));

    let mut h = City64Hasher::default();
    std::hash::Hasher::write(&mut h, b"xyz");
    assert_eq!(std::hash::Hasher::finish(&h), city_hash64(b"xyz"));

    let mut h = City32Hasher::default();
    h.write(b"hello ");
    h.write(b"world");
    assert_eq!(h.finish(), city_hash32(b"hello world") as u64);
}
