use cith::city_murmur;

#[test]
fn test_city_murmur() {
    assert_eq!(
        city_murmur(b"123456789"),
        137555568363236656549789161648540888277
    );
    assert_eq!(city_murmur(b"123"), 147516989038733154062198668001837519169);
    assert_eq!(city_murmur(&[]), 236886107234819556091512130834823996519);
    assert_eq!(city_murmur(b"1"), 232547357270412657736765068303298868200);
    assert_eq!(
        city_murmur(b"123456789123456"),
        99170281196658490251255024019638099994
    );
    assert_eq!(
        city_murmur(b"The quick brown fox jumps over the lazy dog"),
        251933285825128086863441730578249075428
    );
    assert_eq!(
        city_murmur(b"The current version, completed April 3, 2011, is MurmurHash3,[12][13] which yields a 32-bit or 128-bit hash value. When using 128-bits, the x86 and x64 versions do not produce the same values, as the algorithms are optimized for their respective platforms. MurmurHash3 was released alongside SMHasher, a hash function test suite."),
        49367195754802758346567295079188952398
    );
}
