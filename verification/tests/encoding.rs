use authcore::hashing::sha256_hex;
use authcore::ids::UserId;
use authcore::random::new_refresh_token;
use authcore::text::trim;

#[test]
fn sha256_hex_of_known_input() {
    // SHA-256("abc"), hex encoded
    assert_eq!(
        sha256_hex("abc"),
        "ba7816bf8f01cfea414140de5dae2223b00361a396177a9cb410ff61f20015ad"
    );
}

#[test]
fn sha256_hex_of_empty_input() {
    assert_eq!(
        sha256_hex(""),
        "e3b0c44298fc1c149afbf4c8996fb92427ae41e4649b934ca495991b7852b855"
    );
}

#[test]
fn refresh_tokens_are_long_and_distinct() {
    let a = new_refresh_token();
    let b = new_refresh_token();
    // 32 random bytes, URL-safe encoded without padding
    assert_eq!(a.len(), 43);
    assert_eq!(b.len(), 43);
    assert_ne!(a, b);
}

#[test]
fn user_id_formats_canonically() {
    let id = UserId { value: 0x0011_2233_4455_6677_8899_aabb_ccdd_eeff };
    assert_eq!(id.to_hyphenated(), "00112233-4455-6677-8899-aabbccddeeff");
    let zero = UserId { value: 0 };
    assert_eq!(zero.to_hyphenated(), "00000000-0000-0000-0000-000000000000");
    let max = UserId { value: u128::MAX };
    assert_eq!(max.to_hyphenated(), "ffffffff-ffff-ffff-ffff-ffffffffffff");
}

#[test]
fn user_id_parse_round_trips() {
    let id = UserId { value: 0xdead_beef_0000_0001_0000_0002_0000_0003 };
    let s = id.to_hyphenated();
    let back = UserId::parse_hyphenated(s.as_str()).expect("the canonical form should parse");
    assert_eq!(back, id);
}

#[test]
fn user_id_parse_accepts_upper_case() {
    let parsed = UserId::parse_hyphenated("00112233-4455-6677-8899-AABBCCDDEEFF")
        .expect("upper-case hex should parse");
    assert_eq!(parsed, UserId { value: 0x0011_2233_4455_6677_8899_aabb_ccdd_eeff });
}

#[test]
fn user_id_parse_rejects_malformed_strings() {
    assert!(UserId::parse_hyphenated("").is_none());
    assert!(UserId::parse_hyphenated("0011223344556677-8899aabbccddeeff").is_none());
    assert!(UserId::parse_hyphenated("00112233-4455-6677-8899-aabbccddee").is_none());
    assert!(UserId::parse_hyphenated("g0112233-4455-6677-8899-aabbccddeeff").is_none());
    assert!(UserId::parse_hyphenated("00112233-4455-6677-8899-aabbccddeeff0").is_none());
    assert!(UserId::parse_hyphenated("00112233x4455-6677-8899-aabbccddeeff").is_none());
}

#[test]
fn trim_strips_surrounding_whitespace() {
    assert_eq!(trim("  a@x.test \t\r\n"), "a@x.test");
    assert_eq!(trim("unchanged"), "unchanged");
    assert_eq!(trim("   "), "");
    assert_eq!(trim(""), "");
    assert_eq!(trim(" inner space kept "), "inner space kept");
}
