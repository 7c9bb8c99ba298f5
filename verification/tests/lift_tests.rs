use canon_rt::lift::{bool_lift, bool_lift_checked, char_lift, char_lift_checked, enum_lift,
    enum_lift_checked, CanonError};
use canon_rt::text::{string_lift, string_lift_checked, utf8_is_valid};

#[test]
fn bool_lift_checked_accepts_zero_and_one() {
    assert_eq!(bool_lift_checked(0), Ok(false));
    assert_eq!(bool_lift_checked(1), Ok(true));
}

#[test]
fn bool_lift_checked_rejects_two() {
    assert_eq!(bool_lift_checked(2), Err(CanonError::InvalidBool));
    assert_eq!(bool_lift_checked(255), Err(CanonError::InvalidBool));
}

#[test]
fn bool_lift_trusted_matches_checked() {
    assert_eq!(bool_lift(0), false);
    assert_eq!(bool_lift(1), true);
}

#[test]
fn char_lift_checked_accepts_letter() {
    assert_eq!(char_lift_checked(0x41), Ok('A'));
    assert_eq!(char_lift_checked(0x1F600), Ok('\u{1F600}'));
    assert_eq!(char_lift_checked(0x10FFFF), Ok('\u{10FFFF}'));
}

#[test]
fn char_lift_checked_rejects_surrogate_and_out_of_range() {
    assert_eq!(char_lift_checked(0xD800), Err(CanonError::InvalidChar));
    assert_eq!(char_lift_checked(0xDFFF), Err(CanonError::InvalidChar));
    assert_eq!(char_lift_checked(0x110000), Err(CanonError::InvalidChar));
}

#[test]
fn char_lift_trusted_matches_checked() {
    assert_eq!(char_lift(0x41), 'A');
    assert_eq!(char_lift(0xE9), 'é');
}

#[test]
fn enum_lift_checked_accepts_declared_tags() {
    assert_eq!(enum_lift_checked(0, 3), Ok(0));
    assert_eq!(enum_lift_checked(2, 3), Ok(2));
}

#[test]
fn enum_lift_checked_rejects_invalid_discriminant() {
    assert_eq!(enum_lift_checked(3, 3), Err(CanonError::InvalidDiscriminant));
    assert_eq!(enum_lift_checked(0, 0), Err(CanonError::InvalidDiscriminant));
}

#[test]
fn enum_lift_trusted_hands_back_tag() {
    assert_eq!(enum_lift(1, 4), 1);
}

#[test]
fn string_lift_checked_rejects_invalid_byte() {
    assert_eq!(string_lift_checked(vec![0xFF]), Err(CanonError::InvalidText));
}

#[test]
fn string_lift_checked_round_trips_ok() {
    assert_eq!(string_lift_checked(b"ok".to_vec()), Ok(String::from("ok")));
}

#[test]
fn string_lift_checked_accepts_multibyte() {
    let s = "héllo wörld \u{1F600}";
    assert_eq!(string_lift_checked(s.as_bytes().to_vec()), Ok(String::from(s)));
}

#[test]
fn string_lift_checked_rejects_overlong_encoding() {
    // 0xC0 0x80 is an overlong encoding of NUL.
    assert_eq!(string_lift_checked(vec![0xC0, 0x80]), Err(CanonError::InvalidText));
}

#[test]
fn string_lift_checked_rejects_encoded_surrogate() {
    // 0xED 0xA0 0x80 encodes the surrogate 0xD800.
    assert_eq!(string_lift_checked(vec![0xED, 0xA0, 0x80]), Err(CanonError::InvalidText));
}

#[test]
fn string_lift_checked_rejects_truncated_scalar() {
    assert_eq!(string_lift_checked(vec![0xE2, 0x82]), Err(CanonError::InvalidText));
    assert_eq!(string_lift_checked(vec![0xF0, 0x9F, 0x98]), Err(CanonError::InvalidText));
}

#[test]
fn string_lift_checked_rejects_bare_continuation() {
    assert_eq!(string_lift_checked(vec![0x80]), Err(CanonError::InvalidText));
}

#[test]
fn string_lift_checked_accepts_empty() {
    assert_eq!(string_lift_checked(Vec::new()), Ok(String::new()));
}

#[test]
fn string_lift_trusted_matches_checked() {
    assert_eq!(string_lift(b"abc".to_vec()), String::from("abc"));
}

#[test]
fn utf8_validator_agrees_with_std() {
    let cases: Vec<Vec<u8>> = vec![
        b"plain ascii".to_vec(),
        "două \u{0219}i dou\u{0103}".as_bytes().to_vec(),
        vec![0xC2, 0x80],
        vec![0xC1, 0xBF],
        vec![0xE0, 0x9F, 0x80],
        vec![0xE0, 0xA0, 0x80],
        vec![0xF0, 0x8F, 0xBF, 0xBF],
        vec![0xF0, 0x90, 0x80, 0x80],
        vec![0xF4, 0x8F, 0xBF, 0xBF],
        vec![0xF4, 0x90, 0x80, 0x80],
        vec![0xF8, 0x88, 0x80, 0x80, 0x80],
        vec![0x41, 0xC2],
    ];
    for bytes in cases {
        assert_eq!(utf8_is_valid(&bytes), std::str::from_utf8(&bytes).is_ok());
    }
}
