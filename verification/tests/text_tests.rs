use auth_service::digest::{sha256_hex, url_encode};
use auth_service::num::{int_error_message, parse_bool, parse_i64, parse_u32, parse_u64, IntParseError};
use auth_service::text::{chars_of, eq_ignore_case, split_chars, string_of, trim_chars};

#[test]
fn split_keeps_empty_pieces() {
    let parts = split_chars(&chars_of("a,,b,"), ',');
    let texts: Vec<String> = parts.iter().map(|p| string_of(p)).collect();
    assert_eq!(texts, vec!["a", "", "b", ""]);
    assert_eq!(split_chars(&chars_of(""), ',').len(), 1);
}

#[test]
fn trim_drops_unicode_white_space() {
    assert_eq!(string_of(&trim_chars(&chars_of("  a b \t\n"))), "a b");
    assert_eq!(string_of(&trim_chars(&chars_of("\u{3000}x\u{a0}"))), "x");
    assert_eq!(string_of(&trim_chars(&chars_of("   "))), "");
    for s in ["  a b \t\n", "\u{2009}q\u{2028}", "", "x"] {
        assert_eq!(string_of(&trim_chars(&chars_of(s))), s.trim());
    }
}

#[test]
fn case_insensitive_ascii() {
    assert!(eq_ignore_case(&chars_of("PrOd"), &chars_of("prod")));
    assert!(!eq_ignore_case(&chars_of("prod!"), &chars_of("prod")));
}

#[test]
fn integers_parse_as_std_does() {
    for s in ["0", "15", "-7", "+3", "", "-", "+", "1a", "9223372036854775807", "9223372036854775808", "-9223372036854775808", "-9223372036854775809", "99999999999999999999x"] {
        let ours = parse_i64(s);
        let std: Result<i64, _> = s.parse();
        match (ours, std) {
            (Ok(a), Ok(b)) => assert_eq!(a, b, "{}", s),
            (Err(e), Err(f)) => assert_eq!(int_error_message(e), f.to_string(), "{}", s),
            (a, b) => panic!("{}: {:?} vs {:?}", s, a, b),
        }
    }
    for s in ["0", "4294967295", "4294967296", "-1", "+5", "x"] {
        let ours = parse_u32(s);
        let std: Result<u32, _> = s.parse();
        match (ours, std) {
            (Ok(a), Ok(b)) => assert_eq!(a, b),
            (Err(e), Err(f)) => assert_eq!(int_error_message(e), f.to_string()),
            (a, b) => panic!("{}: {:?} vs {:?}", s, a, b),
        }
    }
    assert_eq!(parse_u64("18446744073709551615"), Ok(u64::MAX));
    assert_eq!(parse_u64("18446744073709551616"), Err(IntParseError::PosOverflow));
    assert_eq!(parse_i64("-"), Err(IntParseError::InvalidDigit));
    assert_eq!(parse_i64(""), Err(IntParseError::Empty));
}

#[test]
fn booleans_parse_as_std_does() {
    assert_eq!(parse_bool("true"), Some(true));
    assert_eq!(parse_bool("false"), Some(false));
    assert_eq!(parse_bool("TRUE"), None);
}

#[test]
fn sha256_hex_known_values() {
    assert_eq!(sha256_hex(""), "e3b0c44298fc1c149afbf4c8996fb92427ae41e4649b934ca495991b7852b855");
    assert_eq!(sha256_hex("abc"), "ba7816bf8f01cfea414140de5dae2223b00361a396177a9cb410ff61f20015ad");
}

#[test]
fn url_encoding_known_values() {
    assert_eq!(url_encode("a b&c"), "a%20b%26c");
    assert_eq!(url_encode("A-z_0.~"), "A-z_0.~");
    assert_eq!(url_encode("é"), "%C3%A9");
}
