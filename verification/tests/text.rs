use hipfire_arwaky::text::{
    chars_of, contains_char, ends_with, parse_unsigned, str_eq, to_decimal, trim_chars,
    white_space,
};

#[test]
fn chars_of_splits_unicode_text() {
    assert_eq!(chars_of("aé🩹"), vec!['a', 'é', '🩹']);
    assert_eq!(chars_of(""), Vec::<char>::new());
}

#[test]
fn str_eq_compares_characters() {
    assert!(str_eq("kv_cache", "kv_cache"));
    assert!(!str_eq("kv_cache", "kv_cach"));
    assert!(!str_eq("port", "Port"));
    assert!(str_eq("", ""));
}

#[test]
fn ends_with_tests_suffixes() {
    assert!(ends_with("model.hfq", ".hfq"));
    assert!(ends_with(".hfq", ".hfq"));
    assert!(!ends_with("hfq", ".hfq"));
    assert!(!ends_with("model.hfq.bak", ".hfq"));
    assert!(ends_with("anything", ""));
}

#[test]
fn contains_char_finds_slashes() {
    assert!(contains_char("models/q.bin", '/'));
    assert!(!contains_char("model", '/'));
}

#[test]
fn white_space_is_unicode_white_space() {
    assert!(white_space(' '));
    assert!(white_space('\n'));
    assert!(white_space('\u{3000}'));
    assert!(white_space('\u{85}'));
    assert!(!white_space('y'));
    assert!(!white_space('\u{200b}'));
}

#[test]
fn trim_chars_matches_str_trim() {
    for s in ["  y \n", "y", "", "   ", "\u{3000}Y\u{a0}", " a b ", "\t\r\n"] {
        let expected: Vec<char> = s.trim().chars().collect();
        assert_eq!(trim_chars(s), expected, "{:?}", s);
    }
}

#[test]
fn parse_unsigned_accepts_what_from_str_accepts() {
    assert_eq!(parse_unsigned("42", u64::MAX), Some(42));
    assert_eq!(parse_unsigned("+7", u64::MAX), Some(7));
    assert_eq!(parse_unsigned("007", u64::MAX), Some(7));
    assert_eq!(parse_unsigned("0", 0), Some(0));
    assert_eq!(parse_unsigned("65535", 65535), Some(65535));
}

#[test]
fn parse_unsigned_rejects_what_from_str_rejects() {
    assert_eq!(parse_unsigned("", u64::MAX), None);
    assert_eq!(parse_unsigned("+", u64::MAX), None);
    assert_eq!(parse_unsigned("-1", u64::MAX), None);
    assert_eq!(parse_unsigned("1a", u64::MAX), None);
    assert_eq!(parse_unsigned(" 1", u64::MAX), None);
    assert_eq!(parse_unsigned("++1", u64::MAX), None);
    assert_eq!(parse_unsigned("65536", 65535), None);
    assert_eq!(parse_unsigned("18446744073709551616", u64::MAX), None);
    assert_eq!(parse_unsigned("99999999999999999999x", u64::MAX), None);
}

#[test]
fn parse_unsigned_agrees_with_std_on_samples() {
    for s in ["0", "+0", "12", "4294967295", "4294967296", "+", "", "1_000", "٣", "+-1"] {
        let ours = parse_unsigned(s, u32::MAX as u64).map(|v| v as u32);
        assert_eq!(ours, s.parse::<u32>().ok(), "{:?}", s);
    }
}

#[test]
fn to_decimal_writes_digits() {
    assert_eq!(to_decimal(0), "0");
    assert_eq!(to_decimal(7), "7");
    assert_eq!(to_decimal(10), "10");
    assert_eq!(to_decimal(1234567890), "1234567890");
    assert_eq!(to_decimal(u64::MAX), u64::MAX.to_string());
}

#[test]
fn decimal_round_trip() {
    for n in [0u64, 1, 9, 10, 99, 100, 65535, 4294967295, u64::MAX] {
        assert_eq!(parse_unsigned(&to_decimal(n), u64::MAX), Some(n));
    }
}

#[test]
fn plus_sign_does_not_change_value() {
    assert_eq!(parse_unsigned("+123", 1000), parse_unsigned("123", 1000));
    assert_eq!(parse_unsigned("+1x", 1000), parse_unsigned("1x", 1000));
}
