use faceit_link::text::{ends_with, format_u64, parse_id, parse_u64, str_equal};

#[test]
fn parse_plain_numbers() {
    assert_eq!(parse_u64("0"), Some(0));
    assert_eq!(parse_u64("7"), Some(7));
    assert_eq!(parse_u64("1500"), Some(1500));
    assert_eq!(parse_u64("007"), Some(7));
    assert_eq!(parse_u64("1325921171417596006"), Some(1325921171417596006));
}

#[test]
fn parse_accepts_one_plus_sign() {
    assert_eq!(parse_u64("+5"), Some(5));
    assert_eq!(parse_u64("++5"), None);
    assert_eq!(parse_u64("+"), None);
    assert_eq!(parse_u64("5+"), None);
}

#[test]
fn parse_rejects_what_is_no_number() {
    assert_eq!(parse_u64(""), None);
    assert_eq!(parse_u64("-5"), None);
    assert_eq!(parse_u64(" 5"), None);
    assert_eq!(parse_u64("5 "), None);
    assert_eq!(parse_u64("1_000"), None);
    assert_eq!(parse_u64("12a"), None);
    assert_eq!(parse_u64("1.5"), None);
    assert_eq!(parse_u64("\"7\""), None);
    assert_eq!(parse_u64("١٢٣"), None);
    assert_eq!(parse_u64("12é"), None);
}

#[test]
fn parse_stops_at_the_largest_value() {
    assert_eq!(parse_u64("18446744073709551615"), Some(u64::MAX));
    assert_eq!(parse_u64("18446744073709551616"), None);
    assert_eq!(parse_u64("99999999999999999999999"), None);
    assert_eq!(parse_u64("000018446744073709551615"), Some(u64::MAX));
}

#[test]
fn parse_agrees_with_the_standard_library() {
    let samples = [
        "", "+", "-", "0", "+0", "-0", "42", "+42", "-42", "4 2", "0x10", "18446744073709551615",
        "18446744073709551616", "٣", "१२", "12\n",
    ];
    for sample in samples {
        assert_eq!(parse_u64(sample), sample.parse::<u64>().ok(), "{:?}", sample);
    }
}

#[test]
fn identifiers_start_at_one() {
    assert_eq!(parse_id("1"), Some(1));
    assert_eq!(parse_id("0"), None);
    assert_eq!(parse_id("000"), None);
    assert_eq!(parse_id("abc"), None);
    assert_eq!(parse_id("613425648685547541"), Some(613425648685547541));
}

#[test]
fn format_writes_decimal_digits() {
    assert_eq!(format_u64(0), "0");
    assert_eq!(format_u64(9), "9");
    assert_eq!(format_u64(10), "10");
    assert_eq!(format_u64(1500), "1500");
    assert_eq!(format_u64(u64::MAX), "18446744073709551615");
}

#[test]
fn format_then_parse_gives_the_number_back() {
    for n in [0u64, 1, 9, 10, 99, 100, 801, 2001, 123456789, u64::MAX - 1, u64::MAX] {
        assert_eq!(parse_u64(&format_u64(n)), Some(n));
    }
}

#[test]
fn equality_is_by_characters() {
    assert!(str_equal("", ""));
    assert!(str_equal("abc", "abc"));
    assert!(!str_equal("abc", "abd"));
    assert!(!str_equal("abc", "ab"));
    assert!(!str_equal("", "a"));
    assert!(str_equal("héllo", "héllo"));
    assert!(!str_equal("héllo", "hello"));
}

#[test]
fn suffix_is_by_characters() {
    assert!(ends_with("(1500 ELO) s1mple", "s1mple"));
    assert!(ends_with("abc", ""));
    assert!(ends_with("", ""));
    assert!(ends_with("abc", "abc"));
    assert!(!ends_with("abc", "xabc"));
    assert!(!ends_with("abc", "ab"));
    assert!(ends_with("naïve café", "café"));
    assert!(!ends_with("naïve café", "cafe"));
    assert!(!ends_with("", "a"));
}
