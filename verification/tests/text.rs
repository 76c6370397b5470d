use spanner_rs::text::{joined, format_i64, format_u64, parse_i64, str_eq};

#[test]
fn parse_i64_reads_signed_literals() {
    assert_eq!(parse_i64("0"), Some(0));
    assert_eq!(parse_i64("42"), Some(42));
    assert_eq!(parse_i64("+42"), Some(42));
    assert_eq!(parse_i64("-42"), Some(-42));
    assert_eq!(parse_i64("-0"), Some(0));
    assert_eq!(parse_i64("0000000000000000000000042"), Some(42));
    assert_eq!(parse_i64("9223372036854775807"), Some(i64::MAX));
    assert_eq!(parse_i64("-9223372036854775808"), Some(i64::MIN));
}

#[test]
fn parse_i64_refuses_what_is_no_literal() {
    assert_eq!(parse_i64(""), None);
    assert_eq!(parse_i64("+"), None);
    assert_eq!(parse_i64("-"), None);
    assert_eq!(parse_i64("--1"), None);
    assert_eq!(parse_i64("+-1"), None);
    assert_eq!(parse_i64("1-"), None);
    assert_eq!(parse_i64(" 1"), None);
    assert_eq!(parse_i64("1 "), None);
    assert_eq!(parse_i64("1.0"), None);
    assert_eq!(parse_i64("1e3"), None);
    assert_eq!(parse_i64("0x10"), None);
    assert_eq!(parse_i64("١٢٣"), None);
    assert_eq!(parse_i64("12a"), None);
}

#[test]
fn parse_i64_refuses_what_does_not_fit() {
    assert_eq!(parse_i64("9223372036854775808"), None);
    assert_eq!(parse_i64("-9223372036854775809"), None);
    assert_eq!(parse_i64("18446744073709551615"), None);
    assert_eq!(parse_i64("18446744073709551616"), None);
    assert_eq!(parse_i64("99999999999999999999999999999999999999"), None);
    assert_eq!(parse_i64("-99999999999999999999999999999999999999"), None);
}

#[test]
fn parse_i64_agrees_with_the_standard_library() {
    let samples = [
        "", "+", "-", "0", "-0", "+0", "007", "+007", "-007", "12345678901234567890", "1_000",
        "9223372036854775807", "9223372036854775808", "-9223372036854775808",
        "-9223372036854775809", "a", "1a", "٣", "+ 1",
    ];
    for s in samples {
        assert_eq!(parse_i64(s), s.parse::<i64>().ok(), "for {:?}", s);
    }
}

#[test]
fn format_i64_writes_decimal() {
    assert_eq!(format_i64(0), "0");
    assert_eq!(format_i64(7), "7");
    assert_eq!(format_i64(-7), "-7");
    assert_eq!(format_i64(10), "10");
    assert_eq!(format_i64(1234567890), "1234567890");
    assert_eq!(format_i64(i64::MAX), "9223372036854775807");
    assert_eq!(format_i64(i64::MIN), "-9223372036854775808");
    assert_eq!(format_u64(u64::MAX), "18446744073709551615");
    assert_eq!(format_u64(0), "0");
}

#[test]
fn format_then_parse_gives_the_number_back() {
    for v in [
        0,
        1,
        -1,
        9,
        10,
        -10,
        99,
        100,
        i64::MAX,
        i64::MIN,
        i64::MAX - 1,
        i64::MIN + 1,
    ] {
        assert_eq!(parse_i64(&format_i64(v)), Some(v));
        assert_eq!(format_i64(v), v.to_string());
    }
}

#[test]
fn str_eq_compares_texts() {
    assert!(str_eq("", ""));
    assert!(str_eq("abc", "abc"));
    assert!(!str_eq("abc", "abd"));
    assert!(!str_eq("abc", "ab"));
    assert!(!str_eq("", "a"));
    assert!(str_eq("héllo", "héllo"));
    assert!(!str_eq("héllo", "hello"));
}

#[test]
fn joined_joins_texts() {
    assert_eq!(joined("", ""), "");
    assert_eq!(joined("a", ""), "a");
    assert_eq!(joined("", "b"), "b");
    assert_eq!(joined("ab", "cd"), "abcd");
}
