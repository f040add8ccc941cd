use conduit_axum::text::{decimal_string, ends_with, parse_u64, str_eq};

#[test]
fn str_eq_compares_characters() {
    assert!(str_eq("GET", "GET"));
    assert!(str_eq("", ""));
    assert!(!str_eq("GET", "get"));
    assert!(!str_eq("GET", "GETS"));
    assert!(!str_eq("é", "e"));
}

#[test]
fn ends_with_finds_suffix() {
    assert!(ends_with("/crates/foo/download", "/download"));
    assert!(ends_with("/download", "/download"));
    assert!(ends_with("anything", ""));
    assert!(ends_with("", ""));
}

#[test]
fn ends_with_refuses_other_endings() {
    assert!(!ends_with("download", "/download"));
    assert!(!ends_with("/crates/foo/download/", "/download"));
    assert!(!ends_with("/crates/foo/downloads", "/download"));
    assert!(!ends_with("", "/download"));
}

#[test]
fn ends_with_counts_characters_not_bytes() {
    assert!(ends_with("/crates/é/download", "/download"));
    assert!(ends_with("/crates/é", "é"));
    assert!(!ends_with("/crates/e", "é"));
}

#[test]
fn decimal_string_of_small_numbers() {
    assert_eq!(decimal_string(0), "0");
    assert_eq!(decimal_string(3), "3");
    assert_eq!(decimal_string(9), "9");
    assert_eq!(decimal_string(10), "10");
    assert_eq!(decimal_string(1000), "1000");
    assert_eq!(decimal_string(1001), "1001");
    assert_eq!(decimal_string(1234567890), "1234567890");
}

#[test]
fn decimal_string_of_the_largest_number() {
    assert_eq!(decimal_string(u128::MAX), "340282366920938463463374607431768211455");
    assert_eq!(decimal_string(u64::MAX as u128), "18446744073709551615");
}

#[test]
fn decimal_string_agrees_with_std() {
    let mut n: u128 = 1;
    while n < u128::MAX / 7 {
        assert_eq!(decimal_string(n), format!("{}", n));
        assert_eq!(decimal_string(n - 1), format!("{}", n - 1));
        n = n * 7 + 3;
    }
}

#[test]
fn parse_u64_reads_digits() {
    assert_eq!(parse_u64("0"), Some(0));
    assert_eq!(parse_u64("7"), Some(7));
    assert_eq!(parse_u64("12"), Some(12));
    assert_eq!(parse_u64("134217728"), Some(134217728));
    assert_eq!(parse_u64("999999999999"), Some(999999999999));
}

#[test]
fn parse_u64_takes_leading_zeros_and_one_plus() {
    assert_eq!(parse_u64("0012"), Some(12));
    assert_eq!(parse_u64("+5"), Some(5));
    assert_eq!(parse_u64("+0"), Some(0));
}

#[test]
fn parse_u64_at_the_upper_bound() {
    assert_eq!(parse_u64("18446744073709551615"), Some(u64::MAX));
    assert_eq!(parse_u64("18446744073709551616"), None);
    assert_eq!(parse_u64("18446744073709551620"), None);
    assert_eq!(parse_u64("99999999999999999999999999"), None);
    assert_eq!(parse_u64("000018446744073709551615"), Some(u64::MAX));
}

#[test]
fn parse_u64_refuses_what_is_no_number() {
    assert_eq!(parse_u64(""), None);
    assert_eq!(parse_u64("+"), None);
    assert_eq!(parse_u64("-"), None);
    assert_eq!(parse_u64("-1"), None);
    assert_eq!(parse_u64("-0"), None);
    assert_eq!(parse_u64("++1"), None);
    assert_eq!(parse_u64("1+"), None);
    assert_eq!(parse_u64(" 1"), None);
    assert_eq!(parse_u64("1 "), None);
    assert_eq!(parse_u64("1_000"), None);
    assert_eq!(parse_u64("12a"), None);
    assert_eq!(parse_u64("abc"), None);
    assert_eq!(parse_u64("1.5"), None);
    assert_eq!(parse_u64("0x10"), None);
}

#[test]
fn parse_u64_refuses_digits_outside_ascii() {
    assert_eq!(parse_u64("١٢٣"), None);
    assert_eq!(parse_u64("1é"), None);
    assert_eq!(parse_u64("+١"), None);
}

#[test]
fn parse_u64_agrees_with_std() {
    let samples = [
        "", "+", "-", "0", "+0", "-0", "00", "1", "+1", "-1", "12", "1a", "a1", " 1", "1 ",
        "18446744073709551615", "18446744073709551616", "+18446744073709551615", "١", "1\t",
        "\t1", "++1", "+-1", "1+1", "4294967296",
    ];
    for text in samples {
        assert_eq!(parse_u64(text), text.parse::<u64>().ok(), "{}", text);
    }
}

#[test]
fn parse_u64_reads_back_decimal_string() {
    let mut n: u64 = 0;
    for _ in 0..40 {
        let text = decimal_string(n as u128);
        assert_eq!(parse_u64(&text), Some(n));
        n = n.wrapping_mul(31).wrapping_add(17);
    }
}
