use tuffi::text::{chars_of, has_suffix, parse_i32, push_decimal, push_signed_decimal};

fn decimal_of(n: u64) -> String {
    let mut out = String::new();
    push_decimal(&mut out, n);
    out
}

fn signed_decimal_of(v: i64) -> String {
    let mut out = String::new();
    push_signed_decimal(&mut out, v);
    out
}

#[test]
fn chars_of_keeps_every_character_in_order() {
    assert_eq!(chars_of(""), Vec::<char>::new());
    assert_eq!(chars_of("abc"), vec!['a', 'b', 'c']);
    assert_eq!(chars_of("né→😀"), vec!['n', 'é', '→', '😀']);
}

#[test]
fn has_suffix_finds_suffixes_only_at_the_end() {
    assert!(has_suffix("style.css", ".css"));
    assert!(has_suffix(".css", ".css"));
    assert!(has_suffix("anything", ""));
    assert!(has_suffix("", ""));
    assert!(!has_suffix("css", ".css"));
    assert!(!has_suffix("style.css.bak", ".css"));
    assert!(!has_suffix("style.CSS", ".css"));
    assert!(!has_suffix("", ".css"));
}

#[test]
fn has_suffix_agrees_with_the_standard_library() {
    let texts = ["", "a", "ab", "ba", "aba", "é.js", "x.jsé", "/assets/index.js", ".js.", "js"];
    let suffixes = ["", "a", "ba", ".js", "é", "jsé", "index.js"];
    for text in texts {
        for suffix in suffixes {
            assert_eq!(has_suffix(text, suffix), text.ends_with(suffix), "{text:?} {suffix:?}");
        }
    }
}

#[test]
fn push_decimal_writes_plain_decimal_notation() {
    assert_eq!(decimal_of(0), "0");
    assert_eq!(decimal_of(7), "7");
    assert_eq!(decimal_of(10), "10");
    assert_eq!(decimal_of(1234567890), "1234567890");
    assert_eq!(decimal_of(u64::MAX), "18446744073709551615");
}

#[test]
fn push_decimal_appends_to_what_is_there() {
    let mut out = String::from("got ");
    push_decimal(&mut out, 42);
    assert_eq!(out, "got 42");
}

#[test]
fn push_signed_decimal_writes_the_sign_of_negative_numbers() {
    assert_eq!(signed_decimal_of(0), "0");
    assert_eq!(signed_decimal_of(5), "5");
    assert_eq!(signed_decimal_of(-5), "-5");
    assert_eq!(signed_decimal_of(4294967294), "4294967294");
    assert_eq!(signed_decimal_of(-4294967296), "-4294967296");
    assert_eq!(signed_decimal_of(i64::MAX), "9223372036854775807");
    assert_eq!(signed_decimal_of(i64::MIN), "-9223372036854775808");
}

#[test]
fn decimal_notation_agrees_with_the_standard_library() {
    let mut n: u64 = 1;
    for _ in 0..64 {
        assert_eq!(decimal_of(n), n.to_string());
        assert_eq!(decimal_of(n - 1), (n - 1).to_string());
        assert_eq!(signed_decimal_of(-((n / 2) as i64)), (-((n / 2) as i64)).to_string());
        n = n.wrapping_mul(2);
    }
}

#[test]
fn parse_i32_reads_signed_decimal_integers() {
    assert_eq!(parse_i32("0"), Some(0));
    assert_eq!(parse_i32("2"), Some(2));
    assert_eq!(parse_i32("-17"), Some(-17));
    assert_eq!(parse_i32("+17"), Some(17));
    assert_eq!(parse_i32("007"), Some(7));
    assert_eq!(parse_i32("-0"), Some(0));
    assert_eq!(parse_i32("2147483647"), Some(i32::MAX));
    assert_eq!(parse_i32("-2147483648"), Some(i32::MIN));
    assert_eq!(parse_i32("00000000000000000000002147483647"), Some(i32::MAX));
}

#[test]
fn parse_i32_refuses_everything_else() {
    assert_eq!(parse_i32(""), None);
    assert_eq!(parse_i32("+"), None);
    assert_eq!(parse_i32("-"), None);
    assert_eq!(parse_i32("--1"), None);
    assert_eq!(parse_i32("+-1"), None);
    assert_eq!(parse_i32(" 1"), None);
    assert_eq!(parse_i32("1 "), None);
    assert_eq!(parse_i32("1_000"), None);
    assert_eq!(parse_i32("1.0"), None);
    assert_eq!(parse_i32("1e3"), None);
    assert_eq!(parse_i32("0x10"), None);
    assert_eq!(parse_i32("abc"), None);
    assert_eq!(parse_i32("١٢"), None);
    assert_eq!(parse_i32("2147483648"), None);
    assert_eq!(parse_i32("-2147483649"), None);
    assert_eq!(parse_i32("99999999999999999999999999"), None);
    assert_eq!(parse_i32("99999999999999999999999999x"), None);
}

#[test]
fn parse_i32_agrees_with_the_standard_library() {
    let texts = [
        "", "+", "-", "0", "-0", "+0", "12", "-12", "+12", "1-2", "12a", "a12", " 12", "12\n",
        "2147483647", "2147483648", "-2147483648", "-2147483649", "4294967296", "0000000001",
        "-0000000001", "18446744073709551616", "٣", "1,2", "++1",
    ];
    for text in texts {
        assert_eq!(parse_i32(text), text.parse::<i32>().ok(), "{text:?}");
    }
}
