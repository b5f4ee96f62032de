use poke_collection::decimal::{format_i32, parse_i64};

#[test]
fn format_zero_and_small_numbers() {
    assert_eq!(format_i32(0), "0");
    assert_eq!(format_i32(7), "7");
    assert_eq!(format_i32(42), "42");
    assert_eq!(format_i32(1000), "1000");
}

#[test]
fn format_negative_numbers() {
    assert_eq!(format_i32(-1), "-1");
    assert_eq!(format_i32(-305), "-305");
}

#[test]
fn format_extremes_match_display() {
    assert_eq!(format_i32(i32::MAX), i32::MAX.to_string());
    assert_eq!(format_i32(i32::MIN), "-2147483648");
}

#[test]
fn parse_plain_and_signed_numbers() {
    assert_eq!(parse_i64("900"), Some(900));
    assert_eq!(parse_i64("604800"), Some(604800));
    assert_eq!(parse_i64("+5"), Some(5));
    assert_eq!(parse_i64("-12"), Some(-12));
    assert_eq!(parse_i64("-0"), Some(0));
    assert_eq!(parse_i64("007"), Some(7));
}

#[test]
fn parse_range_limits() {
    assert_eq!(parse_i64("9223372036854775807"), Some(i64::MAX));
    assert_eq!(parse_i64("-9223372036854775808"), Some(i64::MIN));
    assert_eq!(parse_i64("9223372036854775808"), None);
    assert_eq!(parse_i64("-9223372036854775809"), None);
    assert_eq!(parse_i64("123456789012345678901234567890"), None);
}

#[test]
fn parse_refuses_malformed_text() {
    assert_eq!(parse_i64(""), None);
    assert_eq!(parse_i64("-"), None);
    assert_eq!(parse_i64("+"), None);
    assert_eq!(parse_i64(" 1"), None);
    assert_eq!(parse_i64("1 "), None);
    assert_eq!(parse_i64("12a"), None);
    assert_eq!(parse_i64("--1"), None);
    assert_eq!(parse_i64("1_000"), None);
    assert_eq!(parse_i64("٣"), None);
}

#[test]
fn parse_agrees_with_std_on_samples() {
    for text in ["0", "+0", "-1", "42", "x", "", "99999999999999999999", "-9223372036854775808", "1.5"] {
        assert_eq!(parse_i64(text), text.parse::<i64>().ok(), "text {:?}", text);
    }
}

#[test]
fn parse_reads_back_formatted_numbers() {
    for v in [0, 1, -1, 9, 10, -10, 12345, i32::MAX, i32::MIN] {
        assert_eq!(parse_i64(&format_i32(v)), Some(v as i64));
    }
}
