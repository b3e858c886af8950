use qr_broker::number::{format_i64, format_u64, is_integer, parse_i64};

#[test]
fn format_u64_prints_base_ten() {
    assert_eq!(format_u64(0), "0");
    assert_eq!(format_u64(7), "7");
    assert_eq!(format_u64(10), "10");
    assert_eq!(format_u64(987654321), "987654321");
    assert_eq!(format_u64(u64::MAX), "18446744073709551615");
}

#[test]
fn format_i64_prints_the_sign() {
    assert_eq!(format_i64(0), "0");
    assert_eq!(format_i64(-1), "-1");
    assert_eq!(format_i64(42), "42");
    assert_eq!(format_i64(i64::MAX), "9223372036854775807");
    assert_eq!(format_i64(i64::MIN), "-9223372036854775808");
}

#[test]
fn is_integer_accepts_whole_numbers_only() {
    assert!(is_integer("0"));
    assert!(is_integer("987654321"));
    assert!(is_integer("-5"));
    assert!(is_integer("007"));
    assert!(!is_integer(""));
    assert!(!is_integer("-"));
    assert!(!is_integer("1.0"));
    assert!(!is_integer("987654321.0"));
    assert!(!is_integer("1e5"));
    assert!(!is_integer("+1"));
    assert!(!is_integer("12a"));
    assert!(!is_integer("--1"));
    assert!(!is_integer("1-"));
}

#[test]
fn parse_i64_reads_what_fits() {
    assert_eq!(parse_i64("0"), Some(0));
    assert_eq!(parse_i64("-0"), Some(0));
    assert_eq!(parse_i64("123"), Some(123));
    assert_eq!(parse_i64("-123"), Some(-123));
    assert_eq!(parse_i64("0042"), Some(42));
    assert_eq!(parse_i64("9223372036854775807"), Some(i64::MAX));
    assert_eq!(parse_i64("-9223372036854775808"), Some(i64::MIN));
}

#[test]
fn parse_i64_refuses_what_does_not_fit() {
    assert_eq!(parse_i64("9223372036854775808"), None);
    assert_eq!(parse_i64("-9223372036854775809"), None);
    assert_eq!(parse_i64("18446744073709551616"), None);
    assert_eq!(parse_i64("99999999999999999999999999"), None);
    assert_eq!(parse_i64("1.5"), None);
    assert_eq!(parse_i64(""), None);
    assert_eq!(parse_i64("abc"), None);
}

#[test]
fn printing_then_reading_gives_the_number_back() {
    for n in [0i64, 1, -1, 9, 10, -10, 12345, -98765, i64::MAX, i64::MIN] {
        let text = format_i64(n);
        assert!(is_integer(&text));
        assert_eq!(parse_i64(&text), Some(n));
    }
}
