use daemonize::numfmt::{format_i64, format_u64, parse_decimal};

#[test]
fn format_zero() {
    assert_eq!(format_u64(0).as_str(), "0");
}

#[test]
fn format_single_digits() {
    for d in 0..10u64 {
        let s = format_u64(d);
        assert_eq!(s.len(), 1);
        assert_eq!(s, d.to_string());
    }
}

#[test]
fn format_multi_digit() {
    assert_eq!(format_u64(1234567890).as_str(), "1234567890");
    assert_eq!(format_u64(u64::MAX).as_str(), "18446744073709551615");
}

#[test]
fn format_signed() {
    assert_eq!(format_i64(-123).as_str(), "-123");
    assert_eq!(format_i64(0).as_str(), "0");
    assert_eq!(format_i64(42).as_str(), "42");
    assert_eq!(format_i64(i64::MIN).as_str(), "-9223372036854775808");
}

#[test]
fn parse_simple() {
    assert_eq!(parse_decimal("0"), Some(0));
    assert_eq!(parse_decimal("007"), Some(7));
    assert_eq!(parse_decimal("1234567890"), Some(1234567890));
}

#[test]
fn parse_rejects_empty_and_nondigits() {
    assert_eq!(parse_decimal(""), None);
    assert_eq!(parse_decimal("12a"), None);
    assert_eq!(parse_decimal("-1"), None);
    assert_eq!(parse_decimal(" 1"), None);
}

#[test]
fn parse_bounds() {
    assert_eq!(parse_decimal("18446744073709551615"), Some(u64::MAX));
    assert_eq!(parse_decimal("18446744073709551616"), None);
}

#[test]
fn render_parse_round_trip() {
    for n in [0u64, 1, 9, 10, 99, 100, 4096, 65534, 4294967295, u64::MAX] {
        assert_eq!(parse_decimal(format_u64(n).as_str()), Some(n));
    }
}
