use telegram_mcp::text::{i64_to_string, parse_i64, trim_str, u64_to_string};

#[test]
fn renders_unsigned_decimals() {
    assert_eq!(u64_to_string(0), "0");
    assert_eq!(u64_to_string(7), "7");
    assert_eq!(u64_to_string(10), "10");
    assert_eq!(u64_to_string(123456789), "123456789");
    assert_eq!(u64_to_string(u64::MAX), "18446744073709551615");
}

#[test]
fn renders_signed_decimals() {
    assert_eq!(i64_to_string(0), "0");
    assert_eq!(i64_to_string(-1), "-1");
    assert_eq!(i64_to_string(42), "42");
    assert_eq!(i64_to_string(i64::MIN), "-9223372036854775808");
    assert_eq!(i64_to_string(i64::MAX), "9223372036854775807");
}

#[test]
fn parses_decimals_with_optional_sign() {
    assert_eq!(parse_i64("0"), Some(0));
    assert_eq!(parse_i64("42"), Some(42));
    assert_eq!(parse_i64("+42"), Some(42));
    assert_eq!(parse_i64("-42"), Some(-42));
    assert_eq!(parse_i64("9223372036854775807"), Some(i64::MAX));
    assert_eq!(parse_i64("-9223372036854775808"), Some(i64::MIN));
}

#[test]
fn rejects_malformed_decimals() {
    assert_eq!(parse_i64(""), None);
    assert_eq!(parse_i64("+"), None);
    assert_eq!(parse_i64("-"), None);
    assert_eq!(parse_i64("12 3"), None);
    assert_eq!(parse_i64("12.3"), None);
    assert_eq!(parse_i64("9223372036854775808"), None);
    assert_eq!(parse_i64("-9223372036854775809"), None);
    assert_eq!(parse_i64("99999999999999999999999999"), None);
}

#[test]
fn round_trips_rendered_values() {
    for v in [0i64, 1, -1, 999, -999, i64::MAX, i64::MIN] {
        assert_eq!(parse_i64(&i64_to_string(v)), Some(v));
    }
}

#[test]
fn trims_surrounding_whitespace() {
    assert_eq!(trim_str("  Tech News  "), "Tech News");
    assert_eq!(trim_str("\t\n x \r\n"), "x");
    assert_eq!(trim_str("nospace"), "nospace");
    assert_eq!(trim_str("   "), "");
    assert_eq!(trim_str(""), "");
    assert_eq!(trim_str("a  b"), "a  b");
}
