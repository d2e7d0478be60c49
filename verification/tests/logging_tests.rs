use telegram_mcp::logging::{redact_hash, redact_phone};

#[test]
fn redact_phone_normal_length() {
    let phone = "+1234567890";
    let redacted = redact_phone(phone);
    assert_eq!(redacted, "+123***890");
}

#[test]
fn redact_phone_longer_number() {
    let phone = "+12345678901234";
    let redacted = redact_phone(phone);
    assert_eq!(redacted, "+123***234");
}

#[test]
fn redact_phone_exactly_minimum_length() {
    let phone = "+123456";
    let redacted = redact_phone(phone);
    assert_eq!(redacted, "+123***456");
}

#[test]
fn redact_phone_too_short() {
    let phone = "+12345";
    let redacted = redact_phone(phone);
    assert_eq!(redacted, "[REDACTED]");
}

#[test]
fn redact_phone_empty_string() {
    let phone = "";
    let redacted = redact_phone(phone);
    assert_eq!(redacted, "[REDACTED]");
}

#[test]
fn redact_hash_normal_length() {
    let hash = "abc123def456";
    let redacted = redact_hash(hash);
    assert_eq!(redacted, "abc1***6");
}

#[test]
fn redact_hash_long_string() {
    let hash = "abcdefghijklmnopqrstuvwxyz";
    let redacted = redact_hash(hash);
    assert_eq!(redacted, "abcd***z");
}

#[test]
fn redact_hash_exactly_minimum_length() {
    let hash = "abcdefg";
    let redacted = redact_hash(hash);
    assert_eq!(redacted, "abcd***g");
}

#[test]
fn redact_hash_too_short() {
    let hash = "abc123";
    let redacted = redact_hash(hash);
    assert_eq!(redacted, "[REDACTED]");
}

#[test]
fn redact_hash_empty_string() {
    let hash = "";
    let redacted = redact_hash(hash);
    assert_eq!(redacted, "[REDACTED]");
}
