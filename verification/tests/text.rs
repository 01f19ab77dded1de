use carts::text::{
    decimal_i64, decimal_u64, expect_panic_text, index_panic_text, parse_u32, unwrap_err_panic_text,
    unwrap_none_panic_text, IdError,
};
use std::num::IntErrorKind;

fn std_kind(s: &str) -> Result<u32, IdError> {
    s.parse::<u32>().map_err(|e| match e.kind() {
        IntErrorKind::Empty => IdError::Empty,
        IntErrorKind::InvalidDigit => IdError::InvalidDigit,
        IntErrorKind::PosOverflow => IdError::TooLarge,
        other => panic!("unexpected kind {:?}", other),
    })
}

#[test]
fn parse_plain_numbers() {
    assert_eq!(parse_u32("42"), Ok(42));
    assert_eq!(parse_u32("0"), Ok(0));
    assert_eq!(parse_u32("007"), Ok(7));
    assert_eq!(parse_u32("+7"), Ok(7));
    assert_eq!(parse_u32("4294967295"), Ok(u32::MAX));
}

#[test]
fn parse_errors() {
    assert_eq!(parse_u32(""), Err(IdError::Empty));
    assert_eq!(parse_u32("+"), Err(IdError::InvalidDigit));
    assert_eq!(parse_u32("-1"), Err(IdError::InvalidDigit));
    assert_eq!(parse_u32("12a"), Err(IdError::InvalidDigit));
    assert_eq!(parse_u32(" 1"), Err(IdError::InvalidDigit));
    assert_eq!(parse_u32("4294967296"), Err(IdError::TooLarge));
    assert_eq!(parse_u32("99999999999x"), Err(IdError::TooLarge));
    assert_eq!(parse_u32("9999x99999999"), Err(IdError::InvalidDigit));
}

#[test]
fn parse_agrees_with_std() {
    let cases = [
        "", "+", "-", "-0", "0", "1", "+12", "++1", "12+", "4294967295", "4294967296", "00000000004294967295",
        "42949672950", "abc", "1 2", "١٢", "12é", "4294967296é", "é4294967296", "18446744073709551616",
    ];
    for c in cases.iter() {
        assert_eq!(parse_u32(c), std_kind(c), "case {:?}", c);
    }
}

#[test]
fn error_messages_match_std() {
    for c in ["", "x", "99999999999"].iter() {
        let ours = parse_u32(c).unwrap_err().message();
        let theirs = c.parse::<u32>().unwrap_err().to_string();
        assert_eq!(ours, theirs);
    }
}

#[test]
fn decimal_forms() {
    assert_eq!(decimal_u64(0), "0");
    assert_eq!(decimal_u64(9), "9");
    assert_eq!(decimal_u64(10), "10");
    assert_eq!(decimal_u64(1234567890), "1234567890");
    assert_eq!(decimal_u64(u64::MAX), u64::MAX.to_string());
    assert_eq!(decimal_i64(-5), "-5");
    assert_eq!(decimal_i64(0), "0");
    assert_eq!(decimal_i64(i64::MIN), i64::MIN.to_string());
    assert_eq!(decimal_i64(i64::MAX), i64::MAX.to_string());
}

#[test]
fn decimal_then_parse_roundtrip() {
    for n in [0u32, 1, 9, 10, 99, 100, 65535, 4294967295, 123456789].iter() {
        assert_eq!(parse_u32(&decimal_u64(*n as u64)), Ok(*n));
    }
}

#[test]
fn panic_messages() {
    assert_eq!(index_panic_text(12, 120), "index out of bounds: the len is 12 but the index is 120");
    assert_eq!(unwrap_err_panic_text("boom"), "called `Result::unwrap()` on an `Err` value: boom");
    assert_eq!(expect_panic_text("Handling order failed", "boom"), "Handling order failed: boom");
    assert_eq!(unwrap_none_panic_text(), "called `Option::unwrap()` on a `None` value");
}
