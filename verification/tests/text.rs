use simpfun_sdk::text::{decimal_i64, decimal_u64, parse_u64};

#[test]
fn decimal_text() {
    assert_eq!(decimal_u64(0), "0");
    assert_eq!(decimal_u64(1234567890), "1234567890");
    assert_eq!(decimal_u64(u64::MAX), u64::MAX.to_string());
    assert_eq!(decimal_i64(-42), "-42");
    assert_eq!(decimal_i64(i64::MIN), i64::MIN.to_string());
    assert_eq!(decimal_i64(i64::MAX), i64::MAX.to_string());
}

#[test]
fn parsing_like_std() {
    for t in ["", "+", "-1", " 1", "1 ", "1a", "007", "+42", "18446744073709551615", "18446744073709551616", "٣"] {
        assert_eq!(parse_u64(t), t.parse::<u64>().ok(), "{:?}", t);
    }
}

#[test]
fn decimal_round_trips() {
    for n in [0u64, 9, 10, 99, 100, 65535, u64::MAX] {
        assert_eq!(parse_u64(&decimal_u64(n)), Some(n));
    }
}
