use counter_server::decimal::to_decimal;

#[test]
fn formats_zero() {
    assert_eq!(to_decimal(0), "0");
}

#[test]
fn formats_small_values() {
    assert_eq!(to_decimal(1), "1");
    assert_eq!(to_decimal(-1), "-1");
    assert_eq!(to_decimal(42), "42");
    assert_eq!(to_decimal(-42), "-42");
}

#[test]
fn formats_round_numbers_without_dropping_zeros() {
    assert_eq!(to_decimal(10), "10");
    assert_eq!(to_decimal(100), "100");
    assert_eq!(to_decimal(-1000), "-1000");
}

#[test]
fn formats_extreme_values() {
    assert_eq!(to_decimal(i32::MAX), "2147483647");
    assert_eq!(to_decimal(i32::MIN), "-2147483648");
}
