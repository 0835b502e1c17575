use keep_backend::text::to_decimal;

#[test]
fn decimal_of_small_numbers() {
    assert_eq!(to_decimal(0), "0");
    assert_eq!(to_decimal(7), "7");
    assert_eq!(to_decimal(10), "10");
    assert_eq!(to_decimal(1203), "1203");
    assert_eq!(to_decimal(-1), "-1");
    assert_eq!(to_decimal(-90), "-90");
}

#[test]
fn decimal_of_the_largest_and_the_smallest() {
    assert_eq!(to_decimal(i64::MAX), "9223372036854775807");
    assert_eq!(to_decimal(i64::MIN), "-9223372036854775808");
}

#[test]
fn decimal_is_what_the_number_prints_as() {
    for value in -1200i64..1200 {
        assert_eq!(to_decimal(value), value.to_string());
        assert_eq!(to_decimal(value * 7_919_000_003), (value * 7_919_000_003).to_string());
    }
}
