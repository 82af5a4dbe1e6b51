use fadvise::text::{decimal_string, digits_string};

#[test]
fn zero_is_one_digit() {
    assert_eq!(digits_string(0), "0");
    assert_eq!(decimal_string(0), "0");
}

#[test]
fn digits_have_no_leading_zero() {
    assert_eq!(digits_string(7), "7");
    assert_eq!(digits_string(10), "10");
    assert_eq!(digits_string(4096), "4096");
    assert_eq!(digits_string(10000), "10000");
    assert_eq!(digits_string(1234567890), "1234567890");
}

#[test]
fn largest_number_is_written_in_full() {
    assert_eq!(digits_string(u64::MAX), "18446744073709551615");
    assert_eq!(decimal_string(i64::MAX), "9223372036854775807");
}

#[test]
fn negative_numbers_carry_a_minus_sign() {
    assert_eq!(decimal_string(-1), "-1");
    assert_eq!(decimal_string(-4096), "-4096");
    assert_eq!(decimal_string(i64::MIN), "-9223372036854775808");
}

#[test]
fn decimal_agrees_with_the_standard_formatting() {
    let samples: [i64; 12] = [
        0, 1, 9, 10, 99, 100, 101, 65535, 65536, -65536, 999999999999, -999999999999,
    ];
    for v in samples {
        assert_eq!(decimal_string(v), v.to_string());
    }
}
