use open_imago::naming::get_safe_timestamp;
use open_imago::naming::u64_to_decimal;

#[test]
fn decimal_of_zero() {
    assert_eq!(u64_to_decimal(0), "0");
}

#[test]
fn decimal_of_single_digit() {
    assert_eq!(u64_to_decimal(7), "7");
}

#[test]
fn decimal_of_round_number() {
    assert_eq!(u64_to_decimal(1000), "1000");
}

#[test]
fn decimal_of_large_number() {
    assert_eq!(u64_to_decimal(1234567890), "1234567890");
}

#[test]
fn decimal_of_maximum() {
    assert_eq!(u64_to_decimal(u64::MAX), "18446744073709551615");
}

#[test]
fn timestamp_is_digits_only() {
    let ts = get_safe_timestamp();
    assert!(!ts.is_empty());
    assert!(ts.chars().all(|c| c.is_ascii_digit()));
    assert!(ts.parse::<u64>().is_ok());
}
