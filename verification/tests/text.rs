use gitrs::text::{decimal_string, push_decimal};

#[test]
fn zero_is_one_digit() {
    assert_eq!(decimal_string(0), "0");
}

#[test]
fn single_digits() {
    assert_eq!(decimal_string(7), "7");
    assert_eq!(decimal_string(9), "9");
}

#[test]
fn ten_has_two_digits() {
    assert_eq!(decimal_string(10), "10");
}

#[test]
fn digits_come_most_significant_first() {
    assert_eq!(decimal_string(12345), "12345");
    assert_eq!(decimal_string(9070), "9070");
}

#[test]
fn largest_number_matches_std() {
    assert_eq!(decimal_string(usize::MAX), usize::MAX.to_string());
}

#[test]
fn every_small_number_matches_std() {
    for n in 0..2000usize {
        assert_eq!(decimal_string(n), n.to_string());
    }
}

#[test]
fn push_decimal_appends_to_what_is_there() {
    let mut out = String::from("n=");
    push_decimal(&mut out, 42);
    assert_eq!(out, "n=42");
    push_decimal(&mut out, 0);
    assert_eq!(out, "n=420");
}
