use validator_rs::numeric::{is_even, is_in_range, is_multiple_of, is_negative, is_odd, is_positive, is_zero};

#[test]
fn test_range() {
    assert!(is_in_range(5, 1, 10));
    assert!(is_in_range(1, 1, 10));
    assert!(is_in_range(10, 1, 10));
    assert!(!is_in_range(0, 1, 10));
    assert!(!is_in_range(11, 1, 10));
}

#[test]
fn test_positive_negative() {
    assert!(is_positive(5));
    assert!(is_positive(0.1));
    assert!(!is_positive(0));
    assert!(!is_positive(-5));

    assert!(is_negative(-5));
    assert!(is_negative(-0.1));
    assert!(!is_negative(0));
    assert!(!is_negative(5));
}

#[test]
fn test_zero() {
    assert!(is_zero(0));
    assert!(is_zero(0.0));
    assert!(!is_zero(1));
    assert!(!is_zero(-1));
}

#[test]
fn test_even_odd() {
    assert!(is_even(2));
    assert!(is_even(0));
    assert!(is_even(-4));
    assert!(!is_even(3));

    assert!(is_odd(3));
    assert!(is_odd(-5));
    assert!(!is_odd(2));
    assert!(!is_odd(0));
}

#[test]
fn test_multiple_of() {
    assert!(is_multiple_of(10, 5));
    assert!(is_multiple_of(15, 3));
    assert!(is_multiple_of(0, 5));
    assert!(!is_multiple_of(10, 3));
    assert!(!is_multiple_of(10, 0));
}
