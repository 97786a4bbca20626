use validator_rs::date::{is_leap_year, is_valid_date, is_valid_datetime, is_valid_time};

#[test]
fn test_valid_dates() {
    assert!(is_valid_date("2023-12-31"));
    assert!(is_valid_date("2024-02-29")); // Leap year
    assert!(is_valid_date("2000-01-01"));
}

#[test]
fn test_invalid_dates() {
    assert!(!is_valid_date(""));
    assert!(!is_valid_date("2023-13-01")); // Invalid month
    assert!(!is_valid_date("2023-02-30")); // Invalid day
    assert!(!is_valid_date("2023-02-29")); // Not a leap year
    assert!(!is_valid_date("31-12-2023")); // Wrong format
    assert!(!is_valid_date("2023/12/31")); // Wrong separator
}

#[test]
fn test_leap_year() {
    assert!(is_leap_year(2024));
    assert!(is_leap_year(2000));
    assert!(!is_leap_year(2023));
    assert!(!is_leap_year(1900));
}

#[test]
fn test_valid_datetime() {
    assert!(is_valid_datetime("2023-12-31T23:59:59Z"));
    assert!(is_valid_datetime("2023-12-31T23:59:59.123Z"));
    assert!(is_valid_datetime("2023-12-31T23:59:59+05:30"));
}

#[test]
fn test_invalid_datetime() {
    assert!(!is_valid_datetime("2023-12-31"));
    assert!(!is_valid_datetime("2023-12-31 23:59:59"));
}

#[test]
fn test_valid_time() {
    assert!(is_valid_time("12:30:45"));
    assert!(is_valid_time("00:00:00"));
    assert!(is_valid_time("23:59:59"));
}

#[test]
fn test_invalid_time() {
    assert!(!is_valid_time("24:00:00"));
    assert!(!is_valid_time("12:60:00"));
    assert!(!is_valid_time("12:30:60"));
    assert!(!is_valid_time("12:30"));
}
