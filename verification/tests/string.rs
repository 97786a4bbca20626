use validator_rs::string::{contains, contains_case_insensitive, has_length_between, has_max_length, has_min_length, is_alpha, is_alphanumeric, is_lowercase, is_numeric, is_uppercase};

#[test]
fn test_alphanumeric() {
    assert!(is_alphanumeric("abc123"));
    assert!(is_alphanumeric("ABC"));
    assert!(!is_alphanumeric("abc-123"));
    assert!(!is_alphanumeric(""));
}

#[test]
fn test_alpha() {
    assert!(is_alpha("abcXYZ"));
    assert!(!is_alpha("abc123"));
    assert!(!is_alpha(""));
}

#[test]
fn test_numeric() {
    assert!(is_numeric("12345"));
    assert!(!is_numeric("123.45"));
    assert!(!is_numeric("abc"));
    assert!(!is_numeric(""));
}

#[test]
fn test_length_validations() {
    assert!(has_min_length("hello", 3));
    assert!(!has_min_length("hi", 3));
    
    assert!(has_max_length("hi", 5));
    assert!(!has_max_length("hello world", 5));
    
    assert!(has_length_between("hello", 3, 10));
    assert!(!has_length_between("hi", 3, 10));
}

#[test]
fn test_contains() {
    assert!(contains("hello world", "world"));
    assert!(!contains("hello world", "foo"));
    
    assert!(contains_case_insensitive("Hello World", "world"));
    assert!(contains_case_insensitive("HELLO", "hello"));
}

#[test]
fn test_case() {
    assert!(is_uppercase("HELLO"));
    assert!(is_uppercase("HELLO123"));
    assert!(!is_uppercase("Hello"));
    
    assert!(is_lowercase("hello"));
    assert!(is_lowercase("hello123"));
    assert!(!is_lowercase("Hello"));
}
