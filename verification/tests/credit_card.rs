use validator_rs::credit_card::{get_card_type, is_valid_credit_card, luhn_check, CardType};

#[test]
fn test_valid_credit_cards() {
    // Valid test card numbers
    assert!(is_valid_credit_card("4532015112830366")); // Visa
    assert!(is_valid_credit_card("5425233430109903")); // MasterCard
    assert!(is_valid_credit_card("374245455400126"));  // Amex
}

#[test]
fn test_invalid_credit_cards() {
    assert!(!is_valid_credit_card(""));
    assert!(!is_valid_credit_card("1234567890123456"));
    assert!(!is_valid_credit_card("abc"));
    assert!(!is_valid_credit_card("4532015112830367")); // Wrong check digit
}

#[test]
fn test_card_with_spaces() {
    assert!(is_valid_credit_card("4532 0151 1283 0366"));
    assert!(is_valid_credit_card("5425-2334-3010-9903"));
}

#[test]
fn test_card_types() {
    assert_eq!(get_card_type("4532015112830366"), CardType::Visa);
    assert_eq!(get_card_type("5425233430109903"), CardType::MasterCard);
    assert_eq!(get_card_type("374245455400126"), CardType::Amex);
    assert_eq!(get_card_type("6011111111111117"), CardType::Discover);
    assert_eq!(get_card_type("9999999999999999"), CardType::Unknown);
}

#[test]
fn test_luhn_algorithm() {
    assert!(luhn_check("79927398713"));
    assert!(!luhn_check("79927398714"));
}
