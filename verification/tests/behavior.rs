use validator_rs::currency::{is_currency, validate_currency_manual, CurrencyOptions};
use validator_rs::email::is_valid_email;
use validator_rs::mobile::{get_supported_locales, Locale};
use validator_rs::string::contains_case_insensitive;
use validator_rs::url::is_valid_url;

#[test]
fn test_repeated_calls_agree() {
    let inputs = ["$10,123.45", "$ 32.50", "1.234", "", "- $", "(1,234)"];
    for input in inputs {
        let first = is_currency(input, None);
        let second = is_currency(input, None);
        assert_eq!(first, second, "two runs disagreed on '{}'", input);
        let options = CurrencyOptions::new().require_symbol(true);
        let a = is_currency(input, Some(options.clone()));
        let b = is_currency(input, Some(options.clone()));
        assert_eq!(a, b, "two runs disagreed on '{}'", input);
    }
}

#[test]
fn test_default_scenarios() {
    assert!(is_currency("$10,123.45", None));
    assert!(!is_currency("$ 32.50", None));
    assert!(!is_currency("1.234", None));
}

#[test]
fn test_one_or_three_fraction_digits() {
    let options = CurrencyOptions::new().digits_after_decimal(vec![1, 3]);
    assert!(is_currency("$10.5", Some(options.clone())));
    assert!(!is_currency("$10.12", Some(options.clone())));
    assert!(is_currency("$10.123", Some(options)));
}

#[test]
fn test_parens_exclude_sign_glyph() {
    let options = CurrencyOptions::new().parens_for_negatives(true);
    assert!(is_currency("(1,234.56)", Some(options.clone())));
    assert!(!is_currency("-1,234.56", Some(options)));
}

#[test]
fn test_european_style() {
    let options = CurrencyOptions::new()
        .symbol("€")
        .thousands_separator('.')
        .decimal_separator(',')
        .allow_space_after_symbol(true);
    assert!(is_currency("€1.234,56", Some(options.clone())));
    assert!(is_currency("€ 1.234,56", Some(options.clone())));
    assert!(!is_currency("€€500", Some(options)));
}

#[test]
fn test_symbol_required_rejects_bare_amounts() {
    let options = CurrencyOptions::new().require_symbol(true);
    assert!(is_currency("$10,123.45", Some(options.clone())));
    assert!(!is_currency("10,123.45", Some(options.clone())));
    assert!(!is_currency("0.10", Some(options)));
}

#[test]
fn test_empty_fraction_digit_counts_reject_everything() {
    let options = CurrencyOptions::new().digits_after_decimal(vec![]);
    let inputs = ["$10,123.45", "10123", "0", "", "$0.00", "abc"];
    for input in inputs {
        assert!(!is_currency(input, Some(options.clone())), "accepted '{}'", input);
    }
}

#[test]
fn test_case_insensitive_goes_through_lowering() {
    assert!(contains_case_insensitive("ABC", "abc"));
    assert!(contains_case_insensitive("weiss", "WEISS"));
    assert!(!contains_case_insensitive("ABC", "abd"));
}

#[test]
fn test_supported_locales_sorted_with_aliases() {
    let locales = get_supported_locales();
    assert_eq!(locales.len(), 168);
    assert!(locales.windows(2).all(|w| w[0] < w[1]));
    assert!(locales.contains(&"en-CA"));
    assert!(locales.contains(&"fr-CA"));
    assert!(locales.contains(&"zh-HK"));
}

#[test]
fn test_email_label_length_limit() {
    let label_63 = "a".repeat(63);
    let label_64 = "a".repeat(64);
    assert!(is_valid_email(&format!("user@{}.com", label_63)));
    assert!(!is_valid_email(&format!("user@{}.com", label_64)));
}

#[test]
fn test_url_needs_two_characters_after_scheme() {
    assert!(is_valid_url("http://ab"));
    assert!(!is_valid_url("http://a"));
    assert!(!is_valid_url("https://"));
}

#[test]
fn test_sign_then_space_rejected_anywhere() {
    assert!(!is_currency("1- 1", None));
    let options = CurrencyOptions::new()
        .negative_sign_after_digits(true)
        .allow_space_after_digits(true);
    assert!(!is_currency("123- ", Some(options.clone())));
    assert!(is_currency("123-", Some(options)));
}

#[test]
fn test_strips_one_trailing_symbol() {
    let options = CurrencyOptions::new();
    // one trailing symbol occurrence is stripped; the bare space behind it
    // is then exposed and rejected
    assert!(!validate_currency_manual("1 $", &options));
    // a second occurrence still covers the space at the guard level; the
    // grammar rejects the text all the same
    assert!(validate_currency_manual("1 $$", &options));
    assert!(!is_currency("1 $$", None));
}

#[test]
fn test_locale_constructors() {
    assert!(matches!(Locale::of_code(""), Locale::Any));
    assert!(matches!(Locale::of_code("any"), Locale::Any));
    assert!(matches!(Locale::of_code("en-US"), Locale::Specific(s) if s == "en-US"));
    assert!(matches!(Locale::of_codes(vec![]), Locale::Any));
    let listed = vec!["en-US".to_string(), "en-GB".to_string()];
    assert!(matches!(Locale::of_codes(listed), Locale::Multiple(v) if v.len() == 2));
}
