use validator_rs::currency::{is_currency, CurrencyOptions};

// Test 1: Default format -$##,###.## (en-US, en-CA, en-AU, en-NZ, en-HK)
#[test]
fn test_default_currency() {
    let valid = vec![
        "-$10,123.45",
        "$10,123.45",
        "$10123.45",
        "10,123.45",
        "10123.45",
        "10,123",
        "1,123,456",
        "1123456",
        "1.39",
        ".03",
        "0.10",
        "$0.10",
        "-$0.01",
        "-$.99",
        "$100,234,567.89",
        "$10,123",
        "10,123",
        "-10123",
    ];

    let invalid = vec![
        "1.234",
        "$1.1",
        "$ 32.50",
        "500$",
        ".0001",
        "$.001",
        "$0.001",
        "12,34.56",
        "123456,123,123456",
        "123,4",
        ",123",
        "$-,123",
        "$",
        ".",
        ",",
        "00",
        "$-",
        "$-,.",
        "-",
        "-$",
        "",
        "- $",
    ];

    for val in valid {
        assert!(is_currency(val, None), "Expected '{}' to be valid", val);
    }

    for val in invalid {
        assert!(!is_currency(val, None), "Expected '{}' to be invalid", val);
    }
}

// Test 2: No decimal allowed
#[test]
fn test_no_decimal() {
    let options = CurrencyOptions::new().allow_decimal(false);

    let valid = vec![
        "-$10,123",
        "$10,123",
        "$10123",
        "10,123",
        "10123",
        "1,123,456",
        "1123456",
        "1",
        "0",
        "$0",
        "-$0",
        "$100,234,567",
        "$10,123",
        "10,123",
        "-10123",
    ];

    let invalid = vec![
        "-$10,123.45",
        "$10,123.45",
        "$10123.45",
        "10,123.45",
        "10123.45",
        "1.39",
        ".03",
        "0.10",
        "$0.10",
        "-$0.01",
        "-$.99",
        "$100,234,567.89",
        "1.234",
        "$1.1",
        "$ 32.50",
        ".0001",
        "$.001",
        "$0.001",
        "12,34.56",
        "123,4",
        ",123",
        "$-,123",
        "$",
        ".",
        ",",
        "00",
        "$-",
        "$-,.",
        "-",
        "-$",
        "",
        "- $",
    ];

    for val in valid {
        assert!(
            is_currency(val, Some(options.clone())),
            "Expected '{}' to be valid",
            val
        );
    }

    for val in invalid {
        assert!(
            !is_currency(val, Some(options.clone())),
            "Expected '{}' to be invalid",
            val
        );
    }
}

// Test 3: Require decimal
#[test]
fn test_require_decimal() {
    let options = CurrencyOptions::new().require_decimal(true);

    let valid = vec![
        "-$10,123.45",
        "$10,123.45",
        "$10123.45",
        "10,123.45",
        "10123.45",
        "10,123.00",
        "1.39",
        ".03",
        "0.10",
        "$0.10",
        "-$0.01",
        "-$.99",
        "$100,234,567.89",
    ];

    let invalid = vec![
        "$10,123",
        "10,123",
        "-10123",
        "1,123,456",
        "1123456",
        "1.234",
        "$1.1",
        "$ 32.50",
        "500$",
        ".0001",
        "$.001",
        "$0.001",
        "12,34.56",
        "123456,123,123456",
        "123,4",
        ",123",
        "$-,123",
        "$",
        ".",
        ",",
        "00",
        "$-",
        "$-,.",
        "-",
        "-$",
        "",
        "- $",
    ];

    for val in valid {
        assert!(
            is_currency(val, Some(options.clone())),
            "Expected '{}' to be valid",
            val
        );
    }

    for val in invalid {
        assert!(
            !is_currency(val, Some(options.clone())),
            "Expected '{}' to be invalid",
            val
        );
    }
}

// Test 4: Custom digits after decimal
#[test]
fn test_digits_after_decimal() {
    let options = CurrencyOptions::new().digits_after_decimal(vec![1, 3]);

    let valid = vec![
        "-$10,123.4",
        "$10,123.454",
        "$10123.452",
        "10,123.453",
        "10123.450",
        "10,123",
        "1,123,456",
        "1123456",
        "1.3",
        ".030",
        "0.100",
        "$0.1",
        "-$0.0",
        "-$.9",
        "$100,234,567.893",
        "$10,123",
        "10,123.123",
        "-10123.1",
    ];

    let invalid = vec![
        "1.23",
        "$1.13322",
        "$ 32.50",
        "500$",
        ".0001",
        "$.01",
        "$0.01",
        "12,34.56",
        "123456,123,123456",
        "123,4",
        ",123",
        "$-,123",
        "$",
        ".",
        ",",
        "00",
        "$-",
        "$-,.",
        "-",
        "-$",
        "",
        "- $",
    ];

    for val in valid {
        assert!(
            is_currency(val, Some(options.clone())),
            "Expected '{}' to be valid",
            val
        );
    }

    for val in invalid {
        assert!(
            !is_currency(val, Some(options.clone())),
            "Expected '{}' to be invalid",
            val
        );
    }
}

// Test 5: Require symbol
#[test]
fn test_require_symbol() {
    let options = CurrencyOptions::new().require_symbol(true);

    let valid = vec![
        "-$10,123.45",
        "$10,123.45",
        "$10123.45",
        "$10,123.45",
        "$10,123",
        "$1,123,456",
        "$1123456",
        "$1.39",
        "$.03",
        "$0.10",
        "$0.10",
        "-$0.01",
        "-$.99",
        "$100,234,567.89",
        "$10,123",
        "-$10123",
    ];

    let invalid = vec![
        "1.234",
        "$1.234",
        "1.1",
        "$1.1",
        "$ 32.50",
        " 32.50",
        "500",
        "10,123,456",
        ".0001",
        "$.001",
        "$0.001",
        "1,234.56",
        "123456,123,123456",
        "$123456,123,123456",
        "123.4",
        "$123.4",
        ",123",
        "$,123",
        "$-,123",
        "$",
        ".",
        "$.",
        ",",
        "$,",
        "00",
        "$00",
        "$-",
        "$-,.",
        "-",
        "-$",
        "",
        "$ ",
        "- $",
    ];

    for val in valid {
        assert!(
            is_currency(val, Some(options.clone())),
            "Expected '{}' to be valid",
            val
        );
    }

    for val in invalid {
        assert!(
            !is_currency(val, Some(options.clone())),
            "Expected '{}' to be invalid",
            val
        );
    }
}

// Test 6: Chinese Yuan format with negative_sign_before_digits
#[test]
fn test_yuan_format() {
    let mut options = CurrencyOptions::new();
    options.symbol = "¥".to_string();
    options.negative_sign_before_digits = true;

    let valid = vec![
        "123,456.78",
        "-123,456.78",
        "¥6,954,231",
        "¥-6,954,231",
        "¥10.03",
        "¥-10.03",
        "10.03",
        "1.39",
        ".03",
        "0.10",
        "¥-10567.01",
        "¥0.01",
        "¥1,234,567.89",
        "¥10,123",
        "¥-10,123",
        "¥-10,123.45",
        "10,123",
        "10123",
        "¥-100",
    ];

    let invalid = vec![
        "1.234",
        "¥1.1",
        "5,00",
        ".0001",
        "¥.001",
        "¥0.001",
        "12,34.56",
        "123456,123,123456",
        "123 456",
        ",123",
        "¥-,123",
        "",
        " ",
        "¥",
        "¥-",
        "¥-,.",
        "-",
        "- ¥",
        "-¥",
    ];

    for val in valid {
        assert!(
            is_currency(val, Some(options.clone())),
            "Expected '{}' to be valid",
            val
        );
    }

    for val in invalid {
        assert!(
            !is_currency(val, Some(options.clone())),
            "Expected '{}' to be invalid",
            val
        );
    }
}

// Test 7: Negative sign after digits
#[test]
fn test_negative_sign_after_digits() {
    let mut options = CurrencyOptions::new();
    options.negative_sign_after_digits = true;

    let valid = vec![
        "$10,123.45-",
        "$10,123.45",
        "$10123.45",
        "10,123.45",
        "10123.45",
        "10,123",
        "1,123,456",
        "1123456",
        "1.39",
        ".03",
        "0.10",
        "$0.10",
        "$0.01-",
        "$.99-",
        "$100,234,567.89",
        "$10,123",
        "10,123",
        "10123-",
    ];

    let invalid = vec![
        "-123",
        "1.234",
        "$1.1",
        "$ 32.50",
        "500$",
        ".0001",
        "$.001",
        "$0.001",
        "12,34.56",
        "123456,123,123456",
        "123,4",
        ",123",
        "$-,123",
        "$",
        ".",
        ",",
        "00",
        "$-",
        "$-,.",
        "-",
        "-$",
        "",
        "- $",
    ];

    for val in valid {
        assert!(
            is_currency(val, Some(options.clone())),
            "Expected '{}' to be valid",
            val
        );
    }

    for val in invalid {
        assert!(
            !is_currency(val, Some(options.clone())),
            "Expected '{}' to be invalid",
            val
        );
    }
}

// Test 8: No negatives allowed (Chinese Yuan)
#[test]
fn test_no_negatives_yuan() {
    let mut options = CurrencyOptions::new();
    options.symbol = "¥".to_string();
    options.allow_negatives = false;

    let valid = vec![
        "123,456.78",
        "¥6,954,231",
        "¥10.03",
        "10.03",
        "1.39",
        ".03",
        "0.10",
        "¥0.01",
        "¥1,234,567.89",
        "¥10,123",
        "10,123",
        "10123",
        "¥100",
    ];

    let invalid = vec![
        "1.234",
        "-123,456.78",
        "¥-6,954,231",
        "¥-10.03",
        "¥-10567.01",
        "¥1.1",
        "¥-10,123",
        "¥-10,123.45",
        "5,00",
        "¥-100",
        ".0001",
        "¥.001",
        "¥-.001",
        "¥0.001",
        "12,34.56",
        "123456,123,123456",
        "123 456",
        ",123",
        "¥-,123",
        "",
        " ",
        "¥",
        "¥-",
        "¥-,.",
        "-",
        "- ¥",
        "-¥",
    ];

    for val in valid {
        assert!(
            is_currency(val, Some(options.clone())),
            "Expected '{}' to be valid",
            val
        );
    }

    for val in invalid {
        assert!(
            !is_currency(val, Some(options.clone())),
            "Expected '{}' to be invalid",
            val
        );
    }
}

// Test 9: South African Rand format with negative_sign_placeholder
#[test]
fn test_south_african_rand() {
    let mut options = CurrencyOptions::new();
    options.symbol = "R".to_string();
    options.negative_sign_before_digits = true;
    options.thousands_separator = ' ';
    options.decimal_separator = ',';
    options.allow_negative_sign_placeholder = true;

    let valid = vec![
        "123 456,78",
        "-10 123",
        "R-10 123",
        "R 6 954 231",
        "R10,03",
        "10,03",
        "1,39",
        ",03",
        "0,10",
        "R10567,01",
        "R0,01",
        "R1 234 567,89",
        "R10 123",
        "R 10 123",
        "R 10123",
        "R-10123",
        "10 123",
        "10123",
    ];

    let invalid = vec![
        "1,234",
        "R -10123",
        "R- 10123",
        "R,1",
        ",0001",
        "R,001",
        "R0,001",
        "12 34,56",
        "123456 123 123456",
        " 123",
        "- 123",
        "123 ",
        "",
        " ",
        "R",
        "R- .1",
        "R-",
        "-",
        "-R 10123",
        "R00",
        "R -",
        "-R",
    ];

    for val in valid {
        assert!(
            is_currency(val, Some(options.clone())),
            "Expected '{}' to be valid",
            val
        );
    }

    for val in invalid {
        assert!(
            !is_currency(val, Some(options.clone())),
            "Expected '{}' to be invalid",
            val
        );
    }
}

// Test 10: Italian Euro format with space after symbol
#[test]
fn test_euro_italian() {
    let mut options = CurrencyOptions::new();
    options.symbol = "€".to_string();
    options.thousands_separator = '.';
    options.decimal_separator = ',';
    options.allow_space_after_symbol = true;

    let valid = vec![
        "123.456,78",
        "-123.456,78",
        "€6.954.231",
        "-€6.954.231",
        "€ 896.954.231",
        "-€ 896.954.231",
        "16.954.231",
        "-16.954.231",
        "€10,03",
        "-€10,03",
        "10,03",
        "-10,03",
        "-1,39",
        ",03",
        "0,10",
        "-€10567,01",
        "-€ 10567,01",
        "€ 0,01",
        "€1.234.567,89",
        "€10.123",
        "10.123",
        "-€10.123",
        "€ 10.123",
        "€10.123",
        "€ 10123",
        "10.123",
        "-10123",
    ];

    let invalid = vec![
        "1,234",
        "€ 1,1",
        "50#,50",
        "123,@€ ",
        "€€500",
        ",0001",
        "€ ,001",
        "€0,001",
        "12.34,56",
        "123456.123.123456",
        "€123€",
        "",
        " ",
        "€",
        " €",
        "€ ",
        "€€",
        " 123",
        "- 123",
        ".123",
        "-€.123",
        "123 ",
        "€-",
        "- €",
        "€ - ",
        "-",
        "- ",
        "-€",
    ];

    for val in valid {
        assert!(
            is_currency(val, Some(options.clone())),
            "Expected '{}' to be valid",
            val
        );
    }

    for val in invalid {
        assert!(
            !is_currency(val, Some(options.clone())),
            "Expected '{}' to be invalid",
            val
        );
    }
}

// Test 11: Greek Euro format with symbol after digits
#[test]
fn test_euro_greek() {
    let mut options = CurrencyOptions::new();
    options.symbol = "€".to_string();
    options.thousands_separator = '.';
    options.symbol_after_digits = true;
    options.decimal_separator = ',';
    options.allow_space_after_digits = true;

    let valid = vec![
        "123.456,78",
        "-123.456,78",
        "6.954.231 €",
        "-6.954.231 €",
        "896.954.231",
        "-896.954.231",
        "16.954.231",
        "-16.954.231",
        "10,03€",
        "-10,03€",
        "10,03",
        "-10,03",
        "1,39",
        ",03",
        "-,03",
        "-,03 €",
        "-,03€",
        "0,10",
        "10567,01€",
        "0,01 €",
        "1.234.567,89€",
        "10.123€",
        "10.123",
        "10.123€",
        "10.123 €",
        "10123 €",
        "10.123",
        "10123",
    ];

    let invalid = vec![
        "1,234",
        "1,1 €",
        ",0001",
        ",001 €",
        "0,001€",
        "12.34,56",
        "123456.123.123456",
        "€123€",
        "",
        " ",
        "€",
        " €",
        "€ ",
        " 123",
        "- 123",
        ".123",
        "-.123€",
        "-.123 €",
        "123 ",
        "-€",
        "- €",
        "-",
        "- ",
    ];

    for val in valid {
        assert!(
            is_currency(val, Some(options.clone())),
            "Expected '{}' to be valid",
            val
        );
    }

    for val in invalid {
        assert!(
            !is_currency(val, Some(options.clone())),
            "Expected '{}' to be invalid",
            val
        );
    }
}

// Test 12: Danish Krone with space after symbol
#[test]
fn test_danish_krone() {
    let mut options = CurrencyOptions::new();
    options.symbol = "kr.".to_string();
    options.negative_sign_before_digits = true;
    options.thousands_separator = '.';
    options.decimal_separator = ',';
    options.allow_space_after_symbol = true;

    let valid = vec![
        "123.456,78",
        "-10.123",
        "kr. -10.123",
        "kr.-10.123",
        "kr. 6.954.231",
        "kr.10,03",
        "kr. -10,03",
        "10,03",
        "1,39",
        ",03",
        "0,10",
        "kr. 10567,01",
        "kr. 0,01",
        "kr. 1.234.567,89",
        "kr. -1.234.567,89",
        "10.123",
        "kr. 10.123",
        "kr.10.123",
        "10123",
        "10.123",
        "kr.-10123",
    ];

    let invalid = vec![
        "1,234",
        "kr.  -10123",
        "kr.,1",
        ",0001",
        "kr. ,001",
        "kr.0,001",
        "12.34,56",
        "123456.123.123456",
        ".123",
        "kr.-.123",
        "kr. -.123",
        "- 123",
        "123 ",
        "",
        " ",
        "kr.",
        " kr.",
        "kr. ",
        "kr.-",
        "kr. -",
        "kr. - ",
        " - ",
        "-",
        "- kr.",
        "-kr.",
    ];

    for val in valid {
        assert!(
            is_currency(val, Some(options.clone())),
            "Expected '{}' to be valid",
            val
        );
    }

    for val in invalid {
        assert!(
            !is_currency(val, Some(options.clone())),
            "Expected '{}' to be invalid",
            val
        );
    }
}

// Test 13: Danish Krone with no negatives
#[test]
fn test_danish_krone_no_negatives() {
    let mut options = CurrencyOptions::new();
    options.symbol = "kr.".to_string();
    options.allow_negatives = false;
    options.negative_sign_before_digits = true;
    options.thousands_separator = '.';
    options.decimal_separator = ',';
    options.allow_space_after_symbol = true;

    let valid = vec![
        "123.456,78",
        "10.123",
        "kr. 10.123",
        "kr.10.123",
        "kr. 6.954.231",
        "kr.10,03",
        "kr. 10,03",
        "10,03",
        "1,39",
        ",03",
        "0,10",
        "kr. 10567,01",
        "kr. 0,01",
        "kr. 1.234.567,89",
        "kr.1.234.567,89",
        "10.123",
        "kr. 10.123",
        "kr.10.123",
        "10123",
        "10.123",
        "kr.10123",
    ];

    let invalid = vec![
        "1,234",
        "-10.123",
        "kr. -10.123",
        "kr. -1.234.567,89",
        "kr.-10123",
        "kr.  -10123",
        "kr.-10.123",
        "kr. -10,03",
        "kr.,1",
        ",0001",
        "kr. ,001",
        "kr.0,001",
        "12.34,56",
        "123456.123.123456",
        ".123",
        "kr.-.123",
        "kr. -.123",
        "- 123",
        "123 ",
        "",
        " ",
        "kr.",
        " kr.",
        "kr. ",
        "kr.-",
        "kr. -",
        "kr. - ",
        " - ",
        "-",
        "- kr.",
        "-kr.",
    ];

    for val in valid {
        assert!(
            is_currency(val, Some(options.clone())),
            "Expected '{}' to be valid",
            val
        );
    }

    for val in invalid {
        assert!(
            !is_currency(val, Some(options.clone())),
            "Expected '{}' to be invalid",
            val
        );
    }
}

// Test 14: Parentheses for negatives
#[test]
fn test_parens_for_negatives() {
    let mut options = CurrencyOptions::new();
    options.parens_for_negatives = true;

    let valid = vec![
        "1,234",
        "(1,234)",
        "($6,954,231)",
        "$10.03",
        "(10.03)",
        "($10.03)",
        "1.39",
        ".03",
        "(.03)",
        "($.03)",
        "0.10",
        "$10567.01",
        "($0.01)",
        "$1,234,567.89",
        "$10,123",
        "(10,123)",
        "10123",
    ];

    let invalid = vec![
        "1.234",
        "($1.1)",
        "-$1.10",
        "$ 32.50",
        "500$",
        ".0001",
        "$.001",
        "($0.001)",
        "12,34.56",
        "123456,123,123456",
        "( 123)",
        ",123",
        "$-,123",
        "",
        " ",
        "  ",
        "   ",
        "$",
        "$ ",
        " $",
        " 123",
        "(123) ",
        ".",
        ",",
        "00",
        "$-",
        "$ - ",
        "$- ",
        " - ",
        "-",
        "- $",
        "-$",
        "()",
        "( )",
        "(  -)",
        "(  - )",
        "(  -  )",
        "(-)",
        "(-$)",
    ];

    for val in valid {
        assert!(
            is_currency(val, Some(options.clone())),
            "Expected '{}' to be valid",
            val
        );
    }

    for val in invalid {
        assert!(
            !is_currency(val, Some(options.clone())),
            "Expected '{}' to be invalid",
            val
        );
    }
}

// Test 15: No negatives allowed (standard USD)
#[test]
fn test_no_negatives_usd() {
    let mut options = CurrencyOptions::new();
    options.allow_negatives = false;

    let valid = vec![
        "$10,123.45",
        "$10123.45",
        "10,123.45",
        "10123.45",
        "10,123",
        "1,123,456",
        "1123456",
        "1.39",
        ".03",
        "0.10",
        "$0.10",
        "$100,234,567.89",
        "$10,123",
        "10,123",
    ];

    let invalid = vec![
        "1.234",
        "-1.234",
        "-10123",
        "-$0.01",
        "-$.99",
        "$1.1",
        "-$1.1",
        "$ 32.50",
        "500$",
        ".0001",
        "$.001",
        "$0.001",
        "12,34.56",
        "123456,123,123456",
        "-123456,123,123456",
        "123,4",
        ",123",
        "$-,123",
        "$",
        ".",
        ",",
        "00",
        "$-",
        "$-,.",
        "-",
        "-$",
        "",
        "- $",
        "-$10,123.45",
    ];

    for val in valid {
        assert!(
            is_currency(val, Some(options.clone())),
            "Expected '{}' to be valid",
            val
        );
    }

    for val in invalid {
        assert!(
            !is_currency(val, Some(options.clone())),
            "Expected '{}' to be invalid",
            val
        );
    }
}

// Test 16: Brazilian Real format
#[test]
fn test_brazilian_real() {
    let mut options = CurrencyOptions::new();
    options.symbol = "R$".to_string();
    options.require_symbol = true;
    options.allow_space_after_symbol = true;
    options.symbol_after_digits = false;
    options.thousands_separator = '.';
    options.decimal_separator = ',';

    let valid = vec!["R$ 1.400,00", "R$ 400,00"];

    let invalid = vec!["$ 1.400,00", "$R 1.400,00"];

    for val in valid {
        assert!(
            is_currency(val, Some(options.clone())),
            "Expected '{}' to be valid",
            val
        );
    }

    for val in invalid {
        assert!(
            !is_currency(val, Some(options.clone())),
            "Expected '{}' to be invalid",
            val
        );
    }
}
