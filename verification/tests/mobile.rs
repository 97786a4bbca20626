use validator_rs::mobile::{get_supported_locales, is_mobile_phone, is_valid_phone, Locale, MobileOptions};

#[test]
fn test_us_phones() {
    let locale = Locale::from("en-US");
    // US pattern requires specific formats
    assert!(is_mobile_phone("+14155552671", locale.clone(), None).unwrap());
    assert!(is_mobile_phone("4155552671", locale.clone(), None).unwrap());
    assert!(is_mobile_phone("415 555 2671", locale.clone(), None).unwrap());
    assert!(is_mobile_phone("(415) 555-2671", locale.clone(), None).unwrap());
    assert!(!is_mobile_phone("123", locale, None).unwrap());
}

#[test]
fn test_uk_phones() {
    let locale = Locale::from("en-GB");
    assert!(is_mobile_phone("+447911123456", locale.clone(), None).unwrap());
    assert!(is_mobile_phone("07911123456", locale.clone(), None).unwrap());
    assert!(!is_mobile_phone("0123456789", locale, None).unwrap());
}

#[test]
fn test_strict_mode() {
    let locale = Locale::from("en-US");
    let options = Some(MobileOptions { strict_mode: true });
    
    assert!(is_mobile_phone("+14155552671", locale.clone(), options.clone()).unwrap());
    assert!(!is_mobile_phone("4155552671", locale, options).unwrap());
}

#[test]
fn test_multiple_locales() {
    let locale = Locale::from(vec!["en-US", "en-GB"]);
    
    assert!(is_mobile_phone("+14155552671", locale.clone(), None).unwrap());
    assert!(is_mobile_phone("+447911123456", locale.clone(), None).unwrap());
    assert!(!is_mobile_phone("+331234567", locale, None).unwrap()); // French number
}

#[test]
fn test_any_locale() {
    assert!(is_mobile_phone("+14155552671", Locale::Any, None).unwrap()); // US
    assert!(is_mobile_phone("+447911123456", Locale::Any, None).unwrap()); // UK
    assert!(is_mobile_phone("+33612345678", Locale::Any, None).unwrap()); // France
    assert!(is_mobile_phone("+81 90 1234 5678", Locale::Any, None).unwrap()); // Japan
    assert!(!is_mobile_phone("abc123", Locale::Any, None).unwrap());
}

#[test]
fn test_invalid_locale() {
    let result = is_mobile_phone("+14155552671", Locale::from("xx-XX"), None);
    assert!(result.is_err());
    assert!(result.unwrap_err().contains("Invalid locale"));
}

#[test]
fn test_convenience_function() {
    assert!(is_valid_phone("+14155552671"));
    assert!(is_valid_phone("+447911123456"));
    assert!(!is_valid_phone("abc123"));
    assert!(!is_valid_phone(""));
}

#[test]
fn test_various_countries() {
    // France
    assert!(is_mobile_phone("+33612345678", Locale::from("fr-FR"), None).unwrap());
    
    // Germany - mobile numbers start with 015x, 016x, 017x
    assert!(is_mobile_phone("+4915123456789", Locale::from("de-DE"), None).unwrap());
    
    // India
    assert!(is_mobile_phone("+919876543210", Locale::from("en-IN"), None).unwrap());
    
    // Australia
    assert!(is_mobile_phone("+61412345678", Locale::from("en-AU"), None).unwrap());
    
    // Brazil - test simpler format
    assert!(is_mobile_phone("+5511912345678", Locale::from("pt-BR"), None).unwrap());
}

#[test]
fn test_get_supported_locales() {
    let locales = get_supported_locales();
    assert!(!locales.is_empty());
    assert!(locales.contains(&"en-US"));
    assert!(locales.contains(&"en-GB"));
    assert!(locales.contains(&"fr-FR"));
}

#[test]
fn test_aliases() {
    // Canada should use US pattern
    assert!(is_mobile_phone("+14155552671", Locale::from("en-CA"), None).unwrap());
    assert!(is_mobile_phone("+14155552671", Locale::from("fr-CA"), None).unwrap());
}

#[test]
fn test_am_am() {
    let locale = Locale::from("am-AM");
    assert!(is_mobile_phone("+37433123456", locale.clone(), None).unwrap());
    assert!(is_mobile_phone("+37441123456", locale.clone(), None).unwrap());
    assert!(is_mobile_phone("055123456", locale.clone(), None).unwrap());
    assert!(!is_mobile_phone("+37403498855", locale.clone(), None).unwrap());
    assert!(!is_mobile_phone("+37416498123", locale, None).unwrap());
}

#[test]
fn test_ar_ae() {
    let locale = Locale::from("ar-AE");
    assert!(is_mobile_phone("+971502674453", locale.clone(), None).unwrap());
    assert!(is_mobile_phone("0585215778", locale.clone(), None).unwrap());
    assert!(is_mobile_phone("585215778", locale.clone(), None).unwrap());
    assert!(!is_mobile_phone("+971511498855", locale, None).unwrap());
}

#[test]
fn test_ar_sa() {
    let locale = Locale::from("ar-SA");
    assert!(is_mobile_phone("0556578654", locale.clone(), None).unwrap());
    assert!(is_mobile_phone("+966556578654", locale.clone(), None).unwrap());
    assert!(is_mobile_phone("596578654", locale.clone(), None).unwrap());
    assert!(!is_mobile_phone("+9665626626262", locale, None).unwrap());
}

#[test]
fn test_zh_cn() {
    let locale = Locale::from("zh-CN");
    assert!(is_mobile_phone("13523333233", locale.clone(), None).unwrap());
    assert!(is_mobile_phone("+8616238234822", locale.clone(), None).unwrap());
    assert!(is_mobile_phone("008616238234822", locale.clone(), None).unwrap());
    assert!(!is_mobile_phone("12345", locale.clone(), None).unwrap());
    assert!(!is_mobile_phone("010-38238383", locale, None).unwrap());
}

#[test]
fn test_zh_tw() {
    let locale = Locale::from("zh-TW");
    assert!(is_mobile_phone("0987123456", locale.clone(), None).unwrap());
    assert!(is_mobile_phone("+886987123456", locale.clone(), None).unwrap());
    assert!(is_mobile_phone("886-987123456", locale.clone(), None).unwrap());
    assert!(!is_mobile_phone("0-987123456", locale, None).unwrap());
}

#[test]
fn test_ja_jp() {
    let locale = Locale::from("ja-JP");
    assert!(is_mobile_phone("09012345678", locale.clone(), None).unwrap());
    assert!(is_mobile_phone("080 1234 5678", locale.clone(), None).unwrap());
    assert!(is_mobile_phone("+8190-1234-5678", locale.clone(), None).unwrap());
    assert!(!is_mobile_phone("0312345678", locale, None).unwrap());
}

#[test]
fn test_ko_kr() {
    let locale = Locale::from("ko-KR");
    assert!(is_mobile_phone("+82-010-1234-5678", locale.clone(), None).unwrap());
    assert!(is_mobile_phone("010-123-5678", locale.clone(), None).unwrap());
    assert!(is_mobile_phone("01012345678", locale.clone(), None).unwrap());
    assert!(!is_mobile_phone("+82 10 1234 567", locale, None).unwrap());
}

#[test]
fn test_es_es() {
    let locale = Locale::from("es-ES");
    assert!(is_mobile_phone("+34654789321", locale.clone(), None).unwrap());
    assert!(is_mobile_phone("654789321", locale.clone(), None).unwrap());
    assert!(is_mobile_phone("+34714789321", locale.clone(), None).unwrap());
    assert!(!is_mobile_phone("65478932", locale, None).unwrap());
}

#[test]
fn test_pt_br() {
    let locale = Locale::from("pt-BR");
    assert!(is_mobile_phone("+55 12 996551215", locale.clone(), None).unwrap());
    assert!(is_mobile_phone("5511914314567", locale.clone(), None).unwrap());
    assert!(is_mobile_phone("(11) 94123-4567", locale.clone(), None).unwrap());
    assert!(!is_mobile_phone("+55 11 90431-4567", locale, None).unwrap());
}

#[test]
fn test_it_it() {
    let locale = Locale::from("it-IT");
    assert!(is_mobile_phone("370 3175423", locale.clone(), None).unwrap());
    assert!(is_mobile_phone("+39 310 7688449", locale.clone(), None).unwrap());
    assert!(!is_mobile_phone("011 7387545", locale, None).unwrap());
}

#[test]
fn test_pl_pl() {
    let locale = Locale::from("pl-PL");
    assert!(is_mobile_phone("+48512689767", locale.clone(), None).unwrap());
    assert!(is_mobile_phone("657562855", locale.clone(), None).unwrap());
    assert!(is_mobile_phone("+48 56 376 87 47", locale.clone(), None).unwrap());
    assert!(!is_mobile_phone("3454535", locale, None).unwrap());
}

#[test]
fn test_tr_tr() {
    let locale = Locale::from("tr-TR");
    assert!(is_mobile_phone("+905321234567", locale.clone(), None).unwrap());
    assert!(is_mobile_phone("05321234567", locale.clone(), None).unwrap());
    assert!(!is_mobile_phone("12345", locale, None).unwrap());
}

#[test]
fn test_en_in() {
    let locale = Locale::from("en-IN");
    assert!(is_mobile_phone("+919876543210", locale.clone(), None).unwrap());
    assert!(is_mobile_phone("919876543210", locale.clone(), None).unwrap());
    assert!(is_mobile_phone("09876543210", locale.clone(), None).unwrap());
    assert!(!is_mobile_phone("12345", locale, None).unwrap());
}

#[test]
fn test_vi_vn() {
    let locale = Locale::from("vi-VN");
    assert!(is_mobile_phone("0336012403", locale.clone(), None).unwrap());
    assert!(is_mobile_phone("+84586012403", locale.clone(), None).unwrap());
    assert!(is_mobile_phone("84981577798", locale.clone(), None).unwrap());
    assert!(!is_mobile_phone("01678912345", locale, None).unwrap());
}

#[test]
fn test_en_sg() {
    let locale = Locale::from("en-SG");
    assert!(is_mobile_phone("87654321", locale.clone(), None).unwrap());
    assert!(is_mobile_phone("+6587654321", locale.clone(), None).unwrap());
    assert!(!is_mobile_phone("12345678", locale, None).unwrap());
}

#[test]
fn test_ar_eg() {
    let locale = Locale::from("ar-EG");
    assert!(is_mobile_phone("+201004513789", locale.clone(), None).unwrap());
    assert!(is_mobile_phone("01090124576", locale.clone(), None).unwrap());
    assert!(is_mobile_phone("1090124576", locale.clone(), None).unwrap());
    assert!(!is_mobile_phone("+201404513789", locale, None).unwrap());
}

#[test]
fn test_id_id() {
    let locale = Locale::from("id-ID");
    assert!(is_mobile_phone("0811 778 998", locale.clone(), None).unwrap());
    assert!(is_mobile_phone("+62811778998", locale.clone(), None).unwrap());
    assert!(is_mobile_phone("628993123618190", locale.clone(), None).unwrap());
    assert!(!is_mobile_phone("0217123456", locale, None).unwrap());
}

#[test]
fn test_th_th() {
    let locale = Locale::from("th-TH");
    assert!(is_mobile_phone("0912345678", locale.clone(), None).unwrap());
    assert!(is_mobile_phone("+66912345678", locale.clone(), None).unwrap());
    assert!(is_mobile_phone("66912345678", locale.clone(), None).unwrap());
    assert!(!is_mobile_phone("67812345623", locale, None).unwrap());
}

#[test]
fn test_ru_ru() {
    let locale = Locale::from("ru-RU");
    assert!(is_mobile_phone("+79676338855", locale.clone(), None).unwrap());
    assert!(is_mobile_phone("79676338855", locale.clone(), None).unwrap());
    assert!(is_mobile_phone("89676338855", locale.clone(), None).unwrap());
    assert!(!is_mobile_phone("+9676338855", locale, None).unwrap());
}

#[test]
fn test_nb_no() {
    let locale = Locale::from("nb-NO");
    assert!(is_mobile_phone("+4796338855", locale.clone(), None).unwrap());
    assert!(is_mobile_phone("4796338855", locale.clone(), None).unwrap());
    assert!(is_mobile_phone("46338855", locale.clone(), None).unwrap());
    assert!(!is_mobile_phone("+4676338855", locale, None).unwrap());
}

#[test]
fn test_da_dk() {
    let locale = Locale::from("da-DK");
    assert!(is_mobile_phone("12345678", locale.clone(), None).unwrap());
    assert!(is_mobile_phone("+45 12 34 56 78", locale.clone(), None).unwrap());
    assert!(!is_mobile_phone("12 34 56", locale, None).unwrap());
}

#[test]
fn test_sv_se() {
    let locale = Locale::from("sv-SE");
    assert!(is_mobile_phone("+46701234567", locale.clone(), None).unwrap());
    assert!(is_mobile_phone("0721234567", locale.clone(), None).unwrap());
    assert!(!is_mobile_phone("+46301234567", locale, None).unwrap());
}

#[test]
fn test_fi_fi() {
    let locale = Locale::from("fi-FI");
    assert!(is_mobile_phone("+358505557171", locale.clone(), None).unwrap());
    assert!(is_mobile_phone("0455571", locale.clone(), None).unwrap());
    assert!(!is_mobile_phone("045557", locale, None).unwrap());
}

#[test]
fn test_strict_mode_comprehensive() {
    let options = Some(MobileOptions { strict_mode: true });
    
    // Should pass - all start with +
    assert!(is_mobile_phone("+254728530234", Locale::Any, options.clone()).unwrap());
    assert!(is_mobile_phone("+299 12 34 56", Locale::Any, options.clone()).unwrap());
    assert!(is_mobile_phone("+94766660206", Locale::Any, options.clone()).unwrap());
    
    // Should fail - don't start with +
    assert!(!is_mobile_phone("254728530234", Locale::Any, options.clone()).unwrap());
    assert!(!is_mobile_phone("0728530234", Locale::Any, options.clone()).unwrap());
    assert!(!is_mobile_phone("766667206", Locale::Any, options).unwrap());
}

#[test]
fn test_any_locale_comprehensive() {
    // Test a variety of valid numbers from different countries
    let valid_numbers = vec![
        "+14155552671",      // US
        "+447911123456",     // UK
        "+33612345678",      // France
        "+4915123456789",    // Germany
        "+919876543210",     // India
        "+61412345678",      // Australia
        "+5511912345678",    // Brazil
        "+81 90 1234 5678",  // Japan
        "+8613523333233",    // China
        "+82 10 1234 5678",  // South Korea
        "+34654789321",      // Spain
        "+39 310 7688449",   // Italy
        "+48512689767",      // Poland
        "+79676338855",      // Russia
        "+66912345678",      // Thailand
        "+84586012403",      // Vietnam
        "+6587654321",       // Singapore
    ];

    for number in valid_numbers {
        assert!(is_mobile_phone(number, Locale::Any, None).unwrap(), 
                "Failed for: {}", number);
    }

    // Test invalid numbers
    let invalid_numbers = vec!["", "asdf", "1", "12345"];
    for number in invalid_numbers {
        assert!(!is_mobile_phone(number, Locale::Any, None).unwrap(),
                "Should have failed for: {}", number);
    }
}

#[test]
fn test_empty_locale_defaults_to_any() {
    // Empty locale should default to 'any'
    assert!(is_mobile_phone("+14155552671", Locale::from(""), None).unwrap());
    assert!(is_mobile_phone("+447911123456", Locale::from(""), None).unwrap());
}

#[test]
fn test_ar_jo() {
    let locale = Locale::from("ar-JO");
    assert!(is_mobile_phone("0796477263", locale.clone(), None).unwrap());
    assert!(is_mobile_phone("+962796477263", locale.clone(), None).unwrap());
    assert!(!is_mobile_phone("00962786725261", locale, None).unwrap());
}

#[test]
fn test_es_mx() {
    let locale = Locale::from("es-MX");
    assert!(is_mobile_phone("+52019654789321", locale.clone(), None).unwrap());
    assert!(is_mobile_phone("5219654789321", locale.clone(), None).unwrap());
    assert!(!is_mobile_phone("65478932", locale, None).unwrap());
}

#[test]
fn test_es_ar() {
    let locale = Locale::from("es-AR");
    assert!(is_mobile_phone("5491143214321", locale.clone(), None).unwrap());
    assert!(is_mobile_phone("+5491143214321", locale.clone(), None).unwrap());
    assert!(!is_mobile_phone("1143214321", locale, None).unwrap());
}

#[test]
fn test_nl_nl() {
    let locale = Locale::from("nl-NL");
    assert!(is_mobile_phone("0670123456", locale.clone(), None).unwrap());
    assert!(is_mobile_phone("+31612345678", locale.clone(), None).unwrap());
    assert!(!is_mobile_phone("012345678", locale, None).unwrap());
}

#[test]
fn test_el_gr() {
    let locale = Locale::from("el-GR");
    assert!(is_mobile_phone("+306944848966", locale.clone(), None).unwrap());
    assert!(is_mobile_phone("6944848966", locale.clone(), None).unwrap());
    assert!(!is_mobile_phone("6924567890", locale, None).unwrap());
}
