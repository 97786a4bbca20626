use validator_rs::url::{is_url_from_domain, is_valid_https_url, is_valid_url};

#[test]
fn test_valid_urls() {
    assert!(is_valid_url("https://www.example.com"));
    assert!(is_valid_url("http://example.com"));
    assert!(is_valid_url("https://example.com/path/to/page"));
    assert!(is_valid_url("https://example.com?query=1&other=2"));
}

#[test]
fn test_invalid_urls() {
    assert!(!is_valid_url(""));
    assert!(!is_valid_url("not a url"));
    assert!(!is_valid_url("ftp://example.com"));
    assert!(!is_valid_url("javascript:alert(1)"));
}

#[test]
fn test_https_only() {
    assert!(is_valid_https_url("https://example.com"));
    assert!(!is_valid_https_url("http://example.com"));
}

#[test]
fn test_url_domain() {
    assert!(is_url_from_domain("https://example.com/path", "example.com"));
    assert!(is_url_from_domain("https://www.example.com/path", "example.com"));
    assert!(!is_url_from_domain("https://other.com/path", "example.com"));
}
