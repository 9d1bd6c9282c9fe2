use waf_detector::utils::extract_domain;
use waf_detector::utils::format_duration;
use waf_detector::utils::parse_timeout;
use waf_detector::utils::sanitize_header_value;
use waf_detector::utils::validate_url;

#[test]
fn test_validate_url() {
    assert!(validate_url("https://example.com").is_ok());
    assert!(validate_url("http://example.com").is_ok());
    assert!(validate_url("ftp://example.com").is_err());
    assert!(validate_url("invalid-url").is_err());
}

#[test]
fn test_parse_timeout() {
    assert_eq!(parse_timeout(5), 5);
    assert_eq!(parse_timeout(0), 1);
    assert_eq!(parse_timeout(500), 300);
}

#[test]
fn test_sanitize_header_value() {
    assert_eq!(sanitize_header_value("normal-value"), "normal-value");
    assert_eq!(sanitize_header_value("value\nwith\tcontrol"), "valuewithcontrol");
}

#[test]
fn mod_test_extract_domain() {
    assert_eq!(extract_domain("https://Example.COM/path").unwrap(), "example.com");
    assert_eq!(extract_domain("http://sub.example.com").unwrap(), "sub.example.com");
    assert!(extract_domain("invalid-url").is_err());
}

#[test]
fn test_format_duration() {
    assert_eq!(format_duration(500), "500ms");
    assert_eq!(format_duration(2000), "2.0s");
}
