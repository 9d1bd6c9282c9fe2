use waf_detector::DetectionMethod;
use waf_detector::Evidence;
use waf_detector::ProviderType;
use waf_detector::http::HttpResponse;

#[test]
fn test_provider_type_variants() {
    assert_eq!(ProviderType::WAF, ProviderType::WAF);
    assert_ne!(ProviderType::WAF, ProviderType::CDN);
    assert_eq!(ProviderType::Both, ProviderType::Both);
    assert_ne!(ProviderType::CDN, ProviderType::Both);
}

#[test]
fn test_detection_method_variants() {
    let header = DetectionMethod::Header("cf-ray".to_string());
    let status = DetectionMethod::StatusCode(403);
    assert!(matches!(header, DetectionMethod::Header(_)), "Expected Header variant");
    assert!(matches!(status, DetectionMethod::StatusCode(403)), "Expected StatusCode variant");
    assert!(matches!(DetectionMethod::Timing, DetectionMethod::Timing));
}

#[test]
fn test_detection_types() {
    let evidence = Evidence {
        method_type: DetectionMethod::Header("test".to_string()),
        confidence: 900_000,
        description: "Test evidence".to_string(),
        raw_data: "test-data".to_string(),
        signature_matched: "test-pattern".to_string(),
    };
    assert_eq!(evidence.confidence, 900_000);
    assert_eq!(evidence.description, "Test evidence");
    assert!(
        matches!(evidence.method_type, DetectionMethod::Header(_)),
        "Expected Header detection method"
    );
}

#[test]
fn test_evidence_structure() {
    let evidence = Evidence {
        method_type: DetectionMethod::Header("server".to_string()),
        confidence: 850_000,
        description: "Test evidence".to_string(),
        raw_data: "nginx".to_string(),
        signature_matched: "server-pattern".to_string(),
    };
    assert_eq!(evidence.raw_data, "nginx");
    assert_eq!(evidence.signature_matched, "server-pattern");
    assert!(evidence.confidence <= 1_000_000);
    assert!(
        matches!(evidence.method_type, DetectionMethod::Header(_)),
        "Expected Header detection method"
    );
}

#[test]
fn test_http_response_structure() {
    let response = HttpResponse {
        status: 200,
        headers: vec![("server".to_string(), "nginx".to_string())],
        body: "test body".to_string(),
        url: "https://example.com".to_string(),
    };
    assert_eq!(response.status, 200);
    assert_eq!(response.body, "test body");
    assert_eq!(response.get_header("server"), Some(&"nginx".to_string()));
}
