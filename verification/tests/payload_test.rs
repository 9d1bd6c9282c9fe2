use waf_detector::http::HttpResponse;
use waf_detector::payload::BaselineInfo;
use waf_detector::payload::BlockedPayload;
use waf_detector::payload::Payload;
use waf_detector::payload::PayloadAnalysisResult;
use waf_detector::payload::PayloadAnalyzer;
use waf_detector::payload::PayloadCategory;
use waf_detector::payload::PayloadConfig;

fn resp(status: u16, headers: Vec<(&str, &str)>, body: &str) -> HttpResponse {
    HttpResponse {
        status,
        headers: headers
            .into_iter()
            .map(|(k, v)| (k.to_string(), v.to_string()))
            .collect(),
        body: body.to_string(),
        url: "https://example.com".to_string(),
    }
}

fn baseline_200() -> BaselineInfo {
    BaselineInfo { status: 200, headers: vec![], body_length: 100, response_time_ms: 50 }
}

fn xss_payload() -> Payload {
    Payload {
        category: PayloadCategory::XSS,
        payload: "<script>alert('XSS')</script>".to_string(),
        description: "Basic XSS payload".to_string(),
        expected_blocks: vec!["xss".to_string()],
    }
}

#[test]
fn test_payload_catalogue() {
    let analyzer = PayloadAnalyzer::new();
    assert_eq!(analyzer.get_test_payloads().len(), 10);
    let aggressive = PayloadAnalyzer::new().with_config(PayloadConfig {
        max_payloads_per_category: 3,
        request_timeout: 10,
        request_delay_ms: 500,
        aggressive_mode: true,
    });
    assert_eq!(aggressive.get_test_payloads().len(), 12);
}

#[test]
fn test_blocked_response_rules() {
    let analyzer = PayloadAnalyzer::new();
    let baseline = baseline_200();
    let payload = xss_payload();
    // A 403 differing from the 200 baseline is a block.
    assert!(analyzer.is_blocked_response(&resp(403, vec![], "x".repeat(100).as_str()), &baseline, &payload));
    // The same status as the baseline with a clean body is not.
    assert!(!analyzer.is_blocked_response(
        &resp(200, vec![], "y".repeat(100).as_str()),
        &baseline,
        &payload
    ));
    // A blocking keyword in the body is a block even on a 200.
    assert!(analyzer.is_blocked_response(
        &resp(200, vec![], "request blocked by policy then padding padding padding padding padding padding padding"),
        &baseline,
        &payload
    ));
    // A blocking header value is a block.
    assert!(analyzer.is_blocked_response(
        &resp(200, vec![("x-waf-action", "Blocked")], "z".repeat(100).as_str()),
        &baseline,
        &payload
    ));
}

#[test]
fn test_block_reason() {
    let analyzer = PayloadAnalyzer::new();
    let payload = xss_payload();
    assert_eq!(
        analyzer.determine_block_reason(&resp(403, vec![], ""), &payload),
        "HTTP 403 Forbidden - Access blocked"
    );
    assert_eq!(
        analyzer.determine_block_reason(&resp(429, vec![], ""), &payload),
        "HTTP 429 Too Many Requests - Rate limited"
    );
    assert_eq!(
        analyzer.determine_block_reason(&resp(200, vec![], "checked by CloudFlare"), &payload),
        "CloudFlare security check"
    );
}

#[test]
fn test_identify_waf() {
    let analyzer = PayloadAnalyzer::new();
    assert_eq!(
        analyzer.identify_waf_from_header("cf-ray", "abc"),
        Some("CloudFlare".to_string())
    );
    assert_eq!(
        analyzer.identify_waf_from_header("x-amzn-requestid", "abc"),
        Some("AWS WAF".to_string())
    );
    assert_eq!(analyzer.identify_waf_from_header("server", "nginx"), None);
    assert_eq!(
        analyzer.identify_waf_from_body("protected by modsecurity"),
        Some("ModSecurity".to_string())
    );
    assert_eq!(analyzer.identify_waf_from_body("plain page"), None);
}

#[test]
fn test_analyze_blocked_payloads() {
    let analyzer = PayloadAnalyzer::new();
    let (waf, conf) = analyzer.analyze_blocked_payloads(&vec![]);
    assert!(waf.is_none());
    assert_eq!(conf, 0);
    let blocked = vec![BlockedPayload {
        category: PayloadCategory::XSS,
        payload: "<script>".to_string(),
        response_status: 403,
        response_headers: vec![("cf-ray".to_string(), "abc-DFW".to_string())],
        response_body_sample: "blocked by cloudflare".to_string(),
        block_reason: "HTTP 403 Forbidden - Access blocked".to_string(),
    }];
    let (waf, conf) = analyzer.analyze_blocked_payloads(&blocked);
    assert_eq!(waf, Some("CloudFlare".to_string()));
    // Header vote 0.3 plus body vote 0.2, and one blocked probe adds 0.1.
    assert_eq!(conf, 600_000);
    // Blocked probes with no vendor vote fall back to an unknown WAF.
    let anonymous = vec![BlockedPayload {
        category: PayloadCategory::XSS,
        payload: "<script>".to_string(),
        response_status: 418,
        response_headers: vec![],
        response_body_sample: "nope".to_string(),
        block_reason: "Suspicious response pattern".to_string(),
    }];
    let (waf, conf) = analyzer.analyze_blocked_payloads(&anonymous);
    assert_eq!(waf, Some("Unknown WAF".to_string()));
    assert_eq!(conf, 300_000);
}

#[test]
fn test_to_evidence() {
    let analyzer = PayloadAnalyzer::new();
    let blocked = vec![BlockedPayload {
        category: PayloadCategory::SQLInjection,
        payload: "' OR '1'='1".to_string(),
        response_status: 403,
        response_headers: vec![],
        response_body_sample: "denied".to_string(),
        block_reason: "HTTP 403 Forbidden - Access blocked".to_string(),
    }];
    let analysis = PayloadAnalysisResult {
        detected_waf: Some("AWS WAF".to_string()),
        confidence: 800_000,
        blocked_payloads: blocked,
        baseline_response: baseline_200(),
        analysis_time_ms: 10,
    };
    let evidence = analyzer.to_evidence(&analysis);
    assert_eq!(evidence.len(), 2);
    assert_eq!(evidence[0].signature_matched, "payload_detection_aws_waf");
    assert_eq!(evidence[0].confidence, 800_000);
    assert_eq!(evidence[1].signature_matched, "blocked_sqlinjection_payload");
    assert_eq!(evidence[1].confidence, 700_000);
    // Nothing detected converts to no evidence.
    let empty = PayloadAnalysisResult {
        detected_waf: None,
        confidence: 0,
        blocked_payloads: vec![],
        baseline_response: baseline_200(),
        analysis_time_ms: 1,
    };
    assert!(analyzer.to_evidence(&empty).is_empty());
}
