use waf_detector::http::HttpResponse;
use waf_detector::smoke::PayloadClassification;
use waf_detector::smoke::PayloadTestResult;
use waf_detector::smoke::SmokeTestConfig;
use waf_detector::smoke::WafSmokeTest;
use waf_detector::waf_mode::PayloadType;
use waf_detector::waf_mode::ProbeResult;
use waf_detector::waf_mode::WafMode;
use waf_detector::waf_mode::WafModeDetector;

fn resp(status: u16, headers: Vec<(&str, &str)>, body: &str) -> HttpResponse {
    HttpResponse {
        status,
        headers: headers
            .into_iter()
            .map(|(k, v)| (k.to_string(), v.to_string()))
            .collect(),
        body: body.to_string(),
        url: "https://example.com".to_string(),
    }
}

fn mk_result(
    category: &str,
    payload_type: PayloadType,
    status: u16,
    time: u64,
    classification: PayloadClassification,
) -> PayloadTestResult {
    PayloadTestResult {
        category: category.to_string(),
        payload: "test".to_string(),
        payload_type,
        response_status: status,
        response_time_ms: time,
        classification,
        evidence: vec![],
        waf_indicators: vec![],
    }
}

#[test]
fn test_payload_classification() {
    let smoke_test = WafSmokeTest::new(SmokeTestConfig::default());
    let response = resp(403, vec![], "Access Denied");
    let (classification, evidence, _) = smoke_test.classify_response(&response, "test");
    assert_eq!(classification, PayloadClassification::Blocked);
    assert!(!evidence.is_empty());
}

#[test]
fn test_summary_calculation() {
    let results = vec![
        mk_result("XSS", PayloadType::XssBasic, 403, 100, PayloadClassification::Blocked),
        mk_result("SQLi", PayloadType::SqlInjectionBasic, 200, 150, PayloadClassification::Allowed),
    ];
    let smoke_test = WafSmokeTest::new(SmokeTestConfig::default());
    let summary = smoke_test.calculate_summary(&results);
    assert_eq!(summary.total_tests, 2);
    assert_eq!(summary.blocked_count, 1);
    assert_eq!(summary.allowed_count, 1);
    assert_eq!(summary.effectiveness_permille, 500);
}

#[test]
fn test_blocking_mode_effectiveness() {
    // Ten of twelve payloads answered 403, two 200.
    let mut results = Vec::new();
    for _ in 0..10 {
        results.push(mk_result(
            "XSS",
            PayloadType::XssBasic,
            403,
            100,
            PayloadClassification::Blocked,
        ));
    }
    for _ in 0..2 {
        results.push(mk_result(
            "XSS",
            PayloadType::XssBasic,
            200,
            100,
            PayloadClassification::Allowed,
        ));
    }
    let smoke_test = WafSmokeTest::new(SmokeTestConfig::default());
    let summary = smoke_test.calculate_summary(&results);
    assert_eq!(summary.total_tests, 12);
    assert_eq!(summary.blocked_count, 10);
    // 10/12 in per-mille, rounded down: 83.3 percent.
    assert_eq!(summary.effectiveness_permille, 833);
    let mode = smoke_test.determine_waf_mode(&results);
    assert_eq!(mode, Some(WafMode::Blocking));
}

#[test]
fn test_challenge_counts_as_protected() {
    let results = vec![
        mk_result("XSS", PayloadType::XssBasic, 200, 50, PayloadClassification::Challenge),
        mk_result("XSS", PayloadType::XssBasic, 200, 50, PayloadClassification::Allowed),
    ];
    let smoke_test = WafSmokeTest::new(SmokeTestConfig::default());
    let summary = smoke_test.calculate_summary(&results);
    assert_eq!(summary.challenge_count, 1);
    assert_eq!(summary.effectiveness_permille, 500);
}

#[test]
fn test_classification_rules() {
    let smoke_test = WafSmokeTest::new(SmokeTestConfig::default());
    let (c, _, _) = smoke_test.classify_response(&resp(429, vec![], ""), "p");
    assert_eq!(c, PayloadClassification::RateLimited);
    let (c, _, _) = smoke_test.classify_response(&resp(503, vec![], ""), "p");
    assert_eq!(c, PayloadClassification::Blocked);
    let (c, _, _) = smoke_test.classify_response(&resp(200, vec![], "hello"), "p");
    assert_eq!(c, PayloadClassification::Allowed);
    let (c, _, _) = smoke_test.classify_response(&resp(500, vec![], ""), "p");
    assert_eq!(c, PayloadClassification::Error);
    // Challenge keywords override the status code.
    let (c, _, _) = smoke_test.classify_response(&resp(200, vec![], "Checking your browser"), "p");
    assert_eq!(c, PayloadClassification::Challenge);
    // A 429 is rate limited even when the body carries a challenge marker.
    let (c, _, _) = smoke_test.classify_response(&resp(429, vec![], "Checking your browser"), "p");
    assert_eq!(c, PayloadClassification::RateLimited);
    // A challenge marker in a header counts like one in the body.
    let (c, _, _) = smoke_test.classify_response(
        &resp(200, vec![("cf-mitigated", "challenge")], "ok"),
        "p",
    );
    assert_eq!(c, PayloadClassification::Challenge);
    // A blocking keyword in the body overrides an allowed status.
    let (c, _, _) = smoke_test.classify_response(&resp(200, vec![], "Access Denied"), "p");
    assert_eq!(c, PayloadClassification::Blocked);
    // So does a blocking marker in a header.
    let (c, _, _) = smoke_test.classify_response(
        &resp(302, vec![("x-request-blocked", "1")], "moved"),
        "p",
    );
    assert_eq!(c, PayloadClassification::Blocked);
    // A blocking indicator also reclassifies an error status.
    let (c, _, _) = smoke_test.classify_response(&resp(500, vec![], "attack detected"), "p");
    assert_eq!(c, PayloadClassification::Blocked);
}

#[test]
fn test_payload_carried_verbatim() {
    let smoke_test = WafSmokeTest::new(SmokeTestConfig::default());
    let payload = "<script>alert('XSS')</script>";
    let result = smoke_test.result_from_response(
        PayloadType::XssBasic,
        payload,
        &resp(403, vec![], "blocked"),
        42,
    );
    assert_eq!(result.payload, payload);
    assert_eq!(result.response_status, 403);
    assert_eq!(result.classification, PayloadClassification::Blocked);
}

#[test]
fn test_reflected_payload_is_noted() {
    let smoke_test = WafSmokeTest::new(SmokeTestConfig::default());
    let payload = "zzz-probe-zzz";
    let (c, evidence, _) =
        smoke_test.classify_response(&resp(200, vec![], "echo zzz-probe-zzz back"), payload);
    assert_eq!(c, PayloadClassification::Allowed);
    assert!(evidence.iter().any(|e| e.contains("reflected")));
    let mode_input = vec![PayloadTestResult {
        category: "XSS".to_string(),
        payload: payload.to_string(),
        payload_type: PayloadType::XssBasic,
        response_status: 200,
        response_time_ms: 10,
        classification: c,
        evidence,
        waf_indicators: vec![],
    }];
    let mode = smoke_test.determine_waf_mode(&mode_input);
    assert_eq!(mode, Some(WafMode::Monitoring));
}

#[test]
fn test_build_test_url() {
    let smoke_test = WafSmokeTest::new(SmokeTestConfig::default());
    assert_eq!(
        smoke_test.build_test_url("https://example.com/FUZZ/x", "admin"),
        "https://example.com/admin/x"
    );
    // The payload is percent-encoded on the query string.
    assert_eq!(
        smoke_test.build_test_url("https://example.com", "a b"),
        "https://example.com?test=a%20b"
    );
    assert_eq!(
        smoke_test.build_test_url("https://example.com?x=1", "ok"),
        "https://example.com?x=1&test=ok"
    );
}

#[test]
fn test_scanner_user_agent() {
    assert_eq!(
        WafSmokeTest::scanner_user_agent("sqlmap"),
        "sqlmap/1.6.12 (https://sqlmap.org)"
    );
    assert_eq!(
        WafSmokeTest::scanner_user_agent("unknown-tool"),
        "WAF-Detector/1.0 Scanner Test"
    );
}

#[test]
fn test_vendor_vote() {
    let smoke_test = WafSmokeTest::new(SmokeTestConfig::default());
    let mut a = mk_result("XSS", PayloadType::XssBasic, 403, 10, PayloadClassification::Blocked);
    a.waf_indicators = vec!["CloudFlare".to_string(), "CloudFlare".to_string()];
    let mut b = mk_result("XSS", PayloadType::XssBasic, 403, 10, PayloadClassification::Blocked);
    b.waf_indicators = vec!["Akamai".to_string()];
    let winner = smoke_test.identify_waf_from_results(&vec![a, b]);
    assert_eq!(winner, Some("CloudFlare".to_string()));
    let none = smoke_test.identify_waf_from_results(&vec![]);
    assert!(none.is_none());
}

#[test]
fn test_payload_initialization() {
    let detector = WafModeDetector::new();
    assert!(!detector.payloads.is_empty());
    assert!(detector.payloads.iter().any(|e| e.0 == PayloadType::XssBasic));
    assert!(detector.payloads.iter().any(|e| e.0 == PayloadType::SqlInjectionBasic));
    assert!(detector.payloads.iter().any(|e| e.0 == PayloadType::Enumeration));
}

#[test]
fn test_smoke_catalogue_categories() {
    let smoke_test = WafSmokeTest::new(SmokeTestConfig::default());
    assert_eq!(smoke_test.payloads.len(), 9);
    let upload = smoke_test
        .payloads
        .iter()
        .find(|e| e.0 == PayloadType::FileUpload)
        .expect("file-upload category present");
    assert!(upload.1.iter().any(|p| p.contains(".php")));
}

#[test]
fn test_mode_analysis() {
    let detector = WafModeDetector::new();
    let blocking_results = vec![
        ProbeResult {
            payload_type: PayloadType::XssBasic,
            payload: "test".to_string(),
            response_status: 403,
            blocked: true,
            evidence: vec!["Blocked".to_string()],
            response_time_ms: 100,
        },
        ProbeResult {
            payload_type: PayloadType::SqlInjectionBasic,
            payload: "test".to_string(),
            response_status: 403,
            blocked: true,
            evidence: vec!["Blocked".to_string()],
            response_time_ms: 100,
        },
    ];
    let (mode, confidence) = detector.analyze_results(&blocking_results);
    assert_eq!(mode, WafMode::Blocking);
    assert!(confidence > 800_000);
}

#[test]
fn test_recommendations_band() {
    let smoke_test = WafSmokeTest::new(SmokeTestConfig::default());
    let results = vec![mk_result(
        "XSS",
        PayloadType::XssBasic,
        403,
        10,
        PayloadClassification::Blocked,
    )];
    let summary = smoke_test.calculate_summary(&results);
    let recs = smoke_test.generate_recommendations(&summary, &Some(WafMode::Blocking), &None);
    assert!(recs.len() >= 2);
    assert!(recs[0].starts_with("Excellent"));
}
