use waf_detector::DetectionContext;
use waf_detector::DetectionResult;
use waf_detector::engine::DetectionEngine;
use waf_detector::engine::default_registry;
use waf_detector::http::HttpResponse;
use waf_detector::providers::Provider;
use waf_detector::providers::akamai::AKAMAI_CACHE_PAT;
use waf_detector::providers::akamai::AKAMAI_REFERENCE_PAT;
use waf_detector::providers::akamai::AKAMAI_SERVER_PAT;
use waf_detector::providers::akamai::AkamaiProvider;
use waf_detector::providers::aws::AwsProvider;
use waf_detector::providers::cloudflare::CloudFlareProvider;

fn resp(status: u16, headers: Vec<(&str, &str)>, body: &str) -> HttpResponse {
    HttpResponse {
        status,
        headers: headers
            .into_iter()
            .map(|(k, v)| (k.to_string(), v.to_string()))
            .collect(),
        body: body.to_string(),
        url: "https://example.com".to_string(),
    }
}

fn detect(headers: Vec<(&str, &str)>, status: u16, body: &str) -> DetectionResult {
    let engine = DetectionEngine::new(default_registry());
    let context = DetectionContext {
        url: "https://example.com".to_string(),
        response: Some(resp(status, headers, body)),
        dns_info: None,
        user_agent: "WAF-Detector/1.0".to_string(),
    };
    engine.detect_from_parts(&context, &vec![], &vec![], &vec![], 5)
}

fn score_of(result: &DetectionResult, name: &str) -> u64 {
    result
        .provider_scores
        .iter()
        .find(|e| e.0 == name)
        .map(|e| e.1)
        .unwrap()
}

#[test]
fn test_cloudflare_happy_path() {
    let result = detect(
        vec![
            ("cf-ray", "7a1b2c3d4e5f6789-DFW"),
            ("server", "cloudflare"),
            ("cf-cache-status", "HIT"),
        ],
        200,
        "",
    );
    assert_eq!(result.waf_name(), Some("CloudFlare"));
    assert_eq!(result.cdn_name(), Some("CloudFlare"));
    assert!(score_of(&result, "CloudFlare") >= 950_000);
    assert_eq!(score_of(&result, "AWS"), 0);
    // Every emitted confidence is a valid probability.
    for e in result.evidence() {
        assert!(e.confidence <= 1_000_000);
    }
}

#[test]
fn test_cloudfront_happy_path() {
    let result = detect(
        vec![
            ("x-amz-cf-id", "abcd1234-EFGH-5678-IJKL-9012mnopqrst"),
            ("x-amz-cf-pop", "DFW3-C1"),
            ("via", "1.1 d1234abc.cloudfront.net (CloudFront)"),
        ],
        200,
        "",
    );
    assert_eq!(result.waf_name(), Some("AWS"));
    assert_eq!(result.cdn_name(), Some("AWS"));
    assert!(score_of(&result, "AWS") >= 950_000);
    assert_eq!(score_of(&result, "CloudFlare"), 0);
    assert_eq!(score_of(&result, "Fastly"), 0);
}

#[test]
fn test_fastly_cloudfront_disambiguation() {
    let result = detect(
        vec![("x-cache", "HIT from cloudfront"), ("via", "1.1 varnish")],
        200,
        "",
    );
    // The CloudFront marker in x-cache gates Fastly out of that header and
    // the varnish via alone cannot overcome it.
    assert_eq!(result.cdn_name(), Some("AWS"));
    assert!(score_of(&result, "AWS") > score_of(&result, "Fastly"));
}

#[test]
fn test_plain_nginx_nothing_detected() {
    let result = detect(
        vec![("server", "nginx/1.18.0"), ("x-powered-by", "Express")],
        200,
        "Hello",
    );
    assert!(!result.has_waf());
    assert!(!result.has_cdn());
    for (name, score) in &result.provider_scores {
        assert_eq!(*score, 0, "provider {} should score zero", name);
    }
    // Every registered provider and synthetic source has a key, each with
    // an empty list.
    assert_eq!(result.evidence_map.len(), 8);
    for (_, evidence) in &result.evidence_map {
        assert!(evidence.is_empty());
    }
    let names: Vec<&str> = result.evidence_map.iter().map(|e| e.0.as_str()).collect();
    assert!(names.contains(&"CloudFlare"));
    assert!(names.contains(&"Akamai"));
    assert!(names.contains(&"AWS"));
    assert!(names.contains(&"Fastly"));
    assert!(names.contains(&"Vercel"));
    assert!(names.contains(&"TimingAnalysis"));
    assert!(names.contains(&"DnsAnalysis"));
    assert!(names.contains(&"PayloadAnalysis"));
}

#[test]
fn test_contradiction_penalty() {
    // CloudFlare evidence with an AWS header present is penalised to at
    // most three tenths of the unpenalised score.
    let with_contradiction = detect(
        vec![
            ("cf-ray", "7a1b2c3d4e5f6789-DFW"),
            ("x-amz-cf-id", "abcd1234-EFGH-5678-IJKL-9012mnopqrst"),
        ],
        200,
        "",
    );
    let without = detect(vec![("cf-ray", "7a1b2c3d4e5f6789-DFW")], 200, "");
    let penalized = score_of(&with_contradiction, "CloudFlare");
    let unpenalized = score_of(&without, "CloudFlare");
    assert!(unpenalized > 0);
    assert!(10 * penalized <= 3 * unpenalized + 10);
    // The final WAF slot goes to the higher of the two scores.
    let aws = score_of(&with_contradiction, "AWS");
    let expected = if aws >= penalized { "AWS" } else { "CloudFlare" };
    assert_eq!(with_contradiction.waf_name(), Some(expected));
}

#[test]
fn test_missing_probes_do_not_abort() {
    // A detection fused without DNS, timing or payload observations still
    // computes from the response alone.
    let result = detect(vec![("cf-ray", "7a1b2c3d4e5f6789-DFW")], 200, "");
    assert_eq!(result.waf_name(), Some("CloudFlare"));
    let empty = result
        .evidence_map
        .iter()
        .find(|e| e.0 == "DnsAnalysis")
        .unwrap();
    assert!(empty.1.is_empty());
}

#[test]
fn test_provider_registry() {
    let registry = default_registry();
    assert_eq!(registry.get_provider_count(), 5);
    assert!(registry.is_provider_registered("CloudFlare"));
    assert!(registry.get_provider("CloudFlare").is_some());
}

#[test]
fn test_registry_rejects_duplicates() {
    let mut registry = default_registry();
    let dup = Provider::CloudFlare(CloudFlareProvider::new());
    assert!(registry.register_provider(dup).is_err());
    assert_eq!(registry.get_provider_count(), 5);
}

#[test]
fn test_cloudflare_detection_integration() {
    let provider = CloudFlareProvider::new();
    let response = resp(
        200,
        vec![("cf-ray", "1234567890abcdef-DFW"), ("server", "cloudflare")],
        "<!DOCTYPE html><html>",
    );
    let evidence = provider.passive_detect(&response);
    assert!(evidence.len() >= 2);
    assert!(evidence.iter().any(|e| e.signature_matched == "cf-ray-header"));
    assert!(evidence.iter().any(|e| e.signature_matched == "cloudflare-server-header"));
}

#[test]
fn test_akamai_server_header_detection() {
    let provider = AkamaiProvider::new();
    let response = resp(200, vec![("server", "AkamaiGHost")], "");
    let evidence = provider.passive_detect(&response);
    assert_eq!(evidence.len(), 1);
    assert_eq!(evidence[0].signature_matched, "akamai-server-pattern");
    assert_eq!(evidence[0].raw_data, "AkamaiGHost");
}

#[test]
fn test_akamai_no_false_positives() {
    let provider = AkamaiProvider::new();
    let response = resp(
        200,
        vec![("server", "nginx"), ("x-powered-by", "PHP")],
        "Regular website content",
    );
    let evidence = provider.passive_detect(&response);
    assert!(evidence.is_empty());
}

#[test]
fn test_akamai_regex_patterns() {
    let server = regex::Regex::new(AKAMAI_SERVER_PAT).unwrap();
    assert!(server.is_match("AkamaiGHost"));
    assert!(server.is_match("akamai-server"));
    assert!(!server.is_match("nginx"));
    let cache = regex::Regex::new(AKAMAI_CACHE_PAT).unwrap();
    assert!(cache.is_match("a23-45-67-89.deploy.akamaitechnologies.com"));
    assert!(!cache.is_match("cloudflare.com"));
    let reference = regex::Regex::new(AKAMAI_REFERENCE_PAT).unwrap();
    assert!(reference.is_match("Reference #18.7f123456.1703123456.2a3b4c5d"));
    assert!(!reference.is_match("CloudFlare Ray ID: 123"));
}

#[test]
fn test_aws_request_id_header_detection() {
    let provider = AwsProvider::new();
    let response = resp(
        200,
        vec![("x-amzn-requestid", "1234abcd-12ab-34cd-56ef-1234567890ab")],
        "",
    );
    let evidence = provider.passive_detect(&response);
    assert!(
        evidence.iter().any(|e| e.signature_matched == "aws-request-id-pattern"),
        "Should find x-amzn-requestid evidence"
    );
}

#[test]
fn test_scored_synthetic_sources() {
    // DNS evidence handed in by the caller lands under its synthetic key
    // and earns that source a score.
    let engine = DetectionEngine::new(default_registry());
    let analyzer = waf_detector::dns::DnsAnalyzer::new();
    let dns_evidence =
        analyzer.match_cnames("example.com", &vec!["target.cloudflare.net".to_string()]);
    assert_eq!(dns_evidence.len(), 1);
    let context = DetectionContext {
        url: "https://example.com".to_string(),
        response: Some(resp(200, vec![], "")),
        dns_info: None,
        user_agent: "WAF-Detector/1.0".to_string(),
    };
    let result = engine.detect_from_parts(&context, &vec![], &dns_evidence, &vec![], 1);
    let dns_bucket = result
        .evidence_map
        .iter()
        .find(|e| e.0 == "DnsAnalysis")
        .unwrap();
    assert_eq!(dns_bucket.1.len(), 1);
    assert!(score_of(&result, "DnsAnalysis") > 0);
}
