use waf_detector::http::HttpResponse;
use waf_detector::providers::Provider;
use waf_detector::providers::aws::AwsProvider;
use waf_detector::providers::cloudflare::CloudFlareProvider;
use waf_detector::providers::fastly::FastlyProvider;
use waf_detector::providers::vercel::VercelProvider;
use waf_detector::ProviderType;

fn resp(status: u16, headers: Vec<(&str, &str)>, body: &str) -> HttpResponse {
    HttpResponse {
        status,
        headers: headers
            .into_iter()
            .map(|(k, v)| (k.to_string(), v.to_string()))
            .collect(),
        body: body.to_string(),
        url: "https://example.com".to_string(),
    }
}

#[test]
fn test_aws_error_type_header_detection() {
    let provider = AwsProvider::new();
    let response = resp(403, vec![("x-amzn-errortype", "AccessDeniedException")], "");
    let evidence = provider.passive_detect(&response);
    assert!(
        evidence.iter().any(|e| e.signature_matched == "aws-error-type-pattern"),
        "Should find x-amzn-errortype evidence"
    );
    // The 403 is attributed to AWS because an AWS marker co-occurs.
    assert!(evidence.iter().any(|e| e.signature_matched == "aws-403-pattern"));
}

#[test]
fn test_cloudfront_id_header_detection() {
    let provider = AwsProvider::new();
    let response = resp(
        200,
        vec![("x-amz-cf-id", "abcd1234-EFGH-5678-IJKL-9012mnopqrst")],
        "",
    );
    let evidence = provider.passive_detect(&response);
    assert!(
        evidence.iter().any(|e| e.signature_matched == "cloudfront-id-pattern"),
        "Should find x-amz-cf-id evidence"
    );
}

#[test]
fn test_aws_rate_limit_detection() {
    let provider = AwsProvider::new();
    let response = resp(
        429,
        vec![("x-amzn-requestid", "1234abcd-12ab-34cd-56ef-1234567890ab")],
        "Too Many Requests",
    );
    let evidence = provider.passive_detect(&response);
    assert!(
        evidence.iter().any(|e| e.signature_matched == "aws-429-pattern"),
        "Should find 429 rate limit evidence"
    );
}

#[test]
fn test_no_false_positives_for_non_aws() {
    let provider = AwsProvider::new();
    let response = resp(
        200,
        vec![("server", "nginx/1.18.0"), ("x-powered-by", "Express")],
        "Hello World",
    );
    let evidence = provider.passive_detect(&response);
    assert!(evidence.is_empty());
}

#[test]
fn test_fastly_definitive_header() {
    let provider = FastlyProvider::new();
    let response = resp(200, vec![("fastly-restarts", "1")], "");
    let evidence = provider.passive_detect(&response);
    assert!(evidence.iter().any(|e| e.signature_matched == "fastly-restarts-pattern"));
    assert!(evidence.iter().all(|e| e.confidence <= 1_000_000));
}

#[test]
fn test_fastly_x_cache_gated_on_cloudfront() {
    let provider = FastlyProvider::new();
    // A shared x-cache that names CloudFront must not count for Fastly.
    let gated = provider.passive_detect(&resp(200, vec![("x-cache", "HIT from cloudfront")], ""));
    assert!(gated.iter().all(|e| e.signature_matched != "fastly-cache-pattern"));
    let plain = provider.passive_detect(&resp(200, vec![("x-cache", "HIT")], ""));
    assert!(plain.iter().any(|e| e.signature_matched == "fastly-cache-pattern"));
}

#[test]
fn test_vercel_server_literal() {
    let provider = VercelProvider::new();
    let matched = provider.passive_detect(&resp(200, vec![("server", "Vercel")], ""));
    assert!(matched.iter().any(|e| e.signature_matched == "vercel-server-pattern"));
    let other = provider.passive_detect(&resp(200, vec![("server", "vercel-like")], ""));
    assert!(other.iter().all(|e| e.signature_matched != "vercel-server-pattern"));
}

#[test]
fn test_vercel_is_cdn_only() {
    let vercel = Provider::Vercel(VercelProvider::new());
    assert_eq!(vercel.provider_type(), ProviderType::CDN);
    let cf = Provider::CloudFlare(CloudFlareProvider::new());
    assert_eq!(cf.provider_type(), ProviderType::Both);
}

#[test]
fn test_cloudflare_status_gate() {
    let provider = CloudFlareProvider::new();
    // A bare 403 with no CloudFlare marker earns no status evidence.
    let bare = provider.passive_detect(&resp(403, vec![], "forbidden page"));
    assert!(bare.iter().all(|e| e.signature_matched != "cf-403-status"));
    // With cf-ray present the 403 is attributed.
    let gated = provider.passive_detect(&resp(
        403,
        vec![("cf-ray", "7a1b2c3d4e5f6789-DFW")],
        "",
    ));
    assert!(gated.iter().any(|e| e.signature_matched == "cf-403-status"));
}

#[test]
fn test_provider_metadata() {
    let p = Provider::Akamai(waf_detector::providers::akamai::AkamaiProvider::new());
    let meta = p.metadata();
    assert_eq!(meta.name, "Akamai");
    assert_eq!(meta.provider_type, "Both");
    assert!(meta.enabled);
    assert_eq!(meta.priority, 95);
}

#[test]
fn test_list_providers_sorted() {
    let registry = waf_detector::engine::default_registry();
    let listed = registry.list_providers();
    assert_eq!(listed.len(), 5);
    for pair in listed.windows(2) {
        assert!(pair[0].priority >= pair[1].priority);
    }
}
