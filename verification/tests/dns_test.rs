use waf_detector::dns::DnsAnalyzer;

#[test]
fn test_dns_analyzer_creation() {
    let analyzer = DnsAnalyzer::new();
    assert!(analyzer.provider_patterns.len() > 0);
    assert!(analyzer.provider_patterns.iter().any(|e| e.0 == "CloudFlare"));
    assert!(analyzer.provider_patterns.iter().any(|e| e.0 == "AWS"));
}

#[test]
fn test_extract_domain() {
    let analyzer = DnsAnalyzer::new();
    assert_eq!(analyzer.extract_domain("https://example.com").as_str(), "example.com");
    assert_eq!(analyzer.extract_domain("http://example.com/path").as_str(), "example.com");
    assert_eq!(analyzer.extract_domain("example.com").as_str(), "example.com");
    assert_eq!(analyzer.extract_domain("example.com:8080").as_str(), "example.com");
    assert_eq!(
        analyzer.extract_domain("https://example.com:443/path?query=1").as_str(),
        "example.com"
    );
    assert_eq!(
        analyzer.extract_domain("subdomain.example.com").as_str(),
        "subdomain.example.com"
    );
}

fn patterns_of<'a>(
    analyzer: &'a DnsAnalyzer,
    provider: &str,
) -> &'a Vec<waf_detector::dns::DnsPattern> {
    &analyzer.provider_patterns.iter().find(|e| e.0 == provider).unwrap().1
}

#[test]
fn test_provider_patterns() {
    let analyzer = DnsAnalyzer::new();
    let cf_patterns = patterns_of(&analyzer, "CloudFlare");
    assert!(cf_patterns
        .iter()
        .any(|p| regex::Regex::new(&p.pattern).unwrap().is_match("target.cloudflare.net")));
    assert!(cf_patterns
        .iter()
        .any(|p| regex::Regex::new(&p.pattern).unwrap().is_match("ssl.cloudflaressl.com")));
    let aws_patterns = patterns_of(&analyzer, "AWS");
    assert!(aws_patterns
        .iter()
        .any(|p| regex::Regex::new(&p.pattern).unwrap().is_match("d123abc.cloudfront.net")));
    assert!(aws_patterns
        .iter()
        .any(|p| regex::Regex::new(&p.pattern).unwrap().is_match("example.amazonaws.com")));
    let fastly_patterns = patterns_of(&analyzer, "Fastly");
    assert!(fastly_patterns
        .iter()
        .any(|p| regex::Regex::new(&p.pattern).unwrap().is_match("target.fastly.com")));
    let akamai_patterns = patterns_of(&analyzer, "Akamai");
    assert!(akamai_patterns
        .iter()
        .any(|p| regex::Regex::new(&p.pattern).unwrap().is_match("target.akamai.net")));
    assert!(akamai_patterns
        .iter()
        .any(|p| regex::Regex::new(&p.pattern).unwrap().is_match("target.edgesuite.net")));
}

#[test]
fn test_confidence_levels() {
    let analyzer = DnsAnalyzer::new();
    let cf_patterns = patterns_of(&analyzer, "CloudFlare");
    let main_pattern = cf_patterns.iter().find(|p| p.pattern.contains("cloudflare")).unwrap();
    assert!(main_pattern.confidence >= 950_000);
    let aws_patterns = patterns_of(&analyzer, "AWS");
    let dist_pattern = aws_patterns.iter().find(|p| p.pattern.starts_with("d[")).unwrap();
    assert!(dist_pattern.confidence >= 990_000);
}

#[test]
fn test_get_supported_providers() {
    let analyzer = DnsAnalyzer::new();
    let providers = analyzer.get_supported_providers();
    assert!(providers.contains(&"CloudFlare".to_string()));
    assert!(providers.contains(&"AWS".to_string()));
    assert!(providers.contains(&"Fastly".to_string()));
    assert!(providers.contains(&"Akamai".to_string()));
    assert!(providers.contains(&"Vercel".to_string()));
}

#[test]
fn test_get_pattern_count() {
    let analyzer = DnsAnalyzer::new();
    assert!(analyzer.get_pattern_count("CloudFlare") > 0);
    assert!(analyzer.get_pattern_count("AWS") > 0);
    assert_eq!(analyzer.get_pattern_count("NonExistentProvider"), 0);
}

#[test]
fn test_cname_matching() {
    let analyzer = DnsAnalyzer::new();
    let cnames = vec!["target.cloudflare.net.".to_string()];
    let evidence = analyzer.match_cnames("example.com", &cnames);
    assert_eq!(evidence.len(), 1);
    assert_eq!(evidence[0].signature_matched, "dns-cname-cloudflare");
    assert_eq!(evidence[0].confidence, 980_000);
    assert_eq!(evidence[0].raw_data, "example.com -> target.cloudflare.net");
}

#[test]
fn test_cname_no_match() {
    let analyzer = DnsAnalyzer::new();
    let cnames = vec!["origin.example.org".to_string()];
    let evidence = analyzer.match_cnames("example.com", &cnames);
    assert!(evidence.is_empty());
}
