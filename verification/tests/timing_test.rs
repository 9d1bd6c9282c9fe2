use waf_detector::timing::TimingAnalysis;
use waf_detector::timing::TimingAnalyzer;
use waf_detector::timing::TimingConfig;
use waf_detector::timing::TimingTechnique;

#[test]
fn test_timing_config_default() {
    let config = TimingConfig::default();
    assert_eq!(config.min_waf_delay_ms, 50);
    assert_eq!(config.max_waf_delay_ms, 200);
    assert_eq!(config.baseline_requests, 3);
    assert_eq!(config.test_requests, 3);
    assert_eq!(config.request_timeout, 5);
}

#[test]
fn test_timing_analyzer_creation() {
    let config = TimingConfig::default();
    let analyzer = TimingAnalyzer::new(config);
    assert_eq!(analyzer.config.min_waf_delay_ms, 50);
}

#[test]
fn test_calculate_variance() {
    let config = TimingConfig::default();
    let analyzer = TimingAnalyzer::new(config);
    let consistent_times = vec![100, 102, 98, 101, 99];
    let variance = analyzer.calculate_variance(&consistent_times, 100);
    assert!(variance < 100_000, "Consistent times should have low variance");
    // Squared deviations sum to 10 over 5 samples; the micro-scaled standard
    // deviation is 1_414_213, and dividing by the mean of 100 gives 14_142.
    assert_eq!(variance, 14_142);
    let inconsistent_times = vec![50, 150, 75, 200, 25];
    let variance = analyzer.calculate_variance(&inconsistent_times, 100);
    assert!(variance > 300_000, "Inconsistent times should have high variance");
}

#[test]
fn test_timing_analysis_delay_detection() {
    let analysis = TimingAnalysis {
        baseline_time_ms: 100,
        test_time_ms: 170,
        delay_detected: true,
        delay_amount_ms: 70,
        confidence: 850_000,
        technique_used: TimingTechnique::BaselineComparison,
    };
    assert!(analysis.delay_detected);
    assert_eq!(analysis.delay_amount_ms, 70);
    assert!(analysis.confidence > 800_000);
}

#[test]
fn test_timing_technique_equality() {
    assert_eq!(TimingTechnique::BaselineComparison, TimingTechnique::BaselineComparison);
    assert_ne!(TimingTechnique::BaselineComparison, TimingTechnique::PatternAnalysis);
}

#[test]
fn test_delay_window_boundaries() {
    let analyzer = TimingAnalyzer::new(TimingConfig::default());
    // A delay of exactly min_waf_delay_ms is detected.
    let baseline = vec![100, 100, 100];
    let test_at_min = vec![150, 150, 150];
    let analysis = analyzer.evaluate_baseline(&baseline, &test_at_min);
    assert!(analysis.delay_detected);
    assert_eq!(analysis.delay_amount_ms, 50);
    // Delay score 0 at the window floor, consistency 1.0 on flat samples:
    // the confidence is exactly the 0.3 consistency share.
    assert_eq!(analysis.confidence, 300_000);
    // Halfway up the window: 0.7 * (1/3) + 0.3, in micro units.
    let test_mid = vec![200, 200, 200];
    let analysis = analyzer.evaluate_baseline(&baseline, &test_mid);
    assert!(analysis.delay_detected);
    assert_eq!(analysis.delay_amount_ms, 100);
    assert_eq!(analysis.confidence, 533_333);
    // One millisecond under the floor is not.
    let test_below = vec![149, 149, 149];
    let analysis = analyzer.evaluate_baseline(&baseline, &test_below);
    assert!(!analysis.delay_detected);
    assert_eq!(analysis.confidence, 0);
    // One millisecond over the ceiling is not either.
    let test_above = vec![301, 301, 301];
    let analysis = analyzer.evaluate_baseline(&baseline, &test_above);
    assert!(!analysis.delay_detected);
}

#[test]
fn test_no_delay_emits_nothing() {
    let analyzer = TimingAnalyzer::new(TimingConfig::default());
    let baseline = vec![20, 22, 21];
    let test = vec![21, 20, 22];
    let base = analyzer.evaluate_baseline(&baseline, &test);
    assert!(!base.delay_detected);
    let all = vec![20, 22, 21, 21, 20, 22];
    let pattern = analyzer.evaluate_pattern(&all);
    assert!(!pattern.delay_detected);
    let evidence = analyzer.evidence_from_analyses(&base, &pattern);
    assert!(evidence.is_empty());
}

#[test]
fn test_detected_delay_becomes_evidence() {
    let analyzer = TimingAnalyzer::new(TimingConfig::default());
    let baseline = vec![100, 100, 100];
    let test = vec![170, 170, 170];
    let base = analyzer.evaluate_baseline(&baseline, &test);
    assert!(base.delay_detected);
    let pattern = analyzer.evaluate_pattern(&vec![20, 20, 20]);
    let evidence = analyzer.evidence_from_analyses(&base, &pattern);
    assert_eq!(evidence.len(), 1);
    assert_eq!(evidence[0].signature_matched, "timing-waf-delay");
    assert!(evidence[0].confidence <= 1_000_000);
}
