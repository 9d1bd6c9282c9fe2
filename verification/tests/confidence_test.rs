use waf_detector::confidence::ConfidenceEngine;

#[test]
fn test_confidence_calculation() {
    let engine = ConfidenceEngine::new();
    let confidence = engine.calculate_confidence("CloudFlare", 3, 900_000);
    assert!(confidence > 500_000);
    assert!(confidence <= 1_000_000);
}

#[test]
fn test_combine_confidences() {
    let engine = ConfidenceEngine::new();
    let confidences = vec![800_000, 700_000, 900_000];
    let combined = engine.combine_confidences(&confidences);
    assert!(combined > 800_000);
    assert!(combined <= 1_000_000);
}

#[test]
fn test_false_positive_adjustment() {
    let engine = ConfidenceEngine::new();
    let confidence = engine.adjust_for_false_positives(900_000, 2);
    assert_eq!(confidence, 700_000);
}
