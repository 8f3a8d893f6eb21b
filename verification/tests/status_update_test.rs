use kernel_gossip::crd::{build_status_update, build_status_update_no_action};
use kernel_gossip::kernel_whisper::KernelWhisper;
use kernel_gossip::recommendation::{Recommendation, RecommendationEngine};

#[test]
fn test_build_status_with_recommendation() {
    let engine = RecommendationEngine::new();
    let kw = KernelWhisper::create("test-pod", "default", 850, 300);

    let recommendation = engine.analyze_kernel_whisper(&kw).unwrap();
    let status = build_status_update(&recommendation);

    assert!(status.contains("high CPU throttling"));
    assert!(status.contains("increase CPU limits"));
    assert!(status.contains("85.0%"));
}

#[test]
fn test_build_status_no_recommendation() {
    let status = build_status_update_no_action("No issues detected");

    assert!(status.contains("No issues detected"));
    assert!(status.contains("healthy"));
}

#[test]
fn test_status_includes_timestamp() {
    let engine = RecommendationEngine::new();
    let kw = KernelWhisper::create("test-pod", "default", 750, 400);
    let recommendation = engine.analyze_kernel_whisper(&kw).unwrap();

    let status = build_status_update(&recommendation);

    // Status should include some form of timestamp or "updated" indicator
    assert!(!status.is_empty());
    assert!(status.len() > 50); // Should be a substantial status message
}

#[test]
fn test_recommendation_to_status_format() {
    let rec = Recommendation {
        insight: "Test insight about throttling".to_string(),
        suggested_action: "Test action to take".to_string(),
        kernel_evidence: "Test evidence from kernel".to_string(),
        priority: "high".to_string(),
    };

    let status = build_status_update(&rec);

    assert!(status.contains("Test insight"));
    assert!(status.contains("Test action"));
    assert!(status.contains("Test evidence"));
    assert!(status.contains("high"));
}
