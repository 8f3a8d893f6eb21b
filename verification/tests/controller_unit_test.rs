use kernel_gossip::crd::{
    calculate_requeue_duration, reconcile_logic_kernel_whisper, reconcile_logic_pod_birth,
    reconcile_pod_birth_requeue_secs,
};
use kernel_gossip::kernel_whisper::{KernelWhisper, Severity};
use kernel_gossip::pod_birth_certificate::PodBirthCertificate;

#[test]
fn test_pod_birth_certificate_validation() {
    // Test with valid PodBirthCertificate
    let pbc = PodBirthCertificate::create("test-pod", "default");
    let result = reconcile_logic_pod_birth(&pbc);
    assert!(result.is_ok());

    // Test with empty name
    let mut invalid_pbc = PodBirthCertificate::create("", "default");
    invalid_pbc.metadata.name = Some("".to_string());
    let result = reconcile_logic_pod_birth(&invalid_pbc);
    assert!(result.is_err());
}

#[test]
fn test_kernel_whisper_severity_logic() {
    // Test Critical severity
    let mut kw = KernelWhisper::create("critical-pod", "default", 850, 800);
    kw.spec.severity = Severity::Critical;
    let action = reconcile_logic_kernel_whisper(&kw);
    assert_eq!(action.severity_level(), "critical");
    assert!(action.requires_attention());

    // Test Warning severity
    let mut kw = KernelWhisper::create("warning-pod", "default", 650, 700);
    kw.spec.severity = Severity::Warning;
    let action = reconcile_logic_kernel_whisper(&kw);
    assert_eq!(action.severity_level(), "warning");
    assert!(!action.requires_attention());

    // Test Info severity
    let mut kw = KernelWhisper::create("info-pod", "default", 150, 500);
    kw.spec.severity = Severity::Info;
    let action = reconcile_logic_kernel_whisper(&kw);
    assert_eq!(action.severity_level(), "info");
    assert!(!action.requires_attention());
}

#[test]
fn test_requeue_duration_calculation() {
    // Critical should requeue quickly
    assert_eq!(calculate_requeue_duration(&Severity::Critical), 60);

    // Warning should requeue moderately
    assert_eq!(calculate_requeue_duration(&Severity::Warning), 180);

    // Info should requeue slowly
    assert_eq!(calculate_requeue_duration(&Severity::Info), 600);
}

#[test]
fn test_pod_birth_requeue_backoff() {
    let pbc = PodBirthCertificate::create("test-pod", "default");
    assert_eq!(reconcile_pod_birth_requeue_secs(&pbc), 300);

    let mut invalid = PodBirthCertificate::create("x", "default");
    invalid.metadata.name = Some("".to_string());
    assert_eq!(reconcile_pod_birth_requeue_secs(&invalid), 30);
    invalid.metadata.name = None;
    assert_eq!(reconcile_pod_birth_requeue_secs(&invalid), 30);
}
