use kernel_gossip::kernel_whisper::{KernelWhisper, Severity};
use kernel_gossip::pod_birth_certificate::{Actor, PodBirthCertificate, TimelineEntry};

#[test]
fn test_pod_birth_certificate_required_fields() {
    let cert = PodBirthCertificate::create("test-pod", "default");

    assert_eq!(cert.api_version(), "kernel.gossip.io/v1alpha1");
    assert_eq!(cert.kind(), "PodBirthCertificate");
    assert_eq!(cert.pod_name(), "test-pod");
    assert_eq!(cert.namespace(), "default");
}

#[test]
fn test_timeline_entry_creation() {
    let entry = TimelineEntry::new(100, Actor::Scheduler, "Pod assigned to node");

    assert_eq!(entry.timestamp_ms(), 100);
    assert_eq!(entry.actor(), &Actor::Scheduler);
}

#[test]
fn test_kernel_whisper_required_fields() {
    // 85.7 % throttled and 45.2 % reported CPU, in tenths of a percent.
    let whisper = KernelWhisper::create("frontend-xyz789", "production", 857, 452);

    assert_eq!(whisper.api_version(), "kernel.gossip.io/v1alpha1");
    assert_eq!(whisper.kind(), "KernelWhisper");
    assert_eq!(whisper.pod_name(), "frontend-xyz789");
    assert_eq!(whisper.namespace(), "production");
    assert_eq!(whisper.kernel_truth().throttled_percent_tenths, 857);
    assert_eq!(whisper.metrics_lie().cpu_percent_tenths, 452);
}

#[test]
fn test_severity_enum() {
    let critical = Severity::Critical;
    let warning = Severity::Warning;
    let info = Severity::Info;

    assert_eq!(format!("{critical:?}"), "Critical");
    assert_eq!(format!("{warning:?}"), "Warning");
    assert_eq!(format!("{info:?}"), "Info");
}

#[test]
fn test_whisper_stable_name_and_severity() {
    let whisper = KernelWhisper::create("web", "prod", 855, 500);
    assert_eq!(whisper.metadata.name, Some("web-cpu-throttle".to_string()));
    assert_eq!(whisper.metadata.namespace, Some("prod".to_string()));
    assert_eq!(whisper.spec.severity, Severity::Critical);
    assert_eq!(whisper.kernel_truth().actual_cpu_millicores, 145);
    assert_eq!(whisper.metrics_lie().reported_status, "healthy");
    assert!(!whisper.spec.detected_at.is_empty());
}

#[test]
fn test_severity_threshold_edges() {
    // The severity thresholds of the data model, at their exact edges.
    assert_eq!(KernelWhisper::create("p", "d", 801, 0).spec.severity, Severity::Critical);
    assert_eq!(KernelWhisper::create("p", "d", 800, 0).spec.severity, Severity::Warning);
    assert_eq!(KernelWhisper::create("p", "d", 501, 0).spec.severity, Severity::Warning);
    assert_eq!(KernelWhisper::create("p", "d", 500, 0).spec.severity, Severity::Info);
    assert_eq!(KernelWhisper::create("p", "d", 0, 0).spec.severity, Severity::Info);
}

#[test]
fn test_birth_certificate_default_name() {
    let cert = PodBirthCertificate::create("nginx-abc123", "production");
    assert_eq!(cert.metadata.name, Some("nginx-abc123-birth".to_string()));
    assert!(cert.spec.timeline.is_empty());
    assert_eq!(cert.spec.kernel_stats.total_syscalls, 0);
}
