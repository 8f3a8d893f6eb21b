use kernel_gossip::actions::{
    build_kernel_whisper, build_pod_birth_certificate, merge_pod_birth_certificate,
    replace_kernel_whisper,
};
use kernel_gossip::kernel_whisper::Severity;
use kernel_gossip::pod_birth_certificate::Actor;
use kernel_gossip::webhook::{CpuThrottlePayload, PodCreationPayload};

fn creation_payload(
    pod_name: &str,
    total_syscalls: u64,
    cgroup_writes: u64,
    duration_ns: u64,
) -> PodCreationPayload {
    PodCreationPayload {
        timestamp: "2024-01-01T00:00:00Z".to_string(),
        pod_name: pod_name.to_string(),
        namespace: "default".to_string(),
        total_syscalls,
        namespace_ops: 56,
        cgroup_writes,
        duration_ns,
        timeline: vec![],
        ebpf_detection: true,
    }
}

#[test]
fn test_build_pod_birth_certificate() {
    let payload = creation_payload("test-pod", 1234, 78, 1000000);

    let pbc = build_pod_birth_certificate(&payload);

    // Verify metadata
    assert_eq!(pbc.metadata.name, Some("test-pod-pbc".to_string()));
    assert_eq!(pbc.spec.pod_name, "test-pod");
    assert_eq!(pbc.spec.namespace, "default");

    // Verify timeline
    assert_eq!(pbc.spec.timeline.len(), 1);
    assert_eq!(pbc.spec.timeline[0].actor, Actor::Kernel);
    assert!(pbc.spec.timeline[0].action.contains("1234"));

    // Verify kernel stats
    assert_eq!(pbc.spec.kernel_stats.total_syscalls, 1234);
    assert_eq!(pbc.spec.kernel_stats.namespaces_created, 1);
    assert_eq!(pbc.spec.kernel_stats.cgroup_writes, 78);
    assert_eq!(pbc.spec.kernel_stats.total_duration_ms, 1); // 1000000 ns = 1 ms
}

#[test]
fn test_build_certificate_uses_payload_timestamp() {
    // 2024-01-01T00:00:00Z is 1704067200000 ms since the epoch; the entry
    // must carry the payload's own timestamp, not a clock reading.
    let payload = creation_payload("test-pod", 1, 1, 1);
    let pbc = build_pod_birth_certificate(&payload);
    assert_eq!(pbc.spec.timeline[0].timestamp_ms, 1704067200000);
}

fn throttle_payload(pod_name: &str, tenths: u64) -> CpuThrottlePayload {
    CpuThrottlePayload {
        timestamp: "2024-01-01T00:00:00Z".to_string(),
        pod_name: pod_name.to_string(),
        namespace: "production".to_string(),
        container_name: "app".to_string(),
        throttle_percentage_tenths: tenths,
        actual_cpu_usage_millicores: 800,
        reported_cpu_usage_millicores: 500,
        period_seconds: 300,
        ebpf_detection: true,
        throttle_ns: 0,
    }
}

#[test]
fn test_build_kernel_whisper() {
    // 45.5 % throttled, 0.8 cores actual, 0.5 cores reported.
    let payload = throttle_payload("throttled-pod", 455);

    let kw = build_kernel_whisper(&payload);

    // Verify metadata
    assert_eq!(kw.metadata.name, Some("throttled-pod-kw".to_string()));
    assert_eq!(kw.spec.pod_name, "throttled-pod");
    assert_eq!(kw.spec.namespace, "production");

    // Verify kernel truth
    assert_eq!(kw.spec.kernel_truth.throttled_percent_tenths, 455);
    assert_eq!(kw.spec.kernel_truth.actual_cpu_millicores, 800);

    // Verify metrics lie: 0.5 reported cores claim 50.0 % CPU.
    assert_eq!(kw.spec.metrics_lie.cpu_percent_tenths, 500);
    assert_eq!(kw.spec.metrics_lie.reported_status, "Healthy");

    // Verify severity (45.5 % should be Info)
    assert_eq!(kw.spec.severity, Severity::Info);
}

#[test]
fn test_severity_calculation() {
    // Test Critical (>80 %)
    let kw = build_kernel_whisper(&throttle_payload("critical-pod", 850));
    assert_eq!(kw.spec.severity, Severity::Critical);

    // Test Warning (>50 %, <=80 %)
    let kw = build_kernel_whisper(&throttle_payload("warning-pod", 650));
    assert_eq!(kw.spec.severity, Severity::Warning);
}

#[test]
fn test_creation_merge_sums_counters_and_appends_timeline() {
    // Two events for nginx in default: the merged resource carries the summed
    // counters and the two timeline entries in order.
    let mut first = creation_payload("nginx", 100, 10, 1_000_000);
    first.namespace_ops = 1;
    let mut second = creation_payload("nginx", 50, 5, 500_000);
    second.namespace_ops = 1;
    second.timestamp = "2024-01-01T00:00:01Z".to_string();

    let existing = build_pod_birth_certificate(&first);
    let incoming = build_pod_birth_certificate(&second);
    let merged = merge_pod_birth_certificate(&existing, &incoming);

    assert_eq!(merged.metadata.name, Some("nginx-pbc".to_string()));
    assert_eq!(merged.spec.kernel_stats.total_syscalls, 150);
    assert_eq!(merged.spec.kernel_stats.cgroup_writes, 15);
    // 1_000_000 ns and 500_000 ns make 1 ms and 0 ms; their sum is 1 ms.
    assert_eq!(merged.spec.kernel_stats.total_duration_ms, 1);
    assert_eq!(merged.spec.timeline.len(), 2);
    assert!(merged.spec.timeline[0].action.contains("100"));
    assert!(merged.spec.timeline[1].action.contains("50"));
    assert!(merged.spec.timeline[0].timestamp_ms <= merged.spec.timeline[1].timestamp_ms);
}

#[test]
fn test_throttle_replace_is_last_writer_wins() {
    let first = build_kernel_whisper(&throttle_payload("web", 850));
    let second = build_kernel_whisper(&throttle_payload("web", 300));
    let after = replace_kernel_whisper(&first, &second);
    assert_eq!(after.metadata.name, first.metadata.name);
    assert_eq!(after.spec.kernel_truth.throttled_percent_tenths, 300);
    assert_eq!(after.spec.severity, Severity::Info);
}

#[test]
fn test_resource_names_are_functions_of_pod_name() {
    // Two events for the same pod produce one stable name per kind.
    let a = build_pod_birth_certificate(&creation_payload("web", 1, 1, 1));
    let b = build_pod_birth_certificate(&creation_payload("web", 9, 9, 9));
    assert_eq!(a.metadata.name, b.metadata.name);

    let c = build_kernel_whisper(&throttle_payload("web", 100));
    let d = build_kernel_whisper(&throttle_payload("web", 900));
    assert_eq!(c.metadata.name, d.metadata.name);
}
