use kernel_gossip::crd::reconcile_kernel_whisper_logic;
use kernel_gossip::ingress::{
    annotation_enables_monitoring, content_type_acceptable, handle_webhook_payload,
    is_system_namespace, monitor_annotation_key, PodGate, WebhookOutcome,
};
use kernel_gossip::kernel_whisper::Severity;
use kernel_gossip::webhook::{CpuThrottlePayload, EbpfWebhookPayload, PodCreationPayload};

fn throttle_payload(pod: &str, ns: &str, tenths: u64) -> CpuThrottlePayload {
    CpuThrottlePayload {
        pod_name: pod.to_string(),
        namespace: ns.to_string(),
        container_name: "app".to_string(),
        throttle_percentage_tenths: tenths,
        actual_cpu_usage_millicores: 800,
        reported_cpu_usage_millicores: 500,
        period_seconds: 300,
        ebpf_detection: true,
        throttle_ns: 0,
        timestamp: "2024-01-01T00:00:00Z".to_string(),
    }
}

fn creation_payload(pod: &str, ns: &str) -> PodCreationPayload {
    PodCreationPayload {
        pod_name: pod.to_string(),
        namespace: ns.to_string(),
        total_syscalls: 847,
        namespace_ops: 12,
        cgroup_writes: 5,
        duration_ns: 123_000_000,
        timeline: vec![],
        ebpf_detection: true,
        timestamp: "2024-01-01T00:00:00Z".to_string(),
    }
}

#[test]
fn test_system_namespace_set() {
    assert!(is_system_namespace("kube-system"));
    assert!(is_system_namespace("kube-public"));
    assert!(is_system_namespace("kube-node-lease"));
    assert!(is_system_namespace("gke-gmp-system"));
    assert!(is_system_namespace("gmp-system"));
    assert!(is_system_namespace("gke-managed-system"));
    assert!(!is_system_namespace("default"));
    assert!(!is_system_namespace("prod"));
    assert!(!is_system_namespace("gke-things"));
}

#[test]
fn test_content_type_gate() {
    assert!(content_type_acceptable(Some("application/json")));
    assert!(content_type_acceptable(Some("application/json; charset=utf-8")));
    assert!(!content_type_acceptable(Some("text/plain")));
    assert!(!content_type_acceptable(None));
}

#[test]
fn test_annotation_gate() {
    assert_eq!(monitor_annotation_key(), "kernel-gossip.io/monitor");
    assert!(annotation_enables_monitoring(Some("true")));
    assert!(!annotation_enables_monitoring(Some("false")));
    assert!(!annotation_enables_monitoring(Some("True")));
    assert!(!annotation_enables_monitoring(None));
}

#[test]
fn test_creation_event_in_system_namespace_is_skipped() {
    // A creation event for kube-system answers skipped and mutates nothing.
    let payload = EbpfWebhookPayload::PodCreation(creation_payload("helper", "kube-system"));
    match handle_webhook_payload(&payload, PodGate::Unknown) {
        WebhookOutcome::Skipped { response } => {
            assert_eq!(response.status, "skipped");
        },
        _ => panic!("a system-namespace event must be skipped"),
    }
}

#[test]
fn test_throttle_without_annotation_is_skipped() {
    let payload = EbpfWebhookPayload::CpuThrottle(throttle_payload("web", "prod", 855));
    match handle_webhook_payload(&payload, PodGate::Known { monitored: false }) {
        WebhookOutcome::Skipped { response } => {
            assert_eq!(response.status, "skipped");
            assert!(response.message.contains("web"));
        },
        _ => panic!("an unannotated pod's throttle event must be skipped"),
    }
}

#[test]
fn test_throttle_for_missing_pod_is_skipped() {
    let payload = EbpfWebhookPayload::CpuThrottle(throttle_payload("ghost", "prod", 855));
    match handle_webhook_payload(&payload, PodGate::Unknown) {
        WebhookOutcome::Skipped { response } => {
            assert_eq!(response.status, "skipped");
        },
        _ => panic!("a missing pod is not our pod"),
    }
}

#[test]
fn test_creation_event_for_unseen_pod_creates_resource() {
    // Creation events precede API visibility: default-on.
    let payload = EbpfWebhookPayload::PodCreation(creation_payload("nginx", "default"));
    match handle_webhook_payload(&payload, PodGate::Unknown) {
        WebhookOutcome::UpsertBirth { resource, response } => {
            assert_eq!(response.status, "accepted");
            assert_eq!(resource.metadata.name, Some("nginx-pbc".to_string()));
            assert_eq!(resource.spec.kernel_stats.total_syscalls, 847);
        },
        _ => panic!("a creation event for an unseen pod must create the resource"),
    }
}

#[test]
fn test_throttle_critical_end_to_end() {
    // 85.5 % throttling on web/prod: the resource exists under its stable
    // name with critical severity, the status carries the high-priority
    // advice, and the reconciler asks to come back in a minute.
    let payload = EbpfWebhookPayload::CpuThrottle(throttle_payload("web", "prod", 855));
    let resource = match handle_webhook_payload(&payload, PodGate::Known { monitored: true }) {
        WebhookOutcome::UpsertWhisper { resource, response } => {
            assert_eq!(response.status, "accepted");
            resource
        },
        _ => panic!("an annotated pod's throttle event must upsert"),
    };
    assert_eq!(resource.metadata.name, Some("web-cpu-throttle".to_string()));
    assert_eq!(resource.spec.severity, Severity::Critical);

    let (status, requeue) = reconcile_kernel_whisper_logic(&resource, "2024-01-01 00:00:00 UTC");
    assert!(status.contains("high CPU throttling"));
    assert!(status.contains("increase CPU limits"));
    assert!(status.contains("high"));
    assert_eq!(requeue, 60);
}

#[test]
fn test_throttle_warning_end_to_end() {
    let payload = EbpfWebhookPayload::CpuThrottle(throttle_payload("web", "prod", 650));
    let resource = match handle_webhook_payload(&payload, PodGate::Known { monitored: true }) {
        WebhookOutcome::UpsertWhisper { resource, .. } => resource,
        _ => panic!("an annotated pod's throttle event must upsert"),
    };
    assert_eq!(resource.spec.severity, Severity::Warning);

    let (status, requeue) = reconcile_kernel_whisper_logic(&resource, "2024-01-01 00:00:00 UTC");
    assert!(status.contains("moderate"));
    assert_eq!(requeue, 180);
}

#[test]
fn test_throttle_info_no_recommendation() {
    let payload = EbpfWebhookPayload::CpuThrottle(throttle_payload("web", "prod", 50));
    let resource = match handle_webhook_payload(&payload, PodGate::Known { monitored: true }) {
        WebhookOutcome::UpsertWhisper { resource, .. } => resource,
        _ => panic!("an annotated pod's throttle event must upsert"),
    };
    assert_eq!(resource.spec.severity, Severity::Info);

    let (status, requeue) = reconcile_kernel_whisper_logic(&resource, "2024-01-01 00:00:00 UTC");
    assert!(status.contains("healthy"));
    assert!(!status.contains("INSIGHT"));
    assert_eq!(requeue, 600);
}
