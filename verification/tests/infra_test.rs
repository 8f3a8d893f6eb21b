use kernel_gossip::bpftrace_runner::{
    parse_cpu_stat_field, throttle_ratio_tenths, BpftraceRunner,
};
use kernel_gossip::config::{Config, ConfigError, ObserverConfig};
use kernel_gossip::ebpf_loader::{
    aggregate_syscall_counts, syscall_name, throttle_detections, SyscallStats,
};
use kernel_gossip::pod_lifecycle::{
    count_processes, limit_is_set, CgroupOperations, KernelOperation, NamespaceChanges,
    PodLifecycleEvents, PodLifecycleObserver,
};

#[test]
fn test_config_default_ports() {
    let config = Config::resolve(None, None);
    assert_eq!(config.webhook_port, 8080);
    assert_eq!(config.metrics_port, 9090);
}

#[test]
fn test_config_parses_and_rejects_ports() {
    let config = Config::resolve(Some("9000"), Some("not-a-port"));
    assert_eq!(config.webhook_port, 9000);
    assert_eq!(config.metrics_port, 9090);
    let config = Config::resolve(Some("70000"), Some("1"));
    assert_eq!(config.webhook_port, 8080);
    assert_eq!(config.metrics_port, 1);
}

#[test]
fn test_observer_config_defaults() {
    let config = ObserverConfig::resolve(None, None, None, None);
    assert_eq!(
        config.webhook_url,
        "http://kernel-gossip-operator.kernel-gossip.svc.cluster.local:8080/webhook/pixie"
    );
    assert_eq!(config.namespace, "kernel-gossip");
    assert_eq!(config.configmap_name, "ebpf-monitored-pods");
    assert_eq!(config.log_level, "info");
    let config = ObserverConfig::resolve(Some("http://x/hook"), None, None, Some("debug"));
    assert_eq!(config.webhook_url, "http://x/hook");
    assert_eq!(config.log_level, "debug");
}

#[test]
fn test_config_error_message() {
    let err = ConfigError::MissingVar("WEBHOOK_URL".to_string());
    assert_eq!(err.message(), "Missing required environment variable: WEBHOOK_URL");
}

#[test]
fn test_syscall_names() {
    assert_eq!(syscall_name(1), "write");
    assert_eq!(syscall_name(56), "clone");
    assert_eq!(syscall_name(59), "execve");
    assert_eq!(syscall_name(165), "mount");
    assert_eq!(syscall_name(257), "openat");
    assert_eq!(syscall_name(308), "setns");
    assert_eq!(syscall_name(2), "unknown");
}

#[test]
fn test_syscall_count_aggregation() {
    let entries = vec![(56u32, 5u64), (59, 3), (165, 23), (308, 8), (1, 808)];
    let stats = aggregate_syscall_counts(&entries);
    assert_eq!(stats.total_syscalls, 847);
    assert_eq!(stats.clone_count, 5);
    assert_eq!(stats.execve_count, 3);
    assert_eq!(stats.mount_count, 23);
    assert_eq!(stats.setns_count, 8);

    let empty = SyscallStats::default();
    assert_eq!(empty.total_syscalls, 0);
}

#[test]
fn test_throttle_detections_pick_positive_counts() {
    let entries = vec![(10u64, 0u64), (11, 4), (12, 0), (13, 1)];
    let detections = throttle_detections(&entries, 1234);
    assert_eq!(detections.len(), 2);
    assert_eq!(detections[0].cgroup_id, 11);
    assert_eq!(detections[0].throttle_count, 4);
    assert_eq!(detections[0].detected_at_ms, 1234);
    assert_eq!(detections[1].cgroup_id, 13);
}

#[test]
fn test_pod_ready_summary_parsing() {
    let output = "Tracing syscalls for pod creation...\nPOD_READY total=847 clone=5 execve=3 mount=23 setns=8\n";
    let stats = BpftraceRunner::parse_syscall_stats(output, "web");
    assert_eq!(stats.pod_name, "web");
    assert_eq!(stats.total_syscalls, 847);
    assert_eq!(stats.clone_count, 5);
    assert_eq!(stats.execve_count, 3);
    assert_eq!(stats.mount_count, 23);
    assert_eq!(stats.setns_count, 8);

    let none = BpftraceRunner::parse_syscall_stats("TIMEOUT total=12\n", "web");
    assert_eq!(none.total_syscalls, 0);
}

#[test]
fn test_cpu_stat_parsing() {
    let content = "usage_usec 250000\nnr_periods 400\nnr_throttled 100\nthrottled_usec 9000\nthrottled_time 9000000\n";
    assert_eq!(parse_cpu_stat_field(content, "nr_periods"), 400);
    assert_eq!(parse_cpu_stat_field(content, "nr_throttled"), 100);
    assert_eq!(parse_cpu_stat_field(content, "throttled_time"), 9000000);
    assert_eq!(parse_cpu_stat_field(content, "nr_bursts"), 0);
}

#[test]
fn test_throttle_ratio() {
    // 100 of 400 periods throttled: 25.0 %.
    assert_eq!(throttle_ratio_tenths(100, 400), 250);
    assert_eq!(throttle_ratio_tenths(0, 400), 0);
    assert_eq!(throttle_ratio_tenths(7, 0), 0);
}

#[test]
fn test_cgroup_limit_detection() {
    assert!(!limit_is_set("max 100000\n"));
    assert!(!limit_is_set("  max"));
    assert!(limit_is_set("50000 100000\n"));
    assert!(limit_is_set("9000000\n"));
}

#[test]
fn test_process_counting() {
    assert_eq!(count_processes("120\n121\n\n122\n"), 3);
    assert_eq!(count_processes(""), 0);
}

#[test]
fn test_birth_certificate_report() {
    let events = PodLifecycleEvents {
        pod_name: "web-5f7d8".to_string(),
        operations: vec![
            KernelOperation {
                op_type: "CGROUP_CREATE".to_string(),
                details: "Created cgroup: /sys/fs/cgroup/kubepods.slice".to_string(),
                timestamp_ms: 3,
            },
            KernelOperation {
                op_type: "NAMESPACE_CREATE".to_string(),
                details: "Created PID namespace".to_string(),
                timestamp_ms: 15,
            },
        ],
        namespace_changes: NamespaceChanges {
            pid_namespace_created: true,
            ..NamespaceChanges::default()
        },
        cgroup_operations: CgroupOperations {
            cpu_limit_set: true,
            ..CgroupOperations::default()
        },
        total_duration_ms: 142,
    };
    let cert = PodLifecycleObserver::generate_birth_certificate(&events);
    assert!(cert.contains("POD BIRTH CERTIFICATE"));
    assert!(cert.contains("Pod: web-5f7d8"));
    assert!(cert.contains("Birth Duration: 142 ms"));
    assert!(cert.contains("KERNEL CASCADE OF EVENTS:"));
    assert!(cert.contains("[   3ms] CGROUP_CREATE        Created cgroup: /sys/fs/cgroup/kubepods.slice"));
    assert!(cert.contains("PID namespace: yes"));
    assert!(cert.contains("Network namespace: no"));
    assert!(cert.contains("CPU limits: yes"));
    assert!(cert.contains("Memory limits: no"));
}
