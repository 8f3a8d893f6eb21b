use kernel_gossip::aggregator::{LineageState, ObserverAction, ObserverAggregator};
use kernel_gossip::kernel_whisper::KernelWhisper;
use kernel_gossip::parser::parse_line;
use kernel_gossip::recommendation::RecommendationEngine;
use kernel_gossip::resolver::PodInfo;
use kernel_gossip::throttle::{actual_cpu_millicores, build_cpu_throttle_payload, throttle_percent_tenths};

#[test]
fn test_full_cfs_period_reads_one_hundred_percent() {
    // One full CFS period of throttling is exactly 100.0 %.
    assert_eq!(throttle_percent_tenths(100_000_000), 1000);
}

#[test]
fn test_half_cfs_period_reads_fifty_percent() {
    assert_eq!(throttle_percent_tenths(50_000_000), 500);
}

#[test]
fn test_zero_throttle_reads_zero_and_recommends_nothing() {
    assert_eq!(throttle_percent_tenths(0), 0);
    let engine = RecommendationEngine::new();
    let kw = KernelWhisper::create("idle", "default", throttle_percent_tenths(0), 100);
    assert!(engine.analyze_kernel_whisper(&kw).is_none());
}

#[test]
fn test_throttle_percent_caps_and_rounds() {
    // Beyond a full period the share is capped.
    assert_eq!(throttle_percent_tenths(250_000_000), 1000);
    // 1 234 567 ns of a 100 ms period is 1.234567 %, rounding to 1.2 %.
    assert_eq!(throttle_percent_tenths(1_234_567), 12);
    // 150 000 ns rounds half up to 0.2 %.
    assert_eq!(throttle_percent_tenths(150_000), 2);
}

#[test]
fn test_actual_cpu_estimate() {
    // 250 millicores requested plus a tenth of 0.05 s of throttling:
    // 0.25 + 0.005 cores, in millicores.
    assert_eq!(actual_cpu_millicores(250, 50_000_000), 260);
    assert_eq!(actual_cpu_millicores(0, 0), 0);
}

fn pod() -> PodInfo {
    PodInfo {
        name: "web".to_string(),
        namespace: "prod".to_string(),
        container_name: "app".to_string(),
        cpu_request_millicores: 250,
        cpu_limit_millicores: 500,
    }
}

#[test]
fn test_throttle_payload_from_kernel_reading() {
    let payload = build_cpu_throttle_payload(&pod(), 50_000_000);
    assert_eq!(payload.pod_name, "web");
    assert_eq!(payload.namespace, "prod");
    assert_eq!(payload.container_name, "app");
    assert_eq!(payload.throttle_percentage_tenths, 500);
    assert_eq!(payload.actual_cpu_usage_millicores, 260);
    assert_eq!(payload.reported_cpu_usage_millicores, 250);
    assert_eq!(payload.period_seconds, 10);
    assert!(payload.ebpf_detection);
    assert_eq!(payload.throttle_ns, 50_000_000);
    assert!(!payload.timestamp.is_empty());
}

#[test]
fn test_lineage_runtime_marking_and_publish() {
    let mut agg = ObserverAggregator::new();

    // A runtime process starts a lineage.
    let start = parse_line("CONTAINER_PROCESS_START pid=100 ppid=1 comm=runc timestamp_ms=10")
        .unwrap();
    assert_eq!(agg.observe_event(&start), ObserverAction::Nothing);
    let rec = agg.get(100).unwrap();
    assert!(rec.is_runtime);
    assert_eq!(rec.state, LineageState::Runtime);

    // Its child inherits the runtime flag.
    let child = parse_line("CONTAINER_PROCESS_START pid=101 ppid=100 comm=sh timestamp_ms=11")
        .unwrap();
    agg.observe_event(&child);
    assert!(agg.get(101).unwrap().is_runtime);

    // Counters accumulate on the lineage.
    let ns_op = parse_line("CONTAINER_NAMESPACE_OP pid=100 type=clone timestamp_ms=12").unwrap();
    let mount = parse_line("CONTAINER_MOUNT_OP pid=100 type=mount timestamp_ms=13").unwrap();
    agg.observe_event(&ns_op);
    agg.observe_event(&ns_op);
    agg.observe_event(&mount);
    let rec = agg.get(100).unwrap();
    assert_eq!(rec.namespace_op_count, 2);
    assert_eq!(rec.mount_op_count, 1);

    // The main process clears the runtime flag for the subtree.
    let main = parse_line("CONTAINER_MAIN pid=101 ppid=100 comm=nginx timestamp_ms=14").unwrap();
    assert_eq!(agg.observe_event(&main), ObserverAction::TryResolve { pid: 101 });
    assert_eq!(agg.get(100).unwrap().state, LineageState::MainFound);
    assert!(!agg.get(101).unwrap().is_runtime);

    // The birth completion publishes with the completion's own totals.
    let done = parse_line(
        "CONTAINER_BIRTH_COMPLETE pid=100 ppid=1 comm=runc total_syscalls=847 namespace_ops=12 \
         mount_ops=5 duration_ns=123000000 timestamp_ms=15",
    )
    .unwrap();
    assert_eq!(
        agg.observe_event(&done),
        ObserverAction::PublishCreation {
            pid: 100,
            total_syscalls: 847,
            namespace_ops: 12,
            mount_ops: 5,
            duration_ns: 123000000,
        }
    );
    assert_eq!(agg.get(100).unwrap().state, LineageState::Completed);
}

#[test]
fn test_throttle_event_publishes_without_touching_lineages() {
    let mut agg = ObserverAggregator::new();
    let ev = parse_line("CPU_THROTTLE_EVENT pid=4242 comm=nginx throttle_ns=50000000 timestamp=9")
        .unwrap();
    assert_eq!(
        agg.observe_event(&ev),
        ObserverAction::PublishThrottle { pid: 4242, throttle_ns: 50000000 }
    );
    assert_eq!(agg.len(), 0);
}

#[test]
fn test_exit_and_reap_clear_lineages() {
    let mut agg = ObserverAggregator::new();
    let a = parse_line("CONTAINER_PROCESS_START pid=1 ppid=0 comm=runc timestamp_ms=1000").unwrap();
    let b = parse_line("CONTAINER_PROCESS_START pid=2 ppid=0 comm=crun timestamp_ms=70000")
        .unwrap();
    agg.observe_event(&a);
    agg.observe_event(&b);
    assert_eq!(agg.len(), 2);

    // A process exit removes its record at once.
    agg.on_process_exit(1);
    assert_eq!(agg.len(), 1);
    assert!(agg.get(1).is_none());

    // The reap sweep drops records idle beyond the bound.
    agg.observe_event(&a);
    agg.reap(70_500, 60_000);
    assert!(agg.get(1).is_none());
    assert!(agg.get(2).is_some());
}
