//! The wire payloads that the node observer posts to the ingress controller.
//!
//! The wire format carries real numbers; the library holds them as plain
//! integers — percentages in tenths, core counts in millicores — and the
//! unverified rim converts at the boundary.

use vstd::prelude::*;

verus! {

/// One step of a creation payload's timeline.
#[derive(Clone, Debug)]
pub struct TimelineEvent {
    pub timestamp_ms: u64,
    pub action: String,
}

/// A pod-creation event as posted to the ingress controller.
#[derive(Clone, Debug)]
pub struct PodCreationPayload {
    pub pod_name: String,
    pub namespace: String,
    pub total_syscalls: u64,
    pub namespace_ops: u64,
    pub cgroup_writes: u64,
    pub duration_ns: u64,
    pub timeline: Vec<TimelineEvent>,
    pub ebpf_detection: bool,
    pub timestamp: String,
}

/// A CPU-throttle event as posted to the ingress controller.
#[derive(Clone, Debug)]
pub struct CpuThrottlePayload {
    pub pod_name: String,
    pub namespace: String,
    pub container_name: String,
    pub throttle_percentage_tenths: u64,
    pub actual_cpu_usage_millicores: u64,
    pub reported_cpu_usage_millicores: u64,
    pub period_seconds: u64,
    pub ebpf_detection: bool,
    pub throttle_ns: u64,
    pub timestamp: String,
}

/// The tagged union of the two payload shapes.
#[derive(Clone, Debug)]
pub enum EbpfWebhookPayload {
    CpuThrottle(CpuThrottlePayload),
    PodCreation(PodCreationPayload),
}

} // verus!
