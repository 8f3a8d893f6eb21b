//! Throttle arithmetic: normalizing kernel throttle nanoseconds against the
//! CFS period, and the conservative estimate of actual CPU consumption.

use vstd::prelude::*;

use crate::clock;
use crate::resolver::PodInfo;
use crate::webhook::CpuThrottlePayload;

verus! {

/// The kernel scheduler's default throttling period, in nanoseconds.
pub const CFS_PERIOD_NS: u64 = 100_000_000;

/// Throttle nanoseconds as a share of the CFS period, in tenths of a percent,
/// rounded to the nearest tenth and capped at 100 %.
pub open spec fn throttle_percent_tenths_spec(throttle_ns: int) -> int {
    let rounded = (throttle_ns + 50_000) / 100_000;
    if rounded > 1000 {
        1000
    } else {
        rounded
    }
}

/// Computes the throttled percentage (in tenths of a percent) of one CFS
/// period that `throttle_ns` covers.
pub fn throttle_percent_tenths(throttle_ns: u64) -> (r: u64)
    ensures
        r == throttle_percent_tenths_spec(throttle_ns as int),
        r <= 1000,
{
    if throttle_ns >= CFS_PERIOD_NS {
        1000
    } else {
        (throttle_ns + 50_000) / 100_000
    }
}

/// The conservative estimate of actually consumed CPU: the requested
/// millicores plus a tenth of the throttled time per second, rounded to the
/// nearest hundredth of a core and expressed in millicores (capped at what a
/// `u64` of millicores can hold).
pub open spec fn actual_cpu_millicores_spec(cpu_request_millicores: int, throttle_ns: int) -> int {
    let v = 10 * ((cpu_request_millicores * 10_000_000 + throttle_ns + 50_000_000) / 100_000_000);
    if v > u64::MAX {
        u64::MAX as int
    } else {
        v
    }
}

/// Computes the estimated actual CPU consumption in millicores.
pub fn actual_cpu_millicores(cpu_request_millicores: u64, throttle_ns: u64) -> (r: u64)
    ensures
        r == actual_cpu_millicores_spec(cpu_request_millicores as int, throttle_ns as int),
{
    let wide: u128 = (cpu_request_millicores as u128) * 10_000_000 + (throttle_ns as u128)
        + 50_000_000;
    let hundredths: u128 = wide / 100_000_000;
    let ten: u128 = hundredths * 10;
    if ten > u64::MAX as u128 {
        u64::MAX
    } else {
        ten as u64
    }
}

/// Builds the throttle payload for one resolved throttle event: the derived
/// percentage and estimate, the pod's identity, and the raw kernel reading.
pub fn build_cpu_throttle_payload(
    pod: &PodInfo,
    throttle_ns: u64,
) -> (r: CpuThrottlePayload)
    ensures
        r.pod_name@ == pod.name@,
        r.namespace@ == pod.namespace@,
        r.container_name@ == pod.container_name@,
        r.throttle_percentage_tenths == throttle_percent_tenths_spec(throttle_ns as int),
        r.actual_cpu_usage_millicores == actual_cpu_millicores_spec(
            pod.cpu_request_millicores as int,
            throttle_ns as int,
        ),
        r.reported_cpu_usage_millicores == pod.cpu_request_millicores,
        r.period_seconds == 10,
        r.ebpf_detection == true,
        r.throttle_ns == throttle_ns,
        r.timestamp@.len() > 0,
{
    CpuThrottlePayload {
        pod_name: pod.name.clone(),
        namespace: pod.namespace.clone(),
        container_name: pod.container_name.clone(),
        throttle_percentage_tenths: throttle_percent_tenths(throttle_ns),
        actual_cpu_usage_millicores: actual_cpu_millicores(
            pod.cpu_request_millicores,
            throttle_ns,
        ),
        reported_cpu_usage_millicores: pod.cpu_request_millicores,
        period_seconds: 10,
        ebpf_detection: true,
        throttle_ns,
        timestamp: clock::now_rfc3339_seconds(),
    }
}

} // verus!
