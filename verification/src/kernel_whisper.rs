//! The throttle observation resource: kernel-observed CPU throttling for one
//! pod, together with the user-space metrics it contradicts.
//!
//! Percentages are carried in tenths of a percent (so `857` means `85.7 %`)
//! and core counts in millicores; severity is always derived from the
//! throttled percentage, so stored state can never drift from it.

use vstd::prelude::*;

use crate::clock;
use crate::meta::ResourceMeta;

verus! {

/// How urgently a throttle observation needs attention.
#[derive(Clone, Copy, Debug, PartialEq, Eq, Structural)]
pub enum Severity {
    Critical,
    Warning,
    Info,
}

/// The severity that a throttled percentage (in tenths of a percent) maps to:
/// critical above 80 %, warning above 50 % up to 80 %, info otherwise.
pub open spec fn severity_of(throttled_percent_tenths: int) -> Severity {
    if throttled_percent_tenths > 800 {
        Severity::Critical
    } else if throttled_percent_tenths > 500 {
        Severity::Warning
    } else {
        Severity::Info
    }
}

/// Computes the severity of a throttled percentage given in tenths of a
/// percent.
pub fn compute_severity(throttled_percent_tenths: u64) -> (s: Severity)
    ensures
        s == severity_of(throttled_percent_tenths as int),
{
    if throttled_percent_tenths > 800 {
        Severity::Critical
    } else if throttled_percent_tenths > 500 {
        Severity::Warning
    } else {
        Severity::Info
    }
}

/// What the kernel saw: throttled share of the CFS period in tenths of a
/// percent, and the estimated actual CPU consumption in millicores.
#[derive(Clone, Debug)]
pub struct KernelTruth {
    pub throttled_percent_tenths: u64,
    pub actual_cpu_millicores: u64,
}

/// What user-space metrics claim: reported CPU use in tenths of a percent and
/// a short health status.
#[derive(Clone, Debug)]
pub struct MetricsLie {
    pub cpu_percent_tenths: u64,
    pub reported_status: String,
}

/// The spec of a throttle observation.
#[derive(Clone, Debug)]
pub struct KernelWhisperSpec {
    pub pod_name: String,
    pub namespace: String,
    pub detected_at: String,
    pub kernel_truth: KernelTruth,
    pub metrics_lie: MetricsLie,
    pub severity: Severity,
}

/// A throttle observation resource.
#[derive(Clone, Debug)]
pub struct KernelWhisper {
    pub metadata: ResourceMeta,
    pub spec: KernelWhisperSpec,
}

/// The stable resource name of a throttle observation for a pod.
pub open spec fn whisper_name_of(pod_name: Seq<char>) -> Seq<char> {
    pod_name + "-cpu-throttle"@
}

impl KernelWhisper {
    /// Whether the stored severity agrees with the threshold function of the
    /// throttled percentage. Every constructor of this library establishes
    /// it, and every upsert recomputes it.
    pub open spec fn severity_consistent(self) -> bool {
        self.spec.severity == severity_of(self.spec.kernel_truth.throttled_percent_tenths as int)
    }

    /// Builds a throttle observation under its stable name, deriving severity
    /// from the throttled percentage and estimating the actually available
    /// cores as the unthrottled remainder of one core.
    pub fn create(
        pod_name: &str,
        namespace: &str,
        throttled_percent_tenths: u64,
        cpu_percent_tenths: u64,
    ) -> (r: KernelWhisper)
        requires
            throttled_percent_tenths <= 1000,
        ensures
            r.metadata.name matches Some(n) && n@ == whisper_name_of(pod_name@),
            r.metadata.namespace matches Some(ns) && ns@ == namespace@,
            r.spec.pod_name@ == pod_name@,
            r.spec.namespace@ == namespace@,
            r.spec.kernel_truth.throttled_percent_tenths == throttled_percent_tenths,
            r.spec.kernel_truth.actual_cpu_millicores == 1000 - throttled_percent_tenths,
            r.spec.metrics_lie.cpu_percent_tenths == cpu_percent_tenths,
            r.spec.metrics_lie.reported_status@ == "healthy"@,
            r.severity_consistent(),
            r.spec.detected_at@.len() > 0,
    {
        let severity = compute_severity(throttled_percent_tenths);
        let mut name = pod_name.to_owned();
        name.append("-cpu-throttle");
        KernelWhisper {
            metadata: ResourceMeta::new(name, namespace.to_owned()),
            spec: KernelWhisperSpec {
                pod_name: pod_name.to_owned(),
                namespace: namespace.to_owned(),
                detected_at: clock::now_rfc3339(),
                kernel_truth: KernelTruth {
                    throttled_percent_tenths,
                    actual_cpu_millicores: 1000 - throttled_percent_tenths,
                },
                metrics_lie: MetricsLie {
                    cpu_percent_tenths,
                    reported_status: "healthy".to_owned(),
                },
                severity,
            },
        }
    }

    /// The API group and version the resource is served under.
    pub fn api_version(&self) -> (r: &str)
        ensures
            r@ == "kernel.gossip.io/v1alpha1"@,
    {
        "kernel.gossip.io/v1alpha1"
    }

    /// The resource kind.
    pub fn kind(&self) -> (r: &str)
        ensures
            r@ == "KernelWhisper"@,
    {
        "KernelWhisper"
    }

    /// The observed pod's name.
    pub fn pod_name(&self) -> (r: &str)
        ensures
            r@ == self.spec.pod_name@,
    {
        self.spec.pod_name.as_str()
    }

    /// The observed pod's namespace.
    pub fn namespace(&self) -> (r: &str)
        ensures
            r@ == self.spec.namespace@,
    {
        self.spec.namespace.as_str()
    }

    /// The kernel-observed quantities.
    pub fn kernel_truth(&self) -> (r: &KernelTruth)
        ensures
            r == self.spec.kernel_truth,
    {
        &self.spec.kernel_truth
    }

    /// The user-space claims.
    pub fn metrics_lie(&self) -> (r: &MetricsLie)
        ensures
            r == self.spec.metrics_lie,
    {
        &self.spec.metrics_lie
    }
}

/// Severity thresholds are exhaustive and exclusive: every throttled
/// percentage maps to exactly one severity, critical strictly above 80 %,
/// warning strictly above 50 % and up to 80 %, info up to 50 %.
pub proof fn lemma_severity_thresholds(t: int)
    ensures
        severity_of(t) == Severity::Critical <==> t > 800,
        severity_of(t) == Severity::Warning <==> (500 < t <= 800),
        severity_of(t) == Severity::Info <==> t <= 500,
{
}

} // verus!
