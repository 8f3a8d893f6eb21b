//! The creation observation resource: the kernel-side timeline and counters
//! of one pod's birth.

use vstd::prelude::*;

use crate::meta::ResourceMeta;

verus! {

/// Who performed a step of the creation timeline.
#[derive(Clone, Copy, Debug, PartialEq, Eq, Structural)]
pub enum Actor {
    Scheduler,
    Kubelet,
    Runtime,
    Kernel,
}

/// One step of the creation timeline.
#[derive(Clone, Debug)]
pub struct TimelineEntry {
    pub timestamp_ms: u64,
    pub actor: Actor,
    pub action: String,
}

/// Aggregated kernel counters for one pod's creation.
#[derive(Clone, Debug)]
pub struct KernelStats {
    pub total_syscalls: u32,
    pub namespaces_created: u8,
    pub cgroup_writes: u32,
    pub iptables_rules: u32,
    pub total_duration_ms: u64,
}

/// The spec of a creation observation.
#[derive(Clone, Debug)]
pub struct PodBirthCertificateSpec {
    pub pod_name: String,
    pub namespace: String,
    pub timeline: Vec<TimelineEntry>,
    pub kernel_stats: KernelStats,
}

/// A creation observation resource.
#[derive(Clone, Debug)]
pub struct PodBirthCertificate {
    pub metadata: ResourceMeta,
    pub spec: PodBirthCertificateSpec,
}

/// Whether the timeline's timestamps never decrease.
pub open spec fn timeline_sorted(t: Seq<TimelineEntry>) -> bool {
    forall|i: int, j: int| 0 <= i < j < t.len() ==> t[i].timestamp_ms <= t[j].timestamp_ms
}

/// The default resource name the schema gives a creation observation.
pub open spec fn birth_name_of(pod_name: Seq<char>) -> Seq<char> {
    pod_name + "-birth"@
}

impl PodBirthCertificate {
    /// The invariant of a stored creation observation: a non-empty timeline
    /// with non-decreasing timestamps, and at most the six kinds of
    /// namespaces counted as created.
    pub open spec fn wf(self) -> bool {
        &&& self.spec.timeline.len() > 0
        &&& timeline_sorted(self.spec.timeline@)
        &&& self.spec.namespaces_created_bounded()
    }

    /// Builds the schema default: an empty timeline and zeroed counters,
    /// under the schema's default stable name.
    pub fn create(pod_name: &str, namespace: &str) -> (r: PodBirthCertificate)
        ensures
            r.metadata.name matches Some(n) && n@ == birth_name_of(pod_name@),
            r.metadata.namespace matches Some(ns) && ns@ == namespace@,
            r.spec.pod_name@ == pod_name@,
            r.spec.namespace@ == namespace@,
            r.spec.timeline@ =~= Seq::<TimelineEntry>::empty(),
            r.spec.kernel_stats.total_syscalls == 0,
            r.spec.kernel_stats.namespaces_created == 0,
            r.spec.kernel_stats.cgroup_writes == 0,
            r.spec.kernel_stats.iptables_rules == 0,
            r.spec.kernel_stats.total_duration_ms == 0,
    {
        let mut name = pod_name.to_owned();
        name.append("-birth");
        PodBirthCertificate {
            metadata: ResourceMeta::new(name, namespace.to_owned()),
            spec: PodBirthCertificateSpec {
                pod_name: pod_name.to_owned(),
                namespace: namespace.to_owned(),
                timeline: Vec::new(),
                kernel_stats: KernelStats {
                    total_syscalls: 0,
                    namespaces_created: 0,
                    cgroup_writes: 0,
                    iptables_rules: 0,
                    total_duration_ms: 0,
                },
            },
        }
    }

    /// The API group and version the resource is served under.
    pub fn api_version(&self) -> (r: &str)
        ensures
            r@ == "kernel.gossip.io/v1alpha1"@,
    {
        "kernel.gossip.io/v1alpha1"
    }

    /// The resource kind.
    pub fn kind(&self) -> (r: &str)
        ensures
            r@ == "PodBirthCertificate"@,
    {
        "PodBirthCertificate"
    }

    /// The observed pod's name.
    pub fn pod_name(&self) -> (r: &str)
        ensures
            r@ == self.spec.pod_name@,
    {
        self.spec.pod_name.as_str()
    }

    /// The observed pod's namespace.
    pub fn namespace(&self) -> (r: &str)
        ensures
            r@ == self.spec.namespace@,
    {
        self.spec.namespace.as_str()
    }
}

impl PodBirthCertificateSpec {
    /// At most the six kinds of namespaces can be counted as created.
    pub open spec fn namespaces_created_bounded(self) -> bool {
        self.kernel_stats.namespaces_created <= 6
    }
}

impl TimelineEntry {
    /// Builds a timeline entry.
    pub fn new(timestamp_ms: u64, actor: Actor, action: &str) -> (r: TimelineEntry)
        ensures
            r.timestamp_ms == timestamp_ms,
            r.actor == actor,
            r.action@ == action@,
    {
        TimelineEntry { timestamp_ms, actor, action: action.to_owned() }
    }

    /// The entry's timestamp in milliseconds.
    pub fn timestamp_ms(&self) -> (r: u64)
        ensures
            r == self.timestamp_ms,
    {
        self.timestamp_ms
    }

    /// The entry's actor.
    pub fn actor(&self) -> (r: &Actor)
        ensures
            r == self.actor,
    {
        &self.actor
    }
}

} // verus!
