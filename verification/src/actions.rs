//! Building and merging the observation resources that the ingress
//! controller upserts.
//!
//! Stable names make the upserts idempotent: the name of each resource is a
//! pure function of the pod name, so two events for the same pod always land
//! on the same resource.

use vstd::prelude::*;

use crate::clock;
use crate::kernel_whisper::{whisper_name_of, KernelWhisper};
use crate::meta::ResourceMeta;
use crate::pod_birth_certificate::{
    birth_name_of, timeline_sorted, Actor, PodBirthCertificate, TimelineEntry,
};
use crate::strutil::{dec_str, u64_to_string};
use crate::webhook::{CpuThrottlePayload, PodCreationPayload};

verus! {

/// The stable name of the creation observation the controller upserts.
pub open spec fn pbc_name_of(pod_name: Seq<char>) -> Seq<char> {
    pod_name + "-pbc"@
}

/// The action line of the timeline entry a creation payload contributes.
pub open spec fn creation_action_spec(total_syscalls: int) -> Seq<char> {
    "Pod creation started: "@ + dec_str(total_syscalls) + " syscalls"@
}

/// Builds the creation observation for one payload: a single timeline entry
/// attributed to the kernel, stamped with the payload's own timestamp where
/// it parses, and the payload's counters.
pub fn build_pod_birth_certificate(payload: &PodCreationPayload) -> (r: PodBirthCertificate)
    ensures
        r.metadata.name matches Some(n) && n@ == pbc_name_of(payload.pod_name@),
        r.metadata.namespace matches Some(ns) && ns@ == payload.namespace@,
        r.spec.pod_name@ == payload.pod_name@,
        r.spec.namespace@ == payload.namespace@,
        r.spec.timeline@.len() == 1,
        r.spec.timeline@[0].actor == Actor::Kernel,
        r.spec.timeline@[0].action@ == creation_action_spec(payload.total_syscalls as int),
        (match clock::rfc3339_millis_of(payload.timestamp@) {
            Some(m) => r.spec.timeline@[0].timestamp_ms == m as u64,
            None => true,
        }),
        r.spec.kernel_stats.total_syscalls == payload.total_syscalls as u32,
        r.spec.kernel_stats.namespaces_created == 1,
        r.spec.kernel_stats.cgroup_writes == payload.cgroup_writes as u32,
        r.spec.kernel_stats.iptables_rules == 0,
        r.spec.kernel_stats.total_duration_ms == payload.duration_ns / 1_000_000,
        r.wf(),
{
    let timestamp_ms: u64 = match clock::parse_rfc3339_millis(payload.timestamp.as_str()) {
        Some(m) => m as u64,
        None => clock::now_millis() as u64,
    };
    let mut action = String::new();
    action.append("Pod creation started: ");
    action.append(u64_to_string(payload.total_syscalls).as_str());
    action.append(" syscalls");
    let entry = TimelineEntry { timestamp_ms, actor: Actor::Kernel, action };
    let mut pbc = PodBirthCertificate::create(
        payload.pod_name.as_str(),
        payload.namespace.as_str(),
    );
    let mut name = payload.pod_name.clone();
    name.append("-pbc");
    pbc.metadata = ResourceMeta::new(name, payload.namespace.clone());
    let mut timeline: Vec<TimelineEntry> = Vec::new();
    timeline.push(entry);
    pbc.spec.timeline = timeline;
    pbc.spec.kernel_stats.total_syscalls = payload.total_syscalls as u32;
    pbc.spec.kernel_stats.namespaces_created = 1;
    pbc.spec.kernel_stats.cgroup_writes = payload.cgroup_writes as u32;
    pbc.spec.kernel_stats.iptables_rules = 0;
    pbc.spec.kernel_stats.total_duration_ms = payload.duration_ns / 1_000_000;
    pbc
}

/// Builds the throttle observation the ingress controller upserts for one
/// payload, under the stable `<pod>-cpu-throttle` name, with the payload's
/// own timestamp and quantities, and severity derived from the throttled
/// percentage.
pub fn build_kernel_whisper_for_upsert(payload: &CpuThrottlePayload) -> (r: KernelWhisper)
    requires
        payload.throttle_percentage_tenths <= 1000,
    ensures
        r.metadata.name matches Some(n) && n@ == whisper_name_of(payload.pod_name@),
        r.metadata.namespace matches Some(ns) && ns@ == payload.namespace@,
        r.spec.pod_name@ == payload.pod_name@,
        r.spec.namespace@ == payload.namespace@,
        r.spec.detected_at@ == payload.timestamp@,
        r.spec.kernel_truth.throttled_percent_tenths == payload.throttle_percentage_tenths,
        r.spec.kernel_truth.actual_cpu_millicores == payload.actual_cpu_usage_millicores,
        r.spec.metrics_lie.cpu_percent_tenths == payload.reported_cpu_usage_millicores,
        r.spec.metrics_lie.reported_status@ == "Healthy"@,
        r.severity_consistent(),
{
    let mut kw = KernelWhisper::create(
        payload.pod_name.as_str(),
        payload.namespace.as_str(),
        payload.throttle_percentage_tenths,
        payload.reported_cpu_usage_millicores,
    );
    kw.spec.detected_at = payload.timestamp.clone();
    kw.spec.kernel_truth.actual_cpu_millicores = payload.actual_cpu_usage_millicores;
    kw.spec.metrics_lie.reported_status = "Healthy".to_owned();
    kw
}

/// Builds the throttle observation under the legacy `<pod>-kw` name that
/// older deployments carry: the reported cores become the claimed percentage,
/// and severity is derived from the throttled percentage. The ingress path
/// upserts under the stable `<pod>-cpu-throttle` name instead.
pub fn build_kernel_whisper(payload: &CpuThrottlePayload) -> (r: KernelWhisper)
    requires
        payload.throttle_percentage_tenths <= 1000,
    ensures
        r.metadata.name matches Some(n) && n@ == payload.pod_name@ + "-kw"@,
        r.metadata.namespace matches Some(ns) && ns@ == payload.namespace@,
        r.spec.pod_name@ == payload.pod_name@,
        r.spec.namespace@ == payload.namespace@,
        r.spec.detected_at@ == payload.timestamp@,
        r.spec.kernel_truth.throttled_percent_tenths == payload.throttle_percentage_tenths,
        r.spec.kernel_truth.actual_cpu_millicores == payload.actual_cpu_usage_millicores,
        r.spec.metrics_lie.cpu_percent_tenths == payload.reported_cpu_usage_millicores,
        r.spec.metrics_lie.reported_status@ == "Healthy"@,
        r.severity_consistent(),
{
    let mut kw = build_kernel_whisper_for_upsert(payload);
    let mut name = payload.pod_name.clone();
    name.append("-kw");
    kw.metadata.name = Some(name);
    kw
}

/// Copies an optional string, field for field.
fn clone_opt_string(o: &Option<String>) -> (r: Option<String>)
    ensures
        r == *o,
{
    match o {
        Some(s) => Some(s.clone()),
        None => None,
    }
}

/// Copies resource metadata, field for field.
fn clone_meta(m: &ResourceMeta) -> (r: ResourceMeta)
    ensures
        r == *m,
{
    ResourceMeta { name: clone_opt_string(&m.name), namespace: clone_opt_string(&m.namespace) }
}

/// Copies a timeline entry, field for field.
fn clone_entry(e: &TimelineEntry) -> (r: TimelineEntry)
    ensures
        r == *e,
{
    TimelineEntry { timestamp_ms: e.timestamp_ms, actor: e.actor, action: e.action.clone() }
}

/// Copies a throttle observation's spec, field for field.
fn clone_whisper_spec(s: &crate::kernel_whisper::KernelWhisperSpec) -> (r:
    crate::kernel_whisper::KernelWhisperSpec)
    ensures
        r == *s,
{
    crate::kernel_whisper::KernelWhisperSpec {
        pod_name: s.pod_name.clone(),
        namespace: s.namespace.clone(),
        detected_at: s.detected_at.clone(),
        kernel_truth: crate::kernel_whisper::KernelTruth {
            throttled_percent_tenths: s.kernel_truth.throttled_percent_tenths,
            actual_cpu_millicores: s.kernel_truth.actual_cpu_millicores,
        },
        metrics_lie: crate::kernel_whisper::MetricsLie {
            cpu_percent_tenths: s.metrics_lie.cpu_percent_tenths,
            reported_status: s.metrics_lie.reported_status.clone(),
        },
        severity: s.severity,
    }
}

/// Replaces the content of an existing throttle observation with the content
/// of the incoming one: the upsert is last-writer-wins on the spec, under the
/// existing resource's metadata.
pub fn replace_kernel_whisper(existing: &KernelWhisper, incoming: &KernelWhisper) -> (r:
    KernelWhisper)
    ensures
        r.metadata == existing.metadata,
        r.spec == incoming.spec,
{
    KernelWhisper { metadata: clone_meta(&existing.metadata), spec: clone_whisper_spec(&incoming.spec) }
}

/// A saturating sum of two `u32` counters.
pub open spec fn sat_add_u32(a: int, b: int) -> int {
    if a + b > u32::MAX {
        u32::MAX as int
    } else {
        a + b
    }
}

/// A saturating sum of two `u64` counters.
pub open spec fn sat_add_u64(a: int, b: int) -> int {
    if a + b > u64::MAX {
        u64::MAX as int
    } else {
        a + b
    }
}

/// Merges an incoming creation observation into an existing one: the timeline
/// entries are appended in order, and the syscall, cgroup-write and duration
/// counters are summed (saturating at the counters' width). The namespace and
/// iptables counters, the identity and the metadata stay with the existing
/// resource.
pub fn merge_pod_birth_certificate(
    existing: &PodBirthCertificate,
    incoming: &PodBirthCertificate,
) -> (r: PodBirthCertificate)
    ensures
        r.metadata == existing.metadata,
        r.spec.pod_name == existing.spec.pod_name,
        r.spec.namespace == existing.spec.namespace,
        r.spec.timeline@ == existing.spec.timeline@ + incoming.spec.timeline@,
        r.spec.kernel_stats.total_syscalls == sat_add_u32(
            existing.spec.kernel_stats.total_syscalls as int,
            incoming.spec.kernel_stats.total_syscalls as int,
        ),
        r.spec.kernel_stats.cgroup_writes == sat_add_u32(
            existing.spec.kernel_stats.cgroup_writes as int,
            incoming.spec.kernel_stats.cgroup_writes as int,
        ),
        r.spec.kernel_stats.total_duration_ms == sat_add_u64(
            existing.spec.kernel_stats.total_duration_ms as int,
            incoming.spec.kernel_stats.total_duration_ms as int,
        ),
        r.spec.kernel_stats.namespaces_created == existing.spec.kernel_stats.namespaces_created,
        r.spec.kernel_stats.iptables_rules == existing.spec.kernel_stats.iptables_rules,
{
    let mut timeline: Vec<TimelineEntry> = Vec::new();
    let mut i: usize = 0;
    while i < existing.spec.timeline.len()
        invariant
            i <= existing.spec.timeline@.len(),
            timeline@ =~= existing.spec.timeline@.subrange(0, i as int),
        decreases existing.spec.timeline@.len() - i,
    {
        timeline.push(clone_entry(&existing.spec.timeline[i]));
        proof {
            assert(existing.spec.timeline@.subrange(0, i + 1 as int)
                =~= existing.spec.timeline@.subrange(0, i as int).push(
                existing.spec.timeline@[i as int],
            ));
        }
        i = i + 1;
    }
    proof {
        assert(existing.spec.timeline@.subrange(0, existing.spec.timeline@.len() as int)
            =~= existing.spec.timeline@);
    }
    let mut j: usize = 0;
    while j < incoming.spec.timeline.len()
        invariant
            j <= incoming.spec.timeline@.len(),
            timeline@ =~= existing.spec.timeline@ + incoming.spec.timeline@.subrange(0, j as int),
        decreases incoming.spec.timeline@.len() - j,
    {
        timeline.push(clone_entry(&incoming.spec.timeline[j]));
        proof {
            assert(existing.spec.timeline@ + incoming.spec.timeline@.subrange(0, j + 1 as int)
                =~= (existing.spec.timeline@ + incoming.spec.timeline@.subrange(0, j as int)).push(
                incoming.spec.timeline@[j as int],
            ));
        }
        j = j + 1;
    }
    proof {
        assert(existing.spec.timeline@ + incoming.spec.timeline@.subrange(
            0,
            incoming.spec.timeline@.len() as int,
        ) =~= existing.spec.timeline@ + incoming.spec.timeline@);
    }
    let total_syscalls = sat_add32(
        existing.spec.kernel_stats.total_syscalls,
        incoming.spec.kernel_stats.total_syscalls,
    );
    let cgroup_writes = sat_add32(
        existing.spec.kernel_stats.cgroup_writes,
        incoming.spec.kernel_stats.cgroup_writes,
    );
    let total_duration_ms = sat_add64(
        existing.spec.kernel_stats.total_duration_ms,
        incoming.spec.kernel_stats.total_duration_ms,
    );
    let r = PodBirthCertificate {
        metadata: clone_meta(&existing.metadata),
        spec: crate::pod_birth_certificate::PodBirthCertificateSpec {
            pod_name: existing.spec.pod_name.clone(),
            namespace: existing.spec.namespace.clone(),
            timeline,
            kernel_stats: crate::pod_birth_certificate::KernelStats {
                total_syscalls,
                namespaces_created: existing.spec.kernel_stats.namespaces_created,
                cgroup_writes,
                iptables_rules: existing.spec.kernel_stats.iptables_rules,
                total_duration_ms,
            },
        },
    };
    r
}

/// Adds two `u32` counters, saturating at the width.
pub(crate) fn sat_add32(a: u32, b: u32) -> (r: u32)
    ensures
        r == sat_add_u32(a as int, b as int),
{
    if a > u32::MAX - b {
        u32::MAX
    } else {
        a + b
    }
}

/// Adds two `u64` counters, saturating at the width.
pub(crate) fn sat_add64(a: u64, b: u64) -> (r: u64)
    ensures
        r == sat_add_u64(a as int, b as int),
{
    if a > u64::MAX - b {
        u64::MAX
    } else {
        a + b
    }
}

/// Resource names are pure functions of the pod name: two payloads for the
/// same pod always produce resources of the same stable name, for either
/// kind, so an upsert can never create a second resource of the same kind for
/// one pod.
pub proof fn lemma_stable_names(pod_a: Seq<char>, pod_b: Seq<char>)
    requires
        pod_a == pod_b,
    ensures
        whisper_name_of(pod_a) == whisper_name_of(pod_b),
        pbc_name_of(pod_a) == pbc_name_of(pod_b),
        birth_name_of(pod_a) == birth_name_of(pod_b),
{
}

/// Two upserts under one stable throttle name leave a single resource whose
/// content is exactly the last event's content: replacement is last-writer-
/// wins, and the metadata — the stable name — never moves.
pub proof fn lemma_throttle_upsert_last_writer(
    existing: KernelWhisper,
    first: KernelWhisper,
    second: KernelWhisper,
    after_first: KernelWhisper,
    after_second: KernelWhisper,
)
    requires
        after_first.metadata == existing.metadata,
        after_first.spec == first.spec,
        after_second.metadata == after_first.metadata,
        after_second.spec == second.spec,
    ensures
        after_second.metadata == existing.metadata,
        after_second.spec == second.spec,
        second.severity_consistent() ==> after_second.severity_consistent(),
{
}

/// Two merges under one stable creation name accumulate both events: the
/// final timeline is the concatenation of all three, and — where the sums
/// stay in range — the counters are the sums of all three.
pub proof fn lemma_creation_upserts_accumulate(
    existing: PodBirthCertificate,
    first: PodBirthCertificate,
    second: PodBirthCertificate,
    m1: PodBirthCertificate,
    m2: PodBirthCertificate,
)
    requires
        m1.metadata == existing.metadata,
        m1.spec.timeline@ == existing.spec.timeline@ + first.spec.timeline@,
        m1.spec.kernel_stats.total_syscalls == sat_add_u32(
            existing.spec.kernel_stats.total_syscalls as int,
            first.spec.kernel_stats.total_syscalls as int,
        ),
        m1.spec.kernel_stats.cgroup_writes == sat_add_u32(
            existing.spec.kernel_stats.cgroup_writes as int,
            first.spec.kernel_stats.cgroup_writes as int,
        ),
        m1.spec.kernel_stats.total_duration_ms == sat_add_u64(
            existing.spec.kernel_stats.total_duration_ms as int,
            first.spec.kernel_stats.total_duration_ms as int,
        ),
        m2.metadata == m1.metadata,
        m2.spec.timeline@ == m1.spec.timeline@ + second.spec.timeline@,
        m2.spec.kernel_stats.total_syscalls == sat_add_u32(
            m1.spec.kernel_stats.total_syscalls as int,
            second.spec.kernel_stats.total_syscalls as int,
        ),
        m2.spec.kernel_stats.cgroup_writes == sat_add_u32(
            m1.spec.kernel_stats.cgroup_writes as int,
            second.spec.kernel_stats.cgroup_writes as int,
        ),
        m2.spec.kernel_stats.total_duration_ms == sat_add_u64(
            m1.spec.kernel_stats.total_duration_ms as int,
            second.spec.kernel_stats.total_duration_ms as int,
        ),
    ensures
        m2.metadata == existing.metadata,
        m2.spec.timeline@ == existing.spec.timeline@ + first.spec.timeline@
            + second.spec.timeline@,
        existing.spec.kernel_stats.total_syscalls + first.spec.kernel_stats.total_syscalls
            + second.spec.kernel_stats.total_syscalls <= u32::MAX
            ==> m2.spec.kernel_stats.total_syscalls == existing.spec.kernel_stats.total_syscalls
            + first.spec.kernel_stats.total_syscalls + second.spec.kernel_stats.total_syscalls,
        existing.spec.kernel_stats.cgroup_writes + first.spec.kernel_stats.cgroup_writes
            + second.spec.kernel_stats.cgroup_writes <= u32::MAX
            ==> m2.spec.kernel_stats.cgroup_writes == existing.spec.kernel_stats.cgroup_writes
            + first.spec.kernel_stats.cgroup_writes + second.spec.kernel_stats.cgroup_writes,
        existing.spec.kernel_stats.total_duration_ms + first.spec.kernel_stats.total_duration_ms
            + second.spec.kernel_stats.total_duration_ms <= u64::MAX
            ==> m2.spec.kernel_stats.total_duration_ms
            == existing.spec.kernel_stats.total_duration_ms
            + first.spec.kernel_stats.total_duration_ms
            + second.spec.kernel_stats.total_duration_ms,
{
}

/// Merging keeps the creation observation well formed: where both sides are
/// well formed and the incoming timeline begins no earlier than the existing
/// timeline ends — per-pod events are processed in stream order — the merged
/// timeline is non-empty and its timestamps never decrease.
pub proof fn lemma_merge_preserves_wf(
    existing: PodBirthCertificate,
    incoming: PodBirthCertificate,
    merged: PodBirthCertificate,
)
    requires
        existing.wf(),
        timeline_sorted(incoming.spec.timeline@),
        incoming.spec.timeline@.len() > 0 ==> existing.spec.timeline@.last().timestamp_ms
            <= incoming.spec.timeline@[0].timestamp_ms,
        merged.spec.timeline@ == existing.spec.timeline@ + incoming.spec.timeline@,
        merged.spec.kernel_stats.namespaces_created
            == existing.spec.kernel_stats.namespaces_created,
    ensures
        merged.wf(),
{
    let e = existing.spec.timeline@;
    let c = incoming.spec.timeline@;
    let m = merged.spec.timeline@;
    assert forall|i: int, j: int| 0 <= i < j < m.len() implies m[i].timestamp_ms
        <= m[j].timestamp_ms by {
        if j < e.len() {
            assert(m[i] == e[i] && m[j] == e[j]);
        } else if i >= e.len() {
            assert(m[i] == c[i - e.len()] && m[j] == c[j - e.len()]);
        } else {
            assert(m[i] == e[i] && m[j] == c[j - e.len()]);
            assert(e[i].timestamp_ms <= e[e.len() - 1].timestamp_ms);
            assert(c[0].timestamp_ms <= c[j - e.len()].timestamp_ms);
        }
    }
}

} // verus!
