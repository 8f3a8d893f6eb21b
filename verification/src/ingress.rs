//! Ingress controller logic: content-type validation, the system-namespace
//! filter, the monitoring annotation gate, and the decision of what to upsert
//! for one webhook payload.
//!
//! The unverified rim only carries bytes and store calls: it parses the body,
//! looks the pod up, hands both to `handle_webhook_payload`, and executes the
//! upsert this module decided on.

use vstd::prelude::*;

use crate::actions::{build_kernel_whisper_for_upsert, build_pod_birth_certificate};
use crate::kernel_whisper::KernelWhisper;
use crate::pod_birth_certificate::PodBirthCertificate;
use crate::strutil::{find_spec, find_sub, lemma_find_spec, lemma_match_at_skip, match_at, starts_with, str_eq};
use crate::webhook::EbpfWebhookPayload;

verus! {

/// Whether a namespace matches the `gke-` system pattern: a `gke-` segment
/// followed, at or after its end, by a `-system` segment.
pub open spec fn matches_gke_system(ns: Seq<char>) -> bool {
    exists|i: int, j: int|
        match_at(ns, "gke-"@, i) && match_at(ns, "-system"@, j) && j >= i + 4
}

/// Whether a namespace is one of the system namespaces whose events are
/// dropped: the three kube namespaces, any `gke-…-system…` namespace, and any
/// namespace mentioning `gmp-system`.
pub open spec fn is_system_namespace_spec(ns: Seq<char>) -> bool {
    ||| ns == "kube-system"@
    ||| ns == "kube-public"@
    ||| ns == "kube-node-lease"@
    ||| matches_gke_system(ns)
    ||| find_spec(ns, "gmp-system"@) is Some
}

/// Tests a namespace against the system set.
pub fn is_system_namespace(ns: &str) -> (r: bool)
    ensures
        r == is_system_namespace_spec(ns@),
{
    if str_eq(ns, "kube-system") || str_eq(ns, "kube-public") || str_eq(ns, "kube-node-lease") {
        return true;
    }
    if contains_gmp_system(ns) {
        return true;
    }
    gke_system_match(ns)
}

/// Whether the namespace mentions `gmp-system`.
fn contains_gmp_system(ns: &str) -> (r: bool)
    ensures
        r == (find_spec(ns@, "gmp-system"@) is Some),
{
    find_sub(ns, "gmp-system").is_some()
}

/// Tests the `gke-…-system…` pattern.
fn gke_system_match(ns: &str) -> (r: bool)
    ensures
        r == matches_gke_system(ns@),
{
    proof {
        reveal_strlit("gke-");
        reveal_strlit("-system");
    }
    let i0 = match find_sub(ns, "gke-") {
        Some(i) => i,
        None => {
            proof {
                lemma_find_spec(ns@, "gke-"@);
            }
            return false;
        },
    };
    proof {
        lemma_find_spec(ns@, "gke-"@);
    }
    let n = ns.unicode_len();
    let rest = ns.substring_char(i0 + 4, n);
    let hit = find_sub(rest, "-system");
    proof {
        lemma_find_spec(rest@, "-system"@);
        match find_spec(rest@, "-system"@) {
            Some(j) => {
                lemma_match_at_skip(ns@, "-system"@, i0 + 4 as int, j);
                assert(ns@.skip(i0 + 4 as int) =~= rest@);
                assert(match_at(ns@, "-system"@, j + i0 + 4));
                assert(matches_gke_system(ns@));
            },
            None => {
                if matches_gke_system(ns@) {
                    let (i, j) = choose|i: int, j: int|
                        match_at(ns@, "gke-"@, i) && match_at(ns@, "-system"@, j) && j >= i + 4;
                    assert(i >= i0);
                    assert(j >= i0 + 4);
                    lemma_match_at_skip(ns@, "-system"@, i0 + 4 as int, j - i0 - 4);
                    assert(ns@.skip(i0 + 4 as int) =~= rest@);
                    assert(match_at(rest@, "-system"@, j - i0 - 4));
                }
            },
        }
    }
    hit.is_some()
}

/// Whether a `Content-Type` header value announces a JSON body.
pub fn content_type_acceptable(header: Option<&str>) -> (r: bool)
    ensures
        r == match header {
            Some(h) => match_at(h@, "application/json"@, 0),
            None => false,
        },
{
    match header {
        Some(h) => starts_with(h, "application/json"),
        None => false,
    }
}

/// Whether a pod's monitoring annotation value opts the pod in.
pub fn annotation_enables_monitoring(value: Option<&str>) -> (r: bool)
    ensures
        r == match value {
            Some(v) => v@ == "true"@,
            None => false,
        },
{
    match value {
        Some(v) => str_eq(v, "true"),
        None => false,
    }
}

/// The annotation that opts a pod into monitoring.
pub fn monitor_annotation_key() -> (r: &'static str)
    ensures
        r@ == "kernel-gossip.io/monitor"@,
{
    "kernel-gossip.io/monitor"
}

/// What the ingress controller knows about the payload's pod: unseen in the
/// store, or seen with the monitoring annotation evaluated.
#[derive(Clone, Copy, Debug, PartialEq, Eq, Structural)]
pub enum PodGate {
    Unknown,
    Known { monitored: bool },
}

/// The response body the controller answers with.
#[derive(Clone, Debug)]
pub struct WebhookResponse {
    pub status: String,
    pub message: String,
}

/// What the controller decided for one payload: a skip answered with a
/// `skipped` response and no store mutation, or a resource to upsert.
pub enum WebhookOutcome {
    Skipped { response: WebhookResponse },
    UpsertWhisper { resource: KernelWhisper, response: WebhookResponse },
    UpsertBirth { resource: PodBirthCertificate, response: WebhookResponse },
}

/// Whether a throttle payload passes the gates: the namespace must not be a
/// system namespace, and the pod must be known and monitored — a missing pod
/// is not our pod.
pub open spec fn throttle_admitted(ns: Seq<char>, pod: PodGate) -> bool {
    &&& !is_system_namespace_spec(ns)
    &&& pod == (PodGate::Known { monitored: true })
}

/// Whether a creation payload passes the gates: the namespace must not be a
/// system namespace; the pod may be unseen (the event precedes API
/// visibility), but a pod known to lack the annotation is skipped.
pub open spec fn creation_admitted(ns: Seq<char>, pod: PodGate) -> bool {
    &&& !is_system_namespace_spec(ns)
    &&& pod != (PodGate::Known { monitored: false })
}

/// Decides one webhook payload against the gates: the outcome is a `skipped`
/// response with no resource, or the resource to upsert under its stable name
/// with an `accepted` response. The upserted resource is the one that
/// `build_kernel_whisper_for_upsert` or `build_pod_birth_certificate` builds
/// for the payload; the clauses here repeat the identity-bearing parts.
pub fn handle_webhook_payload(payload: &EbpfWebhookPayload, pod: PodGate) -> (r: WebhookOutcome)
    requires
        match payload {
            EbpfWebhookPayload::CpuThrottle(p) => p.throttle_percentage_tenths <= 1000,
            EbpfWebhookPayload::PodCreation(_) => true,
        },
    ensures
        match payload {
            EbpfWebhookPayload::CpuThrottle(p) => match r {
                WebhookOutcome::Skipped { response } => {
                    &&& !throttle_admitted(p.namespace@, pod)
                    &&& response.status@ == "skipped"@
                },
                WebhookOutcome::UpsertWhisper { resource, response } => {
                    &&& throttle_admitted(p.namespace@, pod)
                    &&& resource.metadata.name matches Some(n) && n@ == crate::kernel_whisper::whisper_name_of(p.pod_name@)
                    &&& resource.spec.pod_name@ == p.pod_name@
                    &&& resource.spec.namespace@ == p.namespace@
                    &&& resource.spec.kernel_truth.throttled_percent_tenths == p.throttle_percentage_tenths
                    &&& resource.spec.kernel_truth.actual_cpu_millicores == p.actual_cpu_usage_millicores
                    &&& resource.spec.metrics_lie.cpu_percent_tenths == p.reported_cpu_usage_millicores
                    &&& resource.spec.detected_at@ == p.timestamp@
                    &&& resource.severity_consistent()
                    &&& response.status@ == "accepted"@
                },
                WebhookOutcome::UpsertBirth { .. } => false,
            },
            EbpfWebhookPayload::PodCreation(p) => match r {
                WebhookOutcome::Skipped { response } => {
                    &&& !creation_admitted(p.namespace@, pod)
                    &&& response.status@ == "skipped"@
                },
                WebhookOutcome::UpsertBirth { resource, response } => {
                    &&& creation_admitted(p.namespace@, pod)
                    &&& resource.metadata.name matches Some(n) && n@ == crate::actions::pbc_name_of(p.pod_name@)
                    &&& resource.spec.pod_name@ == p.pod_name@
                    &&& resource.spec.namespace@ == p.namespace@
                    &&& resource.spec.timeline@.len() == 1
                    &&& resource.spec.kernel_stats.total_syscalls == p.total_syscalls as u32
                    &&& resource.spec.kernel_stats.cgroup_writes == p.cgroup_writes as u32
                    &&& resource.spec.kernel_stats.total_duration_ms == p.duration_ns / 1_000_000
                    &&& resource.wf()
                    &&& response.status@ == "accepted"@
                },
                WebhookOutcome::UpsertWhisper { .. } => false,
            },
        },
{
    match payload {
        EbpfWebhookPayload::CpuThrottle(p) => {
            if is_system_namespace(p.namespace.as_str()) {
                return WebhookOutcome::Skipped {
                    response: skipped_response(p.pod_name.as_str(), " is in a system namespace"),
                };
            }
            match pod {
                PodGate::Known { monitored: true } => {
                    let resource = build_kernel_whisper_for_upsert(p);
                    WebhookOutcome::UpsertWhisper { resource, response: accepted_response() }
                },
                PodGate::Known { monitored: false } => WebhookOutcome::Skipped {
                    response: skipped_response(
                        p.pod_name.as_str(),
                        " not configured for monitoring",
                    ),
                },
                PodGate::Unknown => WebhookOutcome::Skipped {
                    response: skipped_response(
                        p.pod_name.as_str(),
                        " not found or is system process",
                    ),
                },
            }
        },
        EbpfWebhookPayload::PodCreation(p) => {
            if is_system_namespace(p.namespace.as_str()) {
                return WebhookOutcome::Skipped {
                    response: skipped_response(p.pod_name.as_str(), " is in a system namespace"),
                };
            }
            match pod {
                PodGate::Known { monitored: false } => WebhookOutcome::Skipped {
                    response: skipped_response(
                        p.pod_name.as_str(),
                        " not configured for monitoring",
                    ),
                },
                _ => {
                    let resource = build_pod_birth_certificate(p);
                    WebhookOutcome::UpsertBirth { resource, response: accepted_response() }
                },
            }
        },
    }
}

/// Builds a `skipped` response naming the pod and the reason.
fn skipped_response(pod_name: &str, reason: &str) -> (r: WebhookResponse)
    ensures
        r.status@ == "skipped"@,
        r.message@ == "Pod "@ + pod_name@ + reason@,
{
    let mut message = String::new();
    message.append("Pod ");
    message.append(pod_name);
    message.append(reason);
    WebhookResponse { status: "skipped".to_owned(), message }
}

/// Builds the `accepted` response.
fn accepted_response() -> (r: WebhookResponse)
    ensures
        r.status@ == "accepted"@,
        r.message@ == "Webhook payload processed"@,
{
    WebhookResponse {
        status: "accepted".to_owned(),
        message: "Webhook payload processed".to_owned(),
    }
}

} // verus!
