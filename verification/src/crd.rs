//! Reconciler logic: validating stored resources, deriving the status string
//! and the requeue cadence from a throttle observation.
//!
//! Everything here is a pure function of the resource and, where a timestamp
//! appears, of an explicitly passed clock reading: re-running on identical
//! state yields identical status content up to that timestamp.

use vstd::prelude::*;

use crate::clock;
use crate::kernel_whisper::{KernelWhisper, Severity};
use crate::pod_birth_certificate::PodBirthCertificate;
use crate::recommendation::{
    evidence_spec, insight_high_spec, insight_moderate_spec, Recommendation, RecommendationEngine,
};

verus! {

/// Marker for the controller that watches creation observations.
pub struct PodBirthCertificateController;

/// Marker for the controller that watches throttle observations.
pub struct KernelWhisperController;

/// Validates a creation observation: a stored resource must carry a name.
pub fn reconcile_logic_pod_birth(pbc: &PodBirthCertificate) -> (r: Result<(), String>)
    ensures
        match r {
            Ok(_) => pbc.metadata.name matches Some(n) && n@.len() > 0,
            Err(m) => {
                &&& match pbc.metadata.name {
                    Some(n) => n@.len() == 0,
                    None => true,
                }
                &&& m@ == "PodBirthCertificate has no name"@
            },
        },
{
    let name = pbc.metadata.name_or_empty();
    if name.unicode_len() == 0 {
        Err("PodBirthCertificate has no name".to_owned())
    } else {
        Ok(())
    }
}

/// What the reconciler decided about one throttle observation.
pub struct ReconcileAction {
    pub severity: String,
    pub needs_attention: bool,
}

/// The lowercase label of a severity.
pub open spec fn severity_label_spec(s: Severity) -> Seq<char> {
    match s {
        Severity::Critical => "critical"@,
        Severity::Warning => "warning"@,
        Severity::Info => "info"@,
    }
}

impl ReconcileAction {
    /// The severity label the reconciler derived.
    pub fn severity_level(&self) -> (r: &str)
        ensures
            r@ == self.severity@,
    {
        self.severity.as_str()
    }

    /// Whether the observation needs operator attention.
    pub fn requires_attention(&self) -> (r: bool)
        ensures
            r == self.needs_attention,
    {
        self.needs_attention
    }
}

/// Derives the reconcile action of a throttle observation: the severity
/// label, and attention exactly for critical observations.
pub fn reconcile_logic_kernel_whisper(kw: &KernelWhisper) -> (r: ReconcileAction)
    ensures
        r.severity@ == severity_label_spec(kw.spec.severity),
        r.needs_attention == (kw.spec.severity == Severity::Critical),
{
    match kw.spec.severity {
        Severity::Critical => ReconcileAction { severity: "critical".to_owned(), needs_attention: true },
        Severity::Warning => ReconcileAction { severity: "warning".to_owned(), needs_attention: false },
        Severity::Info => ReconcileAction { severity: "info".to_owned(), needs_attention: false },
    }
}

/// The requeue cadence of a severity, in seconds: critical every minute,
/// warning every three, info every ten.
pub open spec fn requeue_secs_spec(s: Severity) -> int {
    match s {
        Severity::Critical => 60,
        Severity::Warning => 180,
        Severity::Info => 600,
    }
}

/// Computes the requeue cadence of a severity in seconds.
pub fn calculate_requeue_duration(severity: &Severity) -> (r: u64)
    ensures
        r == requeue_secs_spec(*severity),
{
    match severity {
        Severity::Critical => 60,
        Severity::Warning => 180,
        Severity::Info => 600,
    }
}

/// The status string recording a recommendation at a point in time.
pub open spec fn status_with_recommendation_spec(
    insight: Seq<char>,
    action: Seq<char>,
    evidence: Seq<char>,
    priority: Seq<char>,
    timestamp: Seq<char>,
) -> Seq<char> {
    "INSIGHT: "@ + insight + " | ACTION: "@ + action + " | EVIDENCE: "@ + evidence
        + " | PRIORITY: "@ + priority + " | UPDATED: "@ + timestamp
}

/// The status string for an observation that needs no action.
pub open spec fn status_no_action_spec(message: Seq<char>, timestamp: Seq<char>) -> Seq<char> {
    "STATUS: "@ + message + " - System is healthy | UPDATED: "@ + timestamp
}

/// Renders a recommendation into the status string, against an explicit
/// timestamp.
pub fn build_status_update_at(rec: &Recommendation, timestamp: &str) -> (r: String)
    ensures
        r@ == status_with_recommendation_spec(
            rec.insight@,
            rec.suggested_action@,
            rec.kernel_evidence@,
            rec.priority@,
            timestamp@,
        ),
{
    let mut s = String::new();
    s.append("INSIGHT: ");
    s.append(rec.insight.as_str());
    s.append(" | ACTION: ");
    s.append(rec.suggested_action.as_str());
    s.append(" | EVIDENCE: ");
    s.append(rec.kernel_evidence.as_str());
    s.append(" | PRIORITY: ");
    s.append(rec.priority.as_str());
    s.append(" | UPDATED: ");
    s.append(timestamp);
    s
}

/// Renders a recommendation into the status string, stamped with the current
/// UTC time.
pub fn build_status_update(rec: &Recommendation) -> (r: String)
    ensures
        exists|ts: Seq<char>|
            r@ == status_with_recommendation_spec(
                rec.insight@,
                rec.suggested_action@,
                rec.kernel_evidence@,
                rec.priority@,
                ts,
            ),
{
    let now = clock::now_status_timestamp();
    let r = build_status_update_at(rec, now.as_str());
    proof {
        let ts = now@;
        assert(r@ == status_with_recommendation_spec(
            rec.insight@,
            rec.suggested_action@,
            rec.kernel_evidence@,
            rec.priority@,
            ts,
        ));
    }
    r
}

/// Renders the no-action status string against an explicit timestamp.
pub fn build_status_update_no_action_at(message: &str, timestamp: &str) -> (r: String)
    ensures
        r@ == status_no_action_spec(message@, timestamp@),
{
    let mut s = String::new();
    s.append("STATUS: ");
    s.append(message);
    s.append(" - System is healthy | UPDATED: ");
    s.append(timestamp);
    s
}

/// Renders the no-action status string, stamped with the current UTC time.
pub fn build_status_update_no_action(message: &str) -> (r: String)
    ensures
        exists|ts: Seq<char>| r@ == status_no_action_spec(message@, ts),
{
    let now = clock::now_status_timestamp();
    let r = build_status_update_no_action_at(message, now.as_str());
    proof {
        let ts = now@;
        assert(r@ == status_no_action_spec(message@, ts));
    }
    r
}

/// The status content the reconciler persists for a throttle observation at a
/// point in time: the rendered recommendation where the engine produces one,
/// the healthy no-action line otherwise.
pub open spec fn whisper_status_spec(pod: Seq<char>, tenths: int, timestamp: Seq<char>) -> Seq<
    char,
> {
    if tenths >= 800 {
        status_with_recommendation_spec(
            insight_high_spec(pod, tenths),
            "Consider increase CPU limits by 50% to prevent throttling"@,
            evidence_spec(tenths),
            "high"@,
            timestamp,
        )
    } else if tenths >= 400 {
        status_with_recommendation_spec(
            insight_moderate_spec(pod, tenths),
            "monitor CPU usage patterns and consider optimization"@,
            evidence_spec(tenths),
            "medium"@,
            timestamp,
        )
    } else {
        status_no_action_spec("Pod operating within normal parameters"@, timestamp)
    }
}

/// Reconciles one throttle observation against an explicit clock reading:
/// returns the status content to persist and the requeue cadence in seconds.
/// Deterministic in its arguments, so re-running on identical state yields
/// identical status content up to the timestamp.
pub fn reconcile_kernel_whisper_logic(kw: &KernelWhisper, timestamp: &str) -> (r: (String, u64))
    ensures
        r.0@ == whisper_status_spec(
            kw.spec.pod_name@,
            kw.spec.kernel_truth.throttled_percent_tenths as int,
            timestamp@,
        ),
        r.1 == requeue_secs_spec(kw.spec.severity),
{
    let engine = RecommendationEngine::new();
    let status = match engine.analyze_kernel_whisper(kw) {
        Some(rec) => build_status_update_at(&rec, timestamp),
        None => build_status_update_no_action_at("Pod operating within normal parameters", timestamp),
    };
    let requeue = calculate_requeue_duration(&kw.spec.severity);
    (status, requeue)
}

/// The requeue delay for a creation observation, in seconds: an invalid
/// resource backs off for thirty seconds, a valid one is revisited after five
/// minutes.
pub fn reconcile_pod_birth_requeue_secs(pbc: &PodBirthCertificate) -> (r: u64)
    ensures
        r == ({
            match pbc.metadata.name {
                Some(n) => if n@.len() > 0 {
                    300int
                } else {
                    30int
                },
                None => 30int,
            }
        }),
{
    let name = pbc.metadata.name_or_empty();
    if name.unicode_len() == 0 {
        30
    } else {
        300
    }
}

} // verus!
