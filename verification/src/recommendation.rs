//! The recommendation engine: a pure function from a throttle observation to
//! operator insight, or to nothing where the pod is healthy enough.

use vstd::prelude::*;

use crate::kernel_whisper::KernelWhisper;
use crate::strutil::{format_tenths, tenths_str};

verus! {

/// Operator insight derived from one throttle observation.
#[derive(Clone, Debug)]
pub struct Recommendation {
    pub insight: String,
    pub suggested_action: String,
    pub kernel_evidence: String,
    pub priority: String,
}

/// The insight line for high throttling.
pub open spec fn insight_high_spec(pod: Seq<char>, tenths: int) -> Seq<char> {
    "Pod "@ + pod + " is experiencing high CPU throttling at "@ + tenths_str(tenths) + "%"@
}

/// The insight line for moderate throttling.
pub open spec fn insight_moderate_spec(pod: Seq<char>, tenths: int) -> Seq<char> {
    "Pod "@ + pod + " is experiencing moderate CPU throttling at "@ + tenths_str(tenths) + "%"@
}

/// The kernel-evidence line.
pub open spec fn evidence_spec(tenths: int) -> Seq<char> {
    "Kernel shows "@ + tenths_str(tenths) + "% throttled time in recent period"@
}

/// The engine: stateless, deterministic, no I/O and no time source.
pub struct RecommendationEngine {}

impl RecommendationEngine {
    /// Builds the engine.
    pub fn new() -> (r: RecommendationEngine)
        ensures
            r == (RecommendationEngine {  }),
    {
        RecommendationEngine {  }
    }

    /// Derives a recommendation from a throttle observation: high-priority
    /// advice at 80 % throttling or above, medium-priority advice at 40 % or
    /// above, nothing below that.
    pub fn analyze_kernel_whisper(&self, kw: &KernelWhisper) -> (r: Option<Recommendation>)
        ensures
            ({
                let t = kw.spec.kernel_truth.throttled_percent_tenths;
                match r {
                    Some(rec) => {
                        &&& t >= 400
                        &&& rec.kernel_evidence@ == evidence_spec(t as int)
                        &&& if t >= 800 {
                            &&& rec.insight@ == insight_high_spec(kw.spec.pod_name@, t as int)
                            &&& rec.suggested_action@
                                == "Consider increase CPU limits by 50% to prevent throttling"@
                            &&& rec.priority@ == "high"@
                        } else {
                            &&& rec.insight@ == insight_moderate_spec(kw.spec.pod_name@, t as int)
                            &&& rec.suggested_action@
                                == "monitor CPU usage patterns and consider optimization"@
                            &&& rec.priority@ == "medium"@
                        }
                    },
                    None => t < 400,
                }
            }),
    {
        let t = kw.spec.kernel_truth.throttled_percent_tenths;
        if t >= 800 {
            let mut insight = String::new();
            insight.append("Pod ");
            insight.append(kw.pod_name());
            insight.append(" is experiencing high CPU throttling at ");
            insight.append(format_tenths(t).as_str());
            insight.append("%");
            Some(Recommendation {
                insight,
                suggested_action: "Consider increase CPU limits by 50% to prevent throttling"
                    .to_owned(),
                kernel_evidence: Self::evidence_line(t),
                priority: "high".to_owned(),
            })
        } else if t >= 400 {
            let mut insight = String::new();
            insight.append("Pod ");
            insight.append(kw.pod_name());
            insight.append(" is experiencing moderate CPU throttling at ");
            insight.append(format_tenths(t).as_str());
            insight.append("%");
            Some(Recommendation {
                insight,
                suggested_action: "monitor CPU usage patterns and consider optimization"
                    .to_owned(),
                kernel_evidence: Self::evidence_line(t),
                priority: "medium".to_owned(),
            })
        } else {
            None
        }
    }

    /// Builds the kernel-evidence line for a throttled percentage.
    fn evidence_line(tenths: u64) -> (r: String)
        ensures
            r@ == evidence_spec(tenths as int),
    {
        let mut s = String::new();
        s.append("Kernel shows ");
        s.append(format_tenths(tenths).as_str());
        s.append("% throttled time in recent period");
        s
    }
}

impl Default for RecommendationEngine {
    /// The engine carries no state; the default is the engine itself.
    fn default() -> (r: RecommendationEngine)
        ensures
            r == (RecommendationEngine {  }),
    {
        RecommendationEngine::new()
    }
}

} // verus!
