use vstd::prelude::*;
use crate::types::{AdmissionDecision, LlmResponse, Query};

verus! {

/// Admits responses that took at least `min_latency_ms` to produce: slow
/// answers are the ones worth caching.
pub struct LatencyPolicy {
    pub min_latency_ms: u64,
}

impl LatencyPolicy {
    pub fn new(min_latency_ms: u64) -> (r: Self)
        ensures
            r.min_latency_ms == min_latency_ms,
    {
        Self { min_latency_ms }
    }

    pub fn evaluate(&self, query: &Query, response: &LlmResponse) -> (r: AdmissionDecision)
        ensures
            r == (if response.latency_ms >= self.min_latency_ms {
                AdmissionDecision::Accept
            } else {
                AdmissionDecision::Deny
            }),
    {
        if response.latency_ms >= self.min_latency_ms {
            AdmissionDecision::Accept
        } else {
            AdmissionDecision::Deny
        }
    }
}

} // verus!
