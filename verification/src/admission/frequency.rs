use vstd::prelude::*;
use crate::cache::FREQ_SET_KEY;
use crate::types::{AdmissionDecision, LlmResponse, Query};

verus! {

/// Admits a query once it has been answered successfully at least
/// `threshold` times. The count lives in a sorted set of the key-value store,
/// one member per query hash.
pub struct FrequencyPolicy {
    pub threshold: u32,
}

/// What the policy asks for after seeing a response.
pub enum FrequencyStep {
    /// Decided without counting: the response is an error.
    Decided(AdmissionDecision),
    /// Add one to the score of `member` in the sorted set `set_key`.
    Increment { set_key: &'static str, member: String },
}

/// What became of the increment.
pub enum ScoreReply {
    /// The store failed.
    Failed,
    /// The store returned the new score; `reaches_threshold` says whether it
    /// is at least the policy's threshold.
    Scored { reaches_threshold: bool },
}

/// The policy's decision for a response, given what the counter replied
/// when asked: only a successful response whose count reaches the
/// threshold is admitted.
pub open spec fn frequency_decision(status_ok: bool, reply: ScoreReply) -> AdmissionDecision {
    if status_ok && reply == (ScoreReply::Scored { reaches_threshold: true }) {
        AdmissionDecision::Accept
    } else {
        AdmissionDecision::Deny
    }
}

impl FrequencyPolicy {
    pub fn new(threshold: u32) -> (r: Self)
        ensures
            r.threshold == threshold,
    {
        Self { threshold }
    }

    /// First half of the evaluation. Errored responses are denied at once,
    /// before anything is counted: failures are never cached.
    pub fn begin(&self, query: &Query, response: &LlmResponse) -> (r: FrequencyStep)
        ensures
            !response.status_ok ==> r == FrequencyStep::Decided(AdmissionDecision::Deny),
            response.status_ok ==> (r matches FrequencyStep::Increment { set_key, member } && set_key@
                == FREQ_SET_KEY@ && member@ == query.hash@),
    {
        if !response.status_ok {
            return FrequencyStep::Decided(AdmissionDecision::Deny);
        }
        FrequencyStep::Increment { set_key: FREQ_SET_KEY, member: query.hash.clone() }
    }

    /// Second half: a failed store denies, otherwise the query is admitted
    /// exactly when its new score reaches the threshold.
    pub fn finish(&self, reply: ScoreReply) -> (r: AdmissionDecision)
        ensures
            r == frequency_decision(true, reply),
            r == AdmissionDecision::Accept <==> reply == (ScoreReply::Scored { reaches_threshold: true }),
    {
        match reply {
            ScoreReply::Failed => AdmissionDecision::Deny,
            ScoreReply::Scored { reaches_threshold } => {
                if reaches_threshold {
                    AdmissionDecision::Accept
                } else {
                    AdmissionDecision::Deny
                }
            },
        }
    }
}

} // verus!

verus! {

/// The frequency policy admits exactly the successful responses whose count
/// reached the threshold: an error response, a failed counter, or a count
/// below the threshold is denied.
pub proof fn lemma_frequency_admits(status_ok: bool, reply: ScoreReply)
    ensures
        frequency_decision(status_ok, reply) == AdmissionDecision::Accept <==> (status_ok && (reply matches ScoreReply::Scored { reaches_threshold } && reaches_threshold)),
        frequency_decision(status_ok, reply) == AdmissionDecision::Deny <==> !(status_ok && (reply matches ScoreReply::Scored { reaches_threshold } && reaches_threshold)),
{
}

} // verus!
