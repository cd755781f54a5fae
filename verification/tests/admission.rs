use semantiq::admission::composite::{composite_next, CompositeStep};
use semantiq::admission::frequency::{FrequencyPolicy, FrequencyStep, ScoreReply};
use semantiq::admission::latency::LatencyPolicy;
use semantiq::types::{AdmissionDecision, LlmResponse, Query};

const ACCEPT: AdmissionDecision = AdmissionDecision::Accept;
const DENY: AdmissionDecision = AdmissionDecision::Deny;

fn response(status_ok: bool, latency_ms: u64) -> LlmResponse {
    LlmResponse { content: "answer".to_string(), status_ok, latency_ms }
}

fn query() -> Query {
    Query::from_raw("What is Rust?")
}

#[test]
fn latency_policy_accepts_slow_answers() {
    let p = LatencyPolicy::new(500);
    assert_eq!(p.min_latency_ms, 500);
    let q = query();
    assert_eq!(p.evaluate(&q, &response(true, 500)), AdmissionDecision::Accept);
    assert_eq!(p.evaluate(&q, &response(true, 900)), AdmissionDecision::Accept);
    assert_eq!(p.evaluate(&q, &response(true, 499)), AdmissionDecision::Deny);
    assert_eq!(LatencyPolicy::new(0).evaluate(&q, &response(false, 0)), AdmissionDecision::Accept);
}

#[test]
fn frequency_policy_denies_failed_responses_without_counting() {
    let p = FrequencyPolicy::new(3);
    let q = query();
    match p.begin(&q, &response(false, 10)) {
        FrequencyStep::Decided(d) => assert_eq!(d, AdmissionDecision::Deny),
        FrequencyStep::Increment { .. } => panic!("a failed response must not be counted"),
    }
}

#[test]
fn frequency_policy_counts_successful_responses() {
    let p = FrequencyPolicy::new(3);
    let q = query();
    match p.begin(&q, &response(true, 10)) {
        FrequencyStep::Increment { set_key, member } => {
            assert_eq!(set_key, "semantiq:query_frequency");
            assert_eq!(member, q.hash);
        }
        FrequencyStep::Decided(_) => panic!("a successful response is counted"),
    }
}

#[test]
fn frequency_policy_decides_on_the_score() {
    let p = FrequencyPolicy::new(3);
    assert_eq!(p.threshold, 3);
    assert_eq!(p.finish(ScoreReply::Scored { reaches_threshold: true }), AdmissionDecision::Accept);
    assert_eq!(p.finish(ScoreReply::Scored { reaches_threshold: false }), AdmissionDecision::Deny);
    assert_eq!(p.finish(ScoreReply::Failed), AdmissionDecision::Deny);
}

#[test]
fn composite_asks_policies_in_order() {
    assert_eq!(composite_next(2, &vec![]), CompositeStep::Evaluate(0));
    assert_eq!(composite_next(2, &vec![AdmissionDecision::Accept]), CompositeStep::Evaluate(1));
    assert_eq!(
        composite_next(2, &vec![AdmissionDecision::Accept, AdmissionDecision::Accept]),
        CompositeStep::Decided(AdmissionDecision::Accept)
    );
}

#[test]
fn composite_stops_at_first_denial() {
    assert_eq!(
        composite_next(3, &vec![AdmissionDecision::Deny]),
        CompositeStep::Decided(AdmissionDecision::Deny)
    );
    assert_eq!(
        composite_next(3, &vec![AdmissionDecision::Accept, AdmissionDecision::Deny]),
        CompositeStep::Decided(AdmissionDecision::Deny)
    );
}

#[test]
fn empty_composite_accepts() {
    assert_eq!(composite_next(0, &vec![]), CompositeStep::Decided(AdmissionDecision::Accept));
}

#[test]
fn composite_run_is_a_conjunction() {
    // Drive the steps as the proxy does, with fixed policy outcomes.
    let run = |outcomes: &[AdmissionDecision]| {
        let mut heard = Vec::new();
        loop {
            match composite_next(outcomes.len(), &heard) {
                CompositeStep::Evaluate(i) => heard.push(outcomes[i]),
                CompositeStep::Decided(d) => return (d, heard.len()),
            }
        }
    };
    assert_eq!(run(&[ACCEPT, ACCEPT, ACCEPT]), (ACCEPT, 3));
    assert_eq!(run(&[ACCEPT, DENY, ACCEPT]), (DENY, 2));
    assert_eq!(run(&[DENY, DENY]), (DENY, 1));
}
