use semantiq::admission::frequency::{FrequencyPolicy, FrequencyStep};
use semantiq::pipeline::{
    AfterCall, AfterEmbedding, AfterLookup, AfterSearch, Embedding, KvLookup, LookingUp,
    SearchOutcome,
};
use semantiq::types::{AdmissionDecision, CacheEntry, CacheResult, LlmResponse, Query};

fn entry() -> CacheEntry {
    CacheEntry {
        id: 42,
        query_hash: "h".to_string(),
        redis_key: "semantiq:resp:h".to_string(),
        created_at_micros: 1_700_000_000_000_000,
    }
}

fn answer(status_ok: bool) -> LlmResponse {
    LlmResponse { content: "Rust is a language".to_string(), status_ok, latency_ms: 800 }
}

fn searching() -> semantiq::pipeline::Searching {
    match Embedding::new(Query::from_raw("What is Rust?")).on_embedded(true) {
        AfterEmbedding::Search(s) => s,
        AfterEmbedding::Fallback(_) => panic!("embedding succeeded"),
    }
}

#[test]
fn embedding_failure_falls_back_to_llm() {
    let q = Query::from_raw("What is Rust?");
    let hash = q.hash.clone();
    match Embedding::new(q).on_embedded(false) {
        AfterEmbedding::Fallback(f) => {
            let reply = f.on_completion(None, 17);
            assert_eq!(reply.body, "upstream error");
            assert_eq!(reply.metrics.query_hash, hash);
            assert!(!reply.metrics.vector_hit && !reply.metrics.kv_hit && !reply.metrics.admitted);
            assert_eq!(reply.metrics.latency_ms, 17);
        }
        AfterEmbedding::Search(_) => panic!("embedding failed"),
    }
}

#[test]
fn fallback_returns_llm_content() {
    match Embedding::new(Query::from_raw("x")).on_embedded(false) {
        AfterEmbedding::Fallback(f) => assert_eq!(f.on_completion(Some(answer(false)), 5).body, "Rust is a language"),
        AfterEmbedding::Search(_) => panic!("embedding failed"),
    }
}

#[test]
fn stages_name_the_text_to_send() {
    let e = Embedding::new(Query::from_raw("  What is RUST?  "));
    assert_eq!(e.text(), "what is rust");
    let c = calling();
    assert_eq!(c.prompt(), "What is Rust?");
    match Embedding::new(Query::from_raw("  Raw Prompt! ")).on_embedded(false) {
        AfterEmbedding::Fallback(f) => assert_eq!(f.prompt(), "  Raw Prompt! "),
        AfterEmbedding::Search(_) => panic!("embedding failed"),
    }
}

#[test]
fn search_miss_and_failure_call_the_llm() {
    for outcome in [SearchOutcome::NoHit, SearchOutcome::Failed] {
        match searching().on_search(outcome) {
            AfterSearch::Call(c) => {
                assert!(!c.vector_hit);
                assert_eq!(c.stale_id, None);
            }
            AfterSearch::Lookup(_) => panic!("no hit"),
        }
    }
}

fn looking_up() -> LookingUp {
    match searching().on_search(SearchOutcome::Hit(entry())) {
        AfterSearch::Lookup(l) => l,
        AfterSearch::Call(_) => panic!("hit"),
    }
}

#[test]
fn hit_reads_the_recorded_key() {
    assert_eq!(looking_up().key(), "semantiq:resp:h");
}

#[test]
fn kv_hit_replies_with_cached_response() {
    let l = looking_up();
    let hash = l.query.hash.clone();
    match l.on_lookup(KvLookup::Found("cached".to_string()), 3) {
        AfterLookup::Reply(r) => {
            assert_eq!(r.body, "cached");
            assert!(r.metrics.vector_hit && r.metrics.kv_hit && !r.metrics.admitted);
            assert_eq!(r.metrics.query_hash, hash);
            assert_eq!(r.metrics.latency_ms, 3);
        }
        AfterLookup::Call(_) => panic!("full hit"),
    }
}

#[test]
fn missing_key_prunes_stale_entry() {
    match looking_up().on_lookup(KvLookup::Missing, 3) {
        AfterLookup::Call(c) => {
            assert!(c.vector_hit);
            assert_eq!(c.stale_id, Some(42));
        }
        AfterLookup::Reply(_) => panic!("key is missing"),
    }
}

#[test]
fn failed_read_is_a_miss() {
    match looking_up().on_lookup(KvLookup::Failed, 3) {
        AfterLookup::Call(c) => {
            assert!(!c.vector_hit);
            assert_eq!(c.stale_id, None);
        }
        AfterLookup::Reply(_) => panic!("read failed"),
    }
}

#[test]
fn cache_result_classifies_layers() {
    assert!(matches!(
        LookingUp::cache_result(entry(), KvLookup::Found("v".to_string())),
        CacheResult::KvHit { response } if response == "v"
    ));
    assert!(matches!(
        LookingUp::cache_result(entry(), KvLookup::Missing),
        CacheResult::VectorHitKvMiss { entry } if entry.id == 42
    ));
    assert!(matches!(LookingUp::cache_result(entry(), KvLookup::Failed), CacheResult::Miss));
}

fn calling() -> semantiq::pipeline::Calling {
    match searching().on_search(SearchOutcome::NoHit) {
        AfterSearch::Call(c) => c,
        AfterSearch::Lookup(_) => panic!("no hit"),
    }
}

#[test]
fn failed_llm_call_replies_upstream_error() {
    match calling().on_completion(None, 10, 86_400) {
        AfterCall::Failed(body) => assert_eq!(body, "upstream error"),
        AfterCall::Answered { .. } => panic!("call failed"),
    }
}

#[test]
fn admitted_answer_is_written_then_indexed() {
    match calling().on_completion(Some(answer(true)), 800, 86_400) {
        AfterCall::Answered { reply, writeback } => {
            assert_eq!(reply, "Rust is a language");
            let hash = writeback.query.hash.clone();
            let (metrics, write) = writeback.on_decision(AdmissionDecision::Accept);
            assert!(metrics.admitted && !metrics.kv_hit && !metrics.vector_hit);
            assert_eq!(metrics.latency_ms, 800);
            let write = write.expect("admitted answers are written");
            assert_eq!(write.key, format!("semantiq:resp:{}", hash));
            assert_eq!(write.value, "Rust is a language");
            assert_eq!(write.ttl_secs, 86_400);
            let row = write.on_written(true).expect("a stored answer is indexed");
            assert_eq!(row.redis_key, format!("semantiq:resp:{}", hash));
            assert_eq!(row.query_hash, hash);
        }
        AfterCall::Failed(_) => panic!("call answered"),
    }
}

#[test]
fn failed_write_is_not_indexed() {
    match calling().on_completion(Some(answer(true)), 800, 60) {
        AfterCall::Answered { writeback, .. } => {
            let (_, write) = writeback.on_decision(AdmissionDecision::Accept);
            assert!(write.unwrap().on_written(false).is_none());
        }
        AfterCall::Failed(_) => panic!("call answered"),
    }
}

#[test]
fn denied_answer_is_not_written() {
    match calling().on_completion(Some(answer(true)), 800, 60) {
        AfterCall::Answered { writeback, .. } => {
            let (metrics, write) = writeback.on_decision(AdmissionDecision::Deny);
            assert!(!metrics.admitted);
            assert!(write.is_none());
        }
        AfterCall::Failed(_) => panic!("call answered"),
    }
}

#[test]
fn failed_answer_is_never_written() {
    // An error reply from the model: the frequency policy denies it, so the
    // write-back writes nothing.
    match calling().on_completion(Some(answer(false)), 800, 60) {
        AfterCall::Answered { reply, writeback } => {
            assert_eq!(reply, "Rust is a language");
            let decision = match FrequencyPolicy::new(1).begin(&writeback.query, &writeback.response) {
                FrequencyStep::Decided(d) => d,
                FrequencyStep::Increment { .. } => panic!("failures are not counted"),
            };
            let (_, write) = writeback.on_decision(decision);
            assert!(write.is_none());
        }
        AfterCall::Failed(_) => panic!("call answered"),
    }
}
