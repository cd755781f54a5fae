use vstd::prelude::*;
use crate::admission::composite::{all_accept, composite_decision};
use crate::admission::frequency::{frequency_decision, ScoreReply};
use crate::cache::{response_key, response_key_of};
use crate::llm::{reply_refused, ProviderReply};
use crate::monitoring::RequestMetrics;
use crate::types::{AdmissionDecision, CacheEntry, CacheResult, LlmResponse, Query};

verus! {

// The request pipeline, one stage per outside call. Each stage holds what
// the pipeline knows so far; the caller performs the stage's outside work
// (embedding, vector search, key-value reads and writes, the LLM call,
// admission) and hands the outcome to the stage's method, which says what
// comes next.

/// What the vector search found.
pub enum SearchOutcome {
    /// The closest cached entry lies within the similarity threshold.
    Hit(CacheEntry),
    /// No cached entry is close enough.
    NoHit,
    /// The search failed.
    Failed,
}

/// What the key-value store returned for a key.
pub enum KvLookup {
    Found(String),
    Missing,
    Failed,
}

/// The reply to the client, with the metrics to log for it.
pub struct Reply {
    pub body: String,
    pub metrics: RequestMetrics,
}

/// The query is being embedded.
pub struct Embedding {
    pub query: Query,
}

pub enum AfterEmbedding {
    /// Search the vector index with the embedding.
    Search(Searching),
    /// Embedding failed: answer from the LLM without touching the caches.
    Fallback(Fallback),
}

/// The vector index is being searched.
pub struct Searching {
    pub query: Query,
}

pub enum AfterSearch {
    /// Read the cached response of the entry found.
    Lookup(LookingUp),
    /// Ask the LLM.
    Call(Calling),
}

/// The key-value store is being read for the entry that the search found.
pub struct LookingUp {
    pub query: Query,
    pub entry: CacheEntry,
}

pub enum AfterLookup {
    /// Answered from the cache.
    Reply(Reply),
    /// Ask the LLM.
    Call(Calling),
}

/// The LLM is being asked. When `stale_id` holds an identifier, the index
/// row with that identifier points at a key that is gone and is to be
/// deleted.
pub struct Calling {
    pub query: Query,
    pub vector_hit: bool,
    pub stale_id: Option<u128>,
}

pub enum AfterCall {
    /// The LLM call failed: this is the reply.
    Failed(String),
    /// The LLM answered: reply with `reply`, then run `writeback`.
    Answered { reply: String, writeback: Writeback },
}

/// The LLM is being asked after the embedding failed.
pub struct Fallback {
    pub query: Query,
}

/// The answer waits for the admission decision.
pub struct Writeback {
    pub query: Query,
    pub response: LlmResponse,
    pub vector_hit: bool,
    pub latency_ms: u64,
    pub ttl_secs: u64,
}

/// Store `value` under `key` for `ttl_secs` seconds.
pub struct KvWrite {
    pub key: String,
    pub value: String,
    pub ttl_secs: u64,
    pub query_hash: String,
}

/// Add an index row for the query's embedding that points at `redis_key`.
pub struct VectorInsert {
    pub query_hash: String,
    pub redis_key: String,
}

/// The reply that a failed upstream call gets.
pub open spec fn upstream_error() -> Seq<char> {
    "upstream error"@
}

impl Embedding {
    /// Starts the pipeline for a query: it is embedded first.
    pub fn new(query: Query) -> (r: Embedding)
        ensures
            r.query == query,
    {
        Embedding { query }
    }

    /// The text to embed: the normalized query.
    pub fn text(&self) -> (r: &String)
        ensures
            r == self.query.normalized,
    {
        &self.query.normalized
    }

    pub fn on_embedded(self, embedded: bool) -> (r: AfterEmbedding)
        ensures
            embedded ==> r == AfterEmbedding::Search(Searching { query: self.query }),
            !embedded ==> r == AfterEmbedding::Fallback(Fallback { query: self.query }),
    {
        if embedded {
            AfterEmbedding::Search(Searching { query: self.query })
        } else {
            AfterEmbedding::Fallback(Fallback { query: self.query })
        }
    }
}

impl Searching {
    /// A hit is looked up in the key-value store; no hit, or a failed
    /// search, goes to the LLM as a cache miss.
    pub fn on_search(self, outcome: SearchOutcome) -> (r: AfterSearch)
        ensures
            r == (match outcome {
                SearchOutcome::Hit(entry) => AfterSearch::Lookup(
                    LookingUp { query: self.query, entry },
                ),
                _ => AfterSearch::Call(
                    Calling { query: self.query, vector_hit: false, stale_id: None },
                ),
            }),
    {
        match outcome {
            SearchOutcome::Hit(entry) => AfterSearch::Lookup(LookingUp { query: self.query, entry }),
            _ => AfterSearch::Call(Calling { query: self.query, vector_hit: false, stale_id: None }),
        }
    }
}

/// How a hit in the vector index and the key-value read combine.
pub open spec fn cache_result_of(entry: CacheEntry, lookup: KvLookup) -> CacheResult {
    match lookup {
        KvLookup::Found(response) => CacheResult::KvHit { response },
        KvLookup::Missing => CacheResult::VectorHitKvMiss { entry },
        KvLookup::Failed => CacheResult::Miss,
    }
}

impl LookingUp {
    /// The key to read: the one recorded with the entry.
    pub fn key(&self) -> (r: &String)
        ensures
            r == self.entry.redis_key,
    {
        &self.entry.redis_key
    }

    /// What the two cache layers found for a query whose search hit `entry`.
    pub fn cache_result(entry: CacheEntry, lookup: KvLookup) -> (r: CacheResult)
        ensures
            r == cache_result_of(entry, lookup),
    {
        match lookup {
            KvLookup::Found(response) => CacheResult::KvHit { response },
            KvLookup::Missing => CacheResult::VectorHitKvMiss { entry },
            KvLookup::Failed => CacheResult::Miss,
        }
    }

    /// A full hit is answered with the cached response and logged as a
    /// vector and key-value hit. A missing key makes the entry stale: it is
    /// deleted and the LLM is asked. A failed read counts as a miss.
    pub fn on_lookup(self, lookup: KvLookup, elapsed_ms: u64) -> (r: AfterLookup)
        ensures
            match lookup {
                KvLookup::Found(response) => r == AfterLookup::Reply(
                    Reply {
                        body: response,
                        metrics: RequestMetrics {
                            query_hash: self.query.hash,
                            vector_hit: true,
                            kv_hit: true,
                            admitted: false,
                            latency_ms: elapsed_ms,
                        },
                    },
                ),
                KvLookup::Missing => r == AfterLookup::Call(
                    Calling { query: self.query, vector_hit: true, stale_id: Some(self.entry.id) },
                ),
                KvLookup::Failed => r == AfterLookup::Call(
                    Calling { query: self.query, vector_hit: false, stale_id: None },
                ),
            },
    {
        let LookingUp { query, entry } = self;
        match Self::cache_result(entry, lookup) {
            CacheResult::KvHit { response } => {
                let metrics = RequestMetrics {
                    query_hash: query.hash,
                    vector_hit: true,
                    kv_hit: true,
                    admitted: false,
                    latency_ms: elapsed_ms,
                };
                AfterLookup::Reply(Reply { body: response, metrics })
            },
            CacheResult::VectorHitKvMiss { entry } => AfterLookup::Call(
                Calling { query, vector_hit: true, stale_id: Some(entry.id) },
            ),
            CacheResult::Miss => AfterLookup::Call(Calling { query, vector_hit: false, stale_id: None }),
        }
    }
}

impl Calling {
    /// The prompt for the LLM: the raw query, as the client sent it.
    pub fn prompt(&self) -> (r: &String)
        ensures
            r == self.query.raw,
    {
        &self.query.raw
    }

    /// A failed call is answered with "upstream error" and nothing else
    /// happens. An answer is returned to the client as it is and handed to
    /// the write-back, with the latency measured when it arrived and the
    /// time to live of cached responses.
    pub fn on_completion(self, result: Option<LlmResponse>, latency_ms: u64, ttl_secs: u64) -> (r: AfterCall)
        ensures
            match result {
                None => r matches AfterCall::Failed(body) && body@ == upstream_error(),
                Some(response) => r matches AfterCall::Answered { reply, writeback } && reply@
                    == response.content@ && writeback == (Writeback {
                    query: self.query,
                    response,
                    vector_hit: self.vector_hit,
                    latency_ms,
                    ttl_secs,
                }),
            },
    {
        match result {
            None => AfterCall::Failed("upstream error".to_owned()),
            Some(response) => {
                let reply = response.content.clone();
                AfterCall::Answered {
                    reply,
                    writeback: Writeback {
                        query: self.query,
                        response,
                        vector_hit: self.vector_hit,
                        latency_ms,
                        ttl_secs,
                    },
                }
            },
        }
    }
}

impl Fallback {
    /// The prompt for the LLM: the raw query, as the client sent it.
    pub fn prompt(&self) -> (r: &String)
        ensures
            r == self.query.raw,
    {
        &self.query.raw
    }

    /// The LLM's content, or "upstream error" when the call failed; logged as
    /// neither hit nor admitted.
    pub fn on_completion(self, result: Option<LlmResponse>, elapsed_ms: u64) -> (r: Reply)
        ensures
            match result {
                None => r.body@ == upstream_error(),
                Some(response) => r.body == response.content,
            },
            r.metrics == (RequestMetrics {
                query_hash: self.query.hash,
                vector_hit: false,
                kv_hit: false,
                admitted: false,
                latency_ms: elapsed_ms,
            }),
    {
        let body = match result {
            None => "upstream error".to_owned(),
            Some(response) => response.content,
        };
        Reply {
            body,
            metrics: RequestMetrics {
                query_hash: self.query.hash,
                vector_hit: false,
                kv_hit: false,
                admitted: false,
                latency_ms: elapsed_ms,
            },
        }
    }
}

/// The write that an admission decision leads to: none unless the answer is
/// admitted, and then the response content under the query's response key.
pub open spec fn admitted_write(w: Writeback, decision: AdmissionDecision, write: Option<KvWrite>) -> bool {
    match decision {
        AdmissionDecision::Deny => write is None,
        AdmissionDecision::Accept => write matches Some(kv) && kv.key@ == response_key_of(
            w.query.hash@,
        ) && kv.value@ == w.response.content@ && kv.ttl_secs == w.ttl_secs && kv.query_hash@
            == w.query.hash@,
    }
}

impl Writeback {
    /// Logs the request with the decision, and writes the answer back only
    /// if it is admitted.
    pub fn on_decision(self, decision: AdmissionDecision) -> (r: (RequestMetrics, Option<KvWrite>))
        ensures
            admitted_write(self, decision, r.1),
            decision == AdmissionDecision::Accept ==> (r.1 matches Some(kv) && kv.key@
                == "semantiq:resp:"@ + self.query.hash@ && kv.value@ == self.response.content@
                && kv.ttl_secs == self.ttl_secs),
            decision == AdmissionDecision::Deny ==> r.1 is None,
            r.0.query_hash@ == self.query.hash@,
            r.0.vector_hit == self.vector_hit,
            !r.0.kv_hit,
            r.0.admitted == (decision == AdmissionDecision::Accept),
            r.0.latency_ms == self.latency_ms,
    {
        let admitted = decision == AdmissionDecision::Accept;
        let metrics = RequestMetrics {
            query_hash: self.query.hash.clone(),
            vector_hit: self.vector_hit,
            kv_hit: false,
            admitted,
            latency_ms: self.latency_ms,
        };
        if admitted {
            let key = response_key(self.query.hash.as_str());
            let write = KvWrite {
                key,
                value: self.response.content,
                ttl_secs: self.ttl_secs,
                query_hash: self.query.hash,
            };
            (metrics, Some(write))
        } else {
            (metrics, None)
        }
    }
}

impl KvWrite {
    /// Once the value is stored, the index gets a row pointing at its key;
    /// a failed write adds no row.
    pub fn on_written(self, ok: bool) -> (r: Option<VectorInsert>)
        ensures
            ok ==> r == Some(VectorInsert { query_hash: self.query_hash, redis_key: self.key }),
            !ok ==> r is None,
    {
        if ok {
            Some(VectorInsert { query_hash: self.query_hash, redis_key: self.key })
        } else {
            None
        }
    }
}

} // verus!

verus! {

/// Write-back gate: when some admission policy denies, the answer is not
/// written to the key-value store (and so never reaches the index).
pub proof fn lemma_denied_answer_not_written(
    w: Writeback,
    outcomes: Seq<AdmissionDecision>,
    write: Option<KvWrite>,
)
    requires
        !all_accept(outcomes),
        admitted_write(w, composite_decision(outcomes), write),
    ensures
        write is None,
{
}

/// Failures are never cached: when the frequency policy is one of the
/// admission policies, an answer whose LLM call reported an error is not
/// written, whatever the counter would have replied.
pub proof fn lemma_failed_response_never_written(
    w: Writeback,
    outcomes: Seq<AdmissionDecision>,
    frequency_index: int,
    reply: ScoreReply,
    write: Option<KvWrite>,
)
    requires
        !w.response.status_ok,
        0 <= frequency_index < outcomes.len(),
        outcomes[frequency_index] == frequency_decision(w.response.status_ok, reply),
        admitted_write(w, composite_decision(outcomes), write),
    ensures
        write is None,
{
    assert(outcomes[frequency_index] == AdmissionDecision::Deny);
}

/// Refusals are never cached: an answer built from a successful reply in
/// which the model refused (`LlmResponse::from_reply` marks it failed) is not
/// written when the frequency policy is one of the admission policies,
/// whatever the counter would have replied.
pub proof fn lemma_refusal_never_written(
    w: Writeback,
    reply: ProviderReply,
    outcomes: Seq<AdmissionDecision>,
    frequency_index: int,
    score: ScoreReply,
    write: Option<KvWrite>,
)
    requires
        reply_refused(reply),
        w.response.status_ok == !reply_refused(reply),
        0 <= frequency_index < outcomes.len(),
        outcomes[frequency_index] == frequency_decision(w.response.status_ok, score),
        admitted_write(w, composite_decision(outcomes), write),
    ensures
        write is None,
{
    lemma_failed_response_never_written(w, outcomes, frequency_index, score, write);
}

/// Every admitted answer is written back, whether or not the search had
/// hit a stale index row: under the key `semantiq:resp:` followed by the
/// query's hash, with the response content and the configured time to live.
/// A denied answer is not written.
pub proof fn lemma_accepted_answer_written(w: Writeback, write: Option<KvWrite>)
    requires
        admitted_write(w, AdmissionDecision::Accept, write),
    ensures
        write matches Some(kv) && kv.key@ == "semantiq:resp:"@ + w.query.hash@ && kv.value@
            == w.response.content@ && kv.ttl_secs == w.ttl_secs && kv.query_hash@ == w.query.hash@,
{
}

/// Read after write: an admitted answer is stored under the query's response
/// key, the index row added for it points at that key, and a later search
/// that finds the row reads that key; when the store still holds the value
/// written, the cache hit serves exactly the admitted answer.
pub proof fn lemma_admitted_answer_served(
    w: Writeback,
    write: KvWrite,
    row: VectorInsert,
    entry: CacheEntry,
)
    requires
        admitted_write(w, AdmissionDecision::Accept, Some(write)),
        row == (VectorInsert { query_hash: write.query_hash, redis_key: write.key }),
        entry.redis_key@ == row.redis_key@,
    ensures
        entry.redis_key@ == response_key_of(w.query.hash@),
        entry.redis_key@ == write.key@,
        row.query_hash@ == w.query.hash@,
        cache_result_of(entry, KvLookup::Found(write.value)) matches CacheResult::KvHit { response }
            && response@ == w.response.content@,
{
}

} // verus!
