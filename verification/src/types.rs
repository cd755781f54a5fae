use vstd::prelude::*;
use crate::digest::{hash_query, is_lower_hex_char, query_hash};
use crate::embedding::preprocess::{normalize, normalized};

verus! {

/// Length of the embedding vectors produced by the embedding model.
pub const EMBEDDING_DIM: usize = 1536;

/// Normalized query after preprocessing.
#[derive(Debug)]
pub struct Query {
    pub raw: String,
    pub normalized: String,
    pub hash: String,
}

impl Query {
    /// The query for raw input `raw`: its normalized text and the hex SHA-256
    /// digest of that text.
    pub fn from_raw(raw: &str) -> (q: Query)
        ensures
            q.raw@ == raw@,
            q.normalized@ == normalized(raw@),
            q.hash@ == query_hash(q.normalized@),
            q.hash@.len() == 64,
            forall|i: int| 0 <= i < 64 ==> is_lower_hex_char(#[trigger] q.hash@[i]),
    {
        let normalized = normalize(raw);
        let hash = hash_query(normalized.as_str());
        Query { raw: raw.to_owned(), normalized, hash }
    }
}

/// A row stored in the vector index and the key-value store. The identifier
/// is the row's UUID as an integer, the creation time is in microseconds
/// since the Unix epoch.
#[derive(Debug)]
pub struct CacheEntry {
    pub id: u128,
    pub query_hash: String,
    pub redis_key: String,
    pub created_at_micros: i64,
}

/// Output of the admission pipeline for a given query.
#[derive(Debug, Clone, Copy, PartialEq, Eq, Structural)]
pub enum AdmissionDecision {
    Accept,
    Deny,
}

/// What the proxy found (or didn't) in the cache layers.
pub enum CacheResult {
    /// Full hit: returned from the key-value store without touching the LLM.
    KvHit { response: String },
    /// Vector matched but the key was missing (stale entry).
    VectorHitKvMiss { entry: CacheEntry },
    /// Nothing found.
    Miss,
}

/// A raw LLM response with metadata needed for admission gating.
#[derive(Debug)]
pub struct LlmResponse {
    pub content: String,
    pub status_ok: bool,
    pub latency_ms: u64,
}

} // verus!

verus! {

/// The first of `items`, if there is one (`items.into_iter().next()`).
pub fn first_of<T>(items: Vec<T>) -> (r: Option<T>)
    ensures
        r == (if items@.len() > 0 {
            Some(items@[0])
        } else {
            None
        }),
{
    let mut items = items;
    if items.len() > 0 {
        Some(items.remove(0))
    } else {
        None
    }
}

} // verus!
