use vstd::prelude::*;

verus! {

/// The facts logged once per request.
pub struct RequestMetrics {
    pub query_hash: String,
    pub vector_hit: bool,
    pub kv_hit: bool,
    pub admitted: bool,
    pub latency_ms: u64,
}

} // verus!
