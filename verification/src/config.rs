use vstd::prelude::*;

verus! {

/// How many times a query must appear before it is eligible for caching.
pub fn admission_frequency() -> (r: u32)
    ensures
        r == 3,
{
    3
}

/// Lifetime of a cached response in the key-value store, in seconds (24h).
pub fn cache_ttl_secs() -> (r: u64)
    ensures
        r == 86_400,
{
    86_400
}

/// Port the proxy listens on.
pub fn port() -> (r: u16)
    ensures
        r == 8080,
{
    8080
}

} // verus!

verus! {

/// Age in days past which vector index rows are pruned: the cache lifetime
/// in whole days, at least one.
pub fn prune_days(cache_ttl_secs: u64) -> (r: i64)
    ensures
        r == (if cache_ttl_secs / 86_400 >= 1 { cache_ttl_secs / 86_400 } else { 1 }),
        r >= 1,
{
    let days = cache_ttl_secs / 86_400;
    if days >= 1 {
        days as i64
    } else {
        1
    }
}

} // verus!
