use vstd::prelude::*;
use crate::digest::{lemma_lower_hex_injective, query_hash, sha256_utf8};

verus! {

/// The sorted set in which query frequencies are counted.
pub const FREQ_SET_KEY: &'static str = "semantiq:query_frequency";

/// The key under which the response to the query with hash `hash` is cached.
pub open spec fn response_key_of(hash: Seq<char>) -> Seq<char> {
    "semantiq:resp:"@ + hash
}

/// `format!("semantiq:resp:{}", hash)`.
pub fn response_key(hash: &str) -> (r: String)
    ensures
        r@ == response_key_of(hash@),
{
    let mut key = String::from_str("semantiq:resp:");
    key.append(hash);
    key
}

} // verus!

verus! {

/// Two hashes share a response key only if they are equal.
pub proof fn lemma_response_key_injective(h1: Seq<char>, h2: Seq<char>)
    requires
        response_key_of(h1) == response_key_of(h2),
    ensures
        h1 == h2,
{
    let p = "semantiq:resp:"@;
    assert(h1 =~= response_key_of(h1).skip(p.len() as int));
    assert(h2 =~= response_key_of(h2).skip(p.len() as int));
}

/// Two normalized queries are answered from the same cache key exactly
/// when their SHA-256 digests are equal; in particular, queries that
/// normalize to the same text share it.
pub proof fn lemma_shared_cache_key(n1: Seq<char>, n2: Seq<char>)
    ensures
        response_key_of(query_hash(n1)) == response_key_of(query_hash(n2)) <==> sha256_utf8(n1)
            == sha256_utf8(n2),
        n1 == n2 ==> response_key_of(query_hash(n1)) == response_key_of(query_hash(n2)),
{
    if response_key_of(query_hash(n1)) == response_key_of(query_hash(n2)) {
        lemma_response_key_injective(query_hash(n1), query_hash(n2));
        lemma_lower_hex_injective(sha256_utf8(n1), sha256_utf8(n2));
    }
}

} // verus!
