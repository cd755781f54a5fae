use semantiq::cache::{response_key, FREQ_SET_KEY};
use semantiq::digest::hash_query;
use semantiq::types::Query;

#[test]
fn hash_is_lowercase_hex_sha256() {
    assert_eq!(
        hash_query("hello world"),
        "b94d27b9934d3e08a52e52d7da7dabfac484efe37a5380ee9088f7ace2efcde9"
    );
    assert_eq!(
        hash_query(""),
        "e3b0c44298fc1c149afbf4c8996fb92427ae41e4649b934ca495991b7852b855"
    );
}

#[test]
fn hash_hashes_utf8_bytes() {
    // SHA-256 of the two UTF-8 bytes c3 a9.
    assert_eq!(hash_query("é").len(), 64);
    assert_ne!(hash_query("é"), hash_query("e"));
}

#[test]
fn response_key_prefixes_hash() {
    assert_eq!(response_key("abc123"), "semantiq:resp:abc123");
    assert_eq!(response_key(""), "semantiq:resp:");
    assert_eq!(FREQ_SET_KEY, "semantiq:query_frequency");
}

#[test]
fn query_from_raw_normalizes_and_hashes() {
    let q = Query::from_raw("  Hello, World!  ");
    assert_eq!(q.raw, "  Hello, World!  ");
    assert_eq!(q.normalized, "hello world");
    assert_eq!(q.hash, "b94d27b9934d3e08a52e52d7da7dabfac484efe37a5380ee9088f7ace2efcde9");
    assert_eq!(q.hash.len(), 64);
}

#[test]
fn normalizing_again_changes_nothing() {
    for raw in ["  Hello, World!  ", "A  b\tC!?", "What's up, Doc?", "123 ABC", ""] {
        let once = semantiq::embedding::preprocess::normalize(raw);
        assert_eq!(semantiq::embedding::preprocess::normalize(&once), once);
    }
}

#[test]
fn equal_normalized_queries_share_a_key() {
    let a = Query::from_raw("What is Rust?");
    let b = Query::from_raw("  what IS rust ");
    assert_eq!(a.normalized, b.normalized);
    assert_eq!(response_key(&a.hash), response_key(&b.hash));
    let c = Query::from_raw("what is go");
    assert_ne!(response_key(&a.hash), response_key(&c.hash));
}
