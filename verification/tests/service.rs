use semantiq::config::{admission_frequency, cache_ttl_secs, port, prune_days};
use semantiq::embedding::{check_embed_input, check_embed_status, first_embedding, EmbedError};
use semantiq::embedding::json::{parse_json, JsonValue};
use semantiq::routes::{authorize, health_report, AuthDecision};
use semantiq::types::first_of;

#[test]
fn config_defaults() {
    assert_eq!(admission_frequency(), 3);
    assert_eq!(cache_ttl_secs(), 86_400);
    assert_eq!(port(), 8080);
}

#[test]
fn prune_days_is_whole_days_at_least_one() {
    assert_eq!(prune_days(86_400), 1);
    assert_eq!(prune_days(0), 1);
    assert_eq!(prune_days(3_600), 1);
    assert_eq!(prune_days(7 * 86_400 + 5), 7);
    assert_eq!(prune_days(u64::MAX), (u64::MAX / 86_400) as i64);
}

#[test]
fn health_is_open_and_others_need_the_key() {
    assert!(matches!(authorize("/health", None, "secret"), AuthDecision::Proceed));
    assert!(matches!(authorize("/query", Some("secret"), "secret"), AuthDecision::Proceed));
    match authorize("/query", Some("wrong"), "secret") {
        AuthDecision::Reject { status, body } => {
            assert_eq!(status, 401);
            assert_eq!(body, "invalid api key");
        }
        AuthDecision::Proceed => panic!("wrong key"),
    }
    assert!(matches!(authorize("/query", None, "secret"), AuthDecision::Reject { .. }));
    assert!(matches!(authorize("/query", None, ""), AuthDecision::Proceed));
}

#[test]
fn health_report_follows_database() {
    let (status, body) = health_report(true);
    assert_eq!((status, body.status), (200, "ok"));
    let (status, body) = health_report(false);
    assert_eq!((status, body.status), (503, "degraded"));
}

#[test]
fn embed_input_must_not_be_empty() {
    assert!(matches!(check_embed_input(""), Err(EmbedError::EmptyQuery)));
    assert!(check_embed_input("x").is_ok());
}

#[test]
fn embed_status_must_be_200() {
    assert!(check_embed_status(200, None).is_ok());
    match check_embed_status(429, Some("slow down".to_string())) {
        Err(EmbedError::Api { status, body }) => {
            assert_eq!(status, 429);
            assert_eq!(body, "slow down");
        }
        _ => panic!("429 is an error"),
    }
    assert!(matches!(check_embed_status(500, None), Err(EmbedError::Api { status: 500, body }) if body.is_empty()));
}

#[test]
fn first_embedding_or_no_data() {
    let v: Vec<Vec<f32>> = vec![vec![0.5, 0.25], vec![1.0]];
    assert_eq!(first_embedding(v).ok(), Some(vec![0.5, 0.25]));
    let empty: Vec<Vec<f32>> = vec![];
    assert!(matches!(first_embedding(empty), Err(EmbedError::NoData)));
    assert_eq!(first_of(vec![3, 4]), Some(3));
}

#[test]
fn json_values_are_read_like_serde_json() {
    let v = parse_json(r#"{"a": "x", "n": 1, "l": [true, null]}"#).expect("valid JSON");
    assert_eq!(v.str_field("a").map(|s| s.as_str()), Some("x"));
    assert!(v.str_field("n").is_none());
    assert!(v.get("missing").is_none());
    assert!(matches!(v.get("n"), Some(JsonValue::Number)));
    assert_eq!(v.get("l").and_then(|l| l.as_array()).map(|a| a.len()), Some(2));
    assert!(parse_json("not json").is_none());
    assert!(parse_json("\"s\"").unwrap().get("a").is_none());
}
