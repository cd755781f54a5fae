use semantiq::llm::{Completion, ProviderReply};
use semantiq::types::LlmResponse;

fn text(t: &str) -> Completion {
    Completion { content: t.to_string(), refusal: None, finish_reason: Some("stop".to_string()) }
}

fn reply(completions: Vec<Completion>, stop_reason: Option<&str>) -> ProviderReply {
    ProviderReply { completions, stop_reason: stop_reason.map(|s| s.to_string()) }
}

#[test]
fn first_completion_is_the_content() {
    let r = LlmResponse::from_reply(Ok(reply(vec![text("a"), text("b")], None)), 12);
    assert_eq!((r.content.as_str(), r.status_ok, r.latency_ms), ("a", true, 12));
}

#[test]
fn no_completion_gives_empty_content() {
    let r = LlmResponse::from_reply(Ok(reply(vec![], Some("end_turn"))), 1);
    assert_eq!((r.content.as_str(), r.status_ok), ("", true));
}

#[test]
fn error_reply_carries_its_body() {
    let r = LlmResponse::from_reply(Err(Some("boom".to_string())), 2);
    assert_eq!((r.content.as_str(), r.status_ok, r.latency_ms), ("boom", false, 2));
    let r = LlmResponse::from_reply(Err(None), 2);
    assert_eq!((r.content.as_str(), r.status_ok), ("", false));
}

#[test]
fn anthropic_refusal_is_not_ok() {
    let r = LlmResponse::from_reply(Ok(reply(vec![text("I can't help with that.")], Some("refusal"))), 5);
    assert_eq!(r.content, "I can't help with that.");
    assert!(!r.status_ok);
    let r = LlmResponse::from_reply(Ok(reply(vec![], Some("refusal"))), 5);
    assert!(!r.status_ok);
}

#[test]
fn openai_refusal_is_not_ok() {
    let refused = Completion {
        content: String::new(),
        refusal: Some("I'm sorry, I can't assist.".to_string()),
        finish_reason: Some("stop".to_string()),
    };
    let r = LlmResponse::from_reply(Ok(reply(vec![refused], None)), 5);
    assert_eq!(r.content, "");
    assert!(!r.status_ok);
}

#[test]
fn content_filter_is_a_refusal() {
    let filtered = Completion {
        content: String::new(),
        refusal: None,
        finish_reason: Some("content_filter".to_string()),
    };
    let r = LlmResponse::from_reply(Ok(reply(vec![filtered], None)), 5);
    assert_eq!((r.content.as_str(), r.status_ok), ("", false));
}

#[test]
fn later_completions_do_not_decide() {
    let refused = Completion { content: String::new(), refusal: Some("no".to_string()), finish_reason: None };
    let r = LlmResponse::from_reply(Ok(reply(vec![text("yes"), refused], Some("stop"))), 5);
    assert_eq!((r.content.as_str(), r.status_ok), ("yes", true));
}
