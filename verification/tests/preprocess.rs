use semantiq::embedding::preprocess::normalize;

#[test]
fn plain_string_lowercased_and_stripped() {
    assert_eq!(normalize("  Hello, World!  "), "hello world");
}

#[test]
fn json_query_field_extracted() {
    let input = r#"{"query": "What is Rust?"}"#;
    assert_eq!(normalize(input), "what is rust?");
}

#[test]
fn anthropic_messages_format() {
    let input = r#"{"messages": [{"role": "user", "content": "Explain ownership"}]}"#;
    assert_eq!(normalize(input), "explain ownership");
}

#[test]
fn last_user_message_wins() {
    let input = r#"{"messages": [
        {"role": "user", "content": "First question"},
        {"role": "assistant", "content": "Answer"},
        {"role": "user", "content": "Follow-up question"}
    ]}"#;
    assert_eq!(normalize(input), "follow-up question");
}

#[test]
fn query_field_beats_other_keys() {
    let input = r#"{"text": "Third", "prompt": "Second", "query": "First"}"#;
    assert_eq!(normalize(input), "first");
}

#[test]
fn blank_query_falls_through_to_content() {
    let input = r#"{"query": "   ", "content": "  Use Content  "}"#;
    assert_eq!(normalize(input), "use content");
}

#[test]
fn prompt_then_text_priority() {
    assert_eq!(normalize(r#"{"prompt": "P", "text": "T"}"#), "p");
    assert_eq!(normalize(r#"{"text": "Only Text"}"#), "only text");
}

#[test]
fn non_string_query_is_ignored() {
    assert_eq!(normalize(r#"{"query": 42, "prompt": "Number Skipped"}"#), "number skipped");
}

#[test]
fn flat_key_beats_messages() {
    let input = r#"{"content": "Flat", "messages": [{"role": "user", "content": "Nested"}]}"#;
    assert_eq!(normalize(input), "flat");
}

#[test]
fn trailing_assistant_message_is_skipped() {
    let input = r#"{"messages": [
        {"role": "user", "content": "Question"},
        {"role": "assistant", "content": "Answer"}
    ]}"#;
    assert_eq!(normalize(input), "question");
}

#[test]
fn blank_last_user_message_is_skipped() {
    let input = r#"{"messages": [
        {"role": "user", "content": "Earlier"},
        {"role": "user", "content": "   "}
    ]}"#;
    assert_eq!(normalize(input), "earlier");
}

#[test]
fn json_without_query_text_is_normalized_as_plain_text() {
    assert_eq!(normalize(r#"{"other": "x"}"#), "other x");
    assert_eq!(normalize("[1, 2]"), "1 2");
}

#[test]
fn whitespace_runs_collapse() {
    assert_eq!(normalize("\tMany   spaces\n\nand\r\nlines "), "many spaces and lines");
}

#[test]
fn empty_and_blank_input() {
    assert_eq!(normalize(""), "");
    assert_eq!(normalize("   "), "");
    assert_eq!(normalize("?!."), "");
}

#[test]
fn unicode_letters_are_kept_and_lowercased() {
    assert_eq!(normalize("ÉCOLE Ünïcode!"), "école ünïcode");
}
