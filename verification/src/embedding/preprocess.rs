use vstd::prelude::*;
use crate::embedding::json::{json_get, json_str_field, parse_json, parsed_json, JsonValue};
use crate::embedding::text::{
    char_is_alphanumeric, char_is_whitespace, chars_of, collapse_chars, collapse_whitespace,
    ascii_lower, ascii_lower_char, is_ascii_char, is_ascii_text, is_plain_char, is_word_char,
    join_words, keep_word_chars, lemma_filter_all, lemma_join_words_plain, lemma_word_char_filter,
    lemma_join_words_trimmed, lemma_trimmed_ascii, lemma_words_chars, lemma_words_join,
    lemma_words_nonempty, str_lowercase, string_from_chars, to_lowercase, trim_chars, trimmed,
    words,
};

verus! {

/// `s` trimmed, unless nothing is left of it.
pub open spec fn nonblank(s: Seq<char>) -> Option<Seq<char>> {
    if trimmed(s).len() > 0 {
        Some(trimmed(s))
    } else {
        None
    }
}

/// The trimmed, non-empty string member `key` of `v`.
pub open spec fn text_field(v: JsonValue, key: Seq<char>) -> Option<Seq<char>> {
    match json_str_field(v, key) {
        Some(s) => nonblank(s),
        None => None,
    }
}

/// Flat key priority: `query`, then `content`, `prompt`, `text`.
pub open spec fn flat_query_text(v: JsonValue) -> Option<Seq<char>> {
    if text_field(v, "query"@) is Some {
        text_field(v, "query"@)
    } else if text_field(v, "content"@) is Some {
        text_field(v, "content"@)
    } else if text_field(v, "prompt"@) is Some {
        text_field(v, "prompt"@)
    } else {
        text_field(v, "text"@)
    }
}

/// The last message whose `role` is `"user"` and whose `content` is a
/// string that is not blank, trimmed.
pub open spec fn last_user_message(msgs: Seq<JsonValue>) -> Option<Seq<char>>
    decreases msgs.len(),
{
    if msgs.len() == 0 {
        None
    } else if json_str_field(msgs.last(), "role"@) == Some("user"@) && text_field(
        msgs.last(),
        "content"@,
    ) is Some {
        text_field(msgs.last(), "content"@)
    } else {
        last_user_message(msgs.drop_last())
    }
}

/// The query text that a JSON payload carries, if any.
pub open spec fn json_query_text(v: JsonValue) -> Option<Seq<char>> {
    if flat_query_text(v) is Some {
        flat_query_text(v)
    } else {
        match json_get(v, "messages"@) {
            Some(JsonValue::Array(msgs)) => last_user_message(msgs@),
            _ => None,
        }
    }
}

/// Normalization of already trimmed input `text`, given what the JSON
/// parser made of it.
pub open spec fn normalized_with(text: Seq<char>, parsed: Option<JsonValue>) -> Seq<char> {
    let from_json = match parsed {
        Some(v) => json_query_text(v),
        None => None,
    };
    match from_json {
        Some(s) => str_lowercase(s),
        None => collapse_whitespace(str_lowercase(text).filter(|c: char| is_word_char(c))),
    }
}

/// What `normalize` returns for `raw`.
pub open spec fn normalized(raw: Seq<char>) -> Seq<char> {
    normalized_with(trimmed(raw), parsed_json(trimmed(raw)))
}

/// `s.trim()`, when that is not empty.
fn nonblank_text(s: &String) -> (r: Option<String>)
    ensures
        match r {
            Some(t) => nonblank(s@) == Some(t@),
            None => nonblank(s@) is None,
        },
{
    let cs = chars_of(s.as_str());
    let t = trim_chars(&cs);
    if t.len() > 0 {
        Some(string_from_chars(&t))
    } else {
        None
    }
}

/// The trimmed, non-empty string member `key` of `v`.
fn text_field_of(v: &JsonValue, key: &str) -> (r: Option<String>)
    ensures
        match r {
            Some(t) => text_field(*v, key@) == Some(t@),
            None => text_field(*v, key@) is None,
        },
{
    match v.str_field(key) {
        Some(s) => nonblank_text(s),
        None => None,
    }
}

fn last_user_message_of(msgs: &Vec<JsonValue>) -> (r: Option<String>)
    ensures
        match r {
            Some(t) => last_user_message(msgs@) == Some(t@),
            None => last_user_message(msgs@) is None,
        },
{
    let user = "user".to_owned();
    let mut i: usize = msgs.len();
    assert(msgs@.take(i as int) =~= msgs@);
    while i > 0
        invariant
            i <= msgs@.len(),
            user@ == "user"@,
            last_user_message(msgs@) == last_user_message(msgs@.take(i as int)),
        decreases i,
    {
        let m = &msgs[i - 1];
        let ghost pre = msgs@.take(i as int);
        assert(pre.last() == *m);
        assert(pre.drop_last() =~= msgs@.take(i - 1));
        let is_user = match m.str_field("role") {
            Some(role) => *role == user,
            None => false,
        };
        if is_user {
            let content = text_field_of(m, "content");
            if content.is_some() {
                return content;
            }
        }
        i = i - 1;
    }
    None
}

/// The query text that a JSON payload carries, if any.
pub fn json_query_text_of(v: &JsonValue) -> (r: Option<String>)
    ensures
        match r {
            Some(t) => json_query_text(*v) == Some(t@),
            None => json_query_text(*v) is None,
        },
{
    let q = text_field_of(v, "query");
    if q.is_some() {
        return q;
    }
    let c = text_field_of(v, "content");
    if c.is_some() {
        return c;
    }
    let p = text_field_of(v, "prompt");
    if p.is_some() {
        return p;
    }
    let t = text_field_of(v, "text");
    if t.is_some() {
        return t;
    }
    match v.get("messages") {
        Some(JsonValue::Array(msgs)) => last_user_message_of(msgs),
        _ => None,
    }
}

/// Normalization of trimmed input `text`, given the document that the JSON
/// parser made of it (`None` when it is not JSON).
pub fn normalize_parsed(text: &str, parsed: &Option<JsonValue>) -> (r: String)
    ensures
        r@ == normalized_with(text@, *parsed),
{
    if let Some(v) = parsed {
        if let Some(s) = json_query_text_of(v) {
            return to_lowercase(s.as_str());
        }
    }
    let lowered = to_lowercase(text);
    let cs = chars_of(lowered.as_str());
    let kept = keep_word_chars(&cs);
    let collapsed = collapse_chars(&kept);
    string_from_chars(&collapsed)
}

/// Extract the semantic query text from raw input.
/// Handles plain strings and JSON payloads (OpenAI / Anthropic message formats).
pub fn normalize(raw: &str) -> (r: String)
    ensures
        r@ == normalized(raw@),
{
    let cs = chars_of(raw);
    let t = string_from_chars(&trim_chars(&cs));
    let parsed = parse_json(t.as_str());
    normalize_parsed(t.as_str(), &parsed)
}

} // verus!

verus! {

/// `key` holds no string of `v`, or only a blank one.
pub open spec fn blank_or_missing(v: JsonValue, key: Seq<char>) -> bool {
    match json_str_field(v, key) {
        Some(s) => trimmed(s).len() == 0,
        None => true,
    }
}

/// Flat key priority: a JSON payload with a string `query` that is not
/// blank is normalized to that string, trimmed and lowercased, whatever else
/// it holds.
pub proof fn lemma_query_field_wins(raw: Seq<char>, v: JsonValue, q: Seq<char>)
    requires
        parsed_json(trimmed(raw)) == Some(v),
        json_str_field(v, "query"@) == Some(q),
        trimmed(q).len() > 0,
    ensures
        normalized(raw) == str_lowercase(trimmed(q)),
{
}

/// Flat key priority: without a non-blank string `query`, a non-blank string
/// `content` is the query text, trimmed and lowercased, whatever `prompt`,
/// `text` or `messages` hold.
pub proof fn lemma_content_field_wins(raw: Seq<char>, v: JsonValue, c: Seq<char>)
    requires
        parsed_json(trimmed(raw)) == Some(v),
        blank_or_missing(v, "query"@),
        json_str_field(v, "content"@) == Some(c),
        trimmed(c).len() > 0,
    ensures
        normalized(raw) == str_lowercase(trimmed(c)),
{
}

/// Flat key priority: without a non-blank string `query` or `content`, a
/// non-blank string `prompt` is the query text, trimmed and lowercased,
/// whatever `text` or `messages` hold.
pub proof fn lemma_prompt_field_wins(raw: Seq<char>, v: JsonValue, p: Seq<char>)
    requires
        parsed_json(trimmed(raw)) == Some(v),
        blank_or_missing(v, "query"@),
        blank_or_missing(v, "content"@),
        json_str_field(v, "prompt"@) == Some(p),
        trimmed(p).len() > 0,
    ensures
        normalized(raw) == str_lowercase(trimmed(p)),
{
}

/// Flat key priority: without a non-blank string `query`, `content` or
/// `prompt`, a non-blank string `text` is the query text, trimmed and
/// lowercased, whatever `messages` holds.
pub proof fn lemma_text_field_wins(raw: Seq<char>, v: JsonValue, t: Seq<char>)
    requires
        parsed_json(trimmed(raw)) == Some(v),
        blank_or_missing(v, "query"@),
        blank_or_missing(v, "content"@),
        blank_or_missing(v, "prompt"@),
        json_str_field(v, "text"@) == Some(t),
        trimmed(t).len() > 0,
    ensures
        normalized(raw) == str_lowercase(trimmed(t)),
{
}

/// Plain-text normalization keeps exactly the alphanumeric and whitespace
/// characters of the lowercased, trimmed input, in order, and collapses the
/// whitespace among them.
pub proof fn lemma_plain_text_keeps_alphanumerics(raw: Seq<char>)
    requires
        match parsed_json(trimmed(raw)) {
            Some(v) => json_query_text(v) is None,
            None => true,
        },
    ensures
        normalized(raw) == collapse_whitespace(
            str_lowercase(trimmed(raw)).filter(
                |c: char| char_is_alphanumeric(c) || char_is_whitespace(c),
            ),
        ),
{
    lemma_word_char_filter(str_lowercase(trimmed(raw)));
}

proof fn lemma_last_user_message_is(msgs: Seq<JsonValue>, i: int, c: Seq<char>)
    requires
        0 <= i < msgs.len(),
        json_str_field(msgs[i], "role"@) == Some("user"@),
        text_field(msgs[i], "content"@) == Some(c),
        forall|j: int|
            i < j < msgs.len() ==> !(json_str_field(#[trigger] msgs[j], "role"@) == Some("user"@)
                && text_field(msgs[j], "content"@) is Some),
    ensures
        last_user_message(msgs) == Some(c),
    decreases msgs.len(),
{
    if i < msgs.len() - 1 {
        let p = msgs.drop_last();
        assert(msgs.last() == msgs[msgs.len() - 1]);
        assert forall|j: int|
            i < j < p.len() implies !(json_str_field(#[trigger] p[j], "role"@) == Some("user"@)
            && text_field(p[j], "content"@) is Some) by {
            assert(p[j] == msgs[j]);
        }
        lemma_last_user_message_is(p, i, c);
    }
}

/// In a messages payload, the last user message with non-blank content is
/// the query: when no flat key carries text, the result is the content of
/// the last message whose role is "user" and whose content is a non-blank
/// string, trimmed and lowercased.
pub proof fn lemma_last_user_message_wins(
    raw: Seq<char>,
    v: JsonValue,
    msgs: Vec<JsonValue>,
    i: int,
    c: Seq<char>,
)
    requires
        parsed_json(trimmed(raw)) == Some(v),
        blank_or_missing(v, "query"@),
        blank_or_missing(v, "content"@),
        blank_or_missing(v, "prompt"@),
        blank_or_missing(v, "text"@),
        json_get(v, "messages"@) == Some(JsonValue::Array(msgs)),
        0 <= i < msgs@.len(),
        json_str_field(msgs@[i], "role"@) == Some("user"@),
        json_str_field(msgs@[i], "content"@) == Some(c),
        trimmed(c).len() > 0,
        forall|j: int|
            i < j < msgs@.len() ==> !(json_str_field(#[trigger] msgs@[j], "role"@) == Some(
                "user"@,
            ) && !blank_or_missing(msgs@[j], "content"@)),
    ensures
        normalized(raw) == str_lowercase(trimmed(c)),
{
    assert forall|j: int|
        i < j < msgs@.len() implies !(json_str_field(#[trigger] msgs@[j], "role"@) == Some("user"@)
        && text_field(msgs@[j], "content"@) is Some) by {
        assert(!(json_str_field(msgs@[j], "role"@) == Some("user"@) && !blank_or_missing(
            msgs@[j],
            "content"@,
        )));
    }
    lemma_last_user_message_is(msgs@, i, trimmed(c));
}

/// Plain text (anything from which no JSON query text is extracted) is
/// lowercased, stripped of every character that is neither alphanumeric
/// nor whitespace, and split into words joined by single spaces: the result
/// is a sequence of non-empty words of alphanumeric characters.
pub proof fn lemma_plain_text_words(raw: Seq<char>)
    requires
        match parsed_json(trimmed(raw)) {
            Some(v) => json_query_text(v) is None,
            None => true,
        },
    ensures
        ({
            let ws = words(str_lowercase(trimmed(raw)).filter(|c: char| is_word_char(c)));
            &&& normalized(raw) == join_words(ws)
            &&& forall|k: int| 0 <= k < ws.len() ==> #[trigger] ws[k].len() > 0
            &&& forall|k: int, m: int|
                0 <= k < ws.len() && 0 <= m < ws[k].len() ==> char_is_alphanumeric(
                    #[trigger] ws[k][m],
                ) && !char_is_whitespace(ws[k][m])
        }),
{
    let pred = |c: char| is_word_char(c);
    let f = str_lowercase(trimmed(raw)).filter(pred);
    let ws = words(f);
    lemma_words_chars(f);
    lemma_words_nonempty(f);
    assert forall|k: int, m: int| 0 <= k < ws.len() && 0 <= m < ws[k].len() implies char_is_alphanumeric(
        #[trigger] ws[k][m],
    ) && !char_is_whitespace(ws[k][m]) by {
        let c = ws[k][m];
        assert(f.contains(c));
        let i = choose|i: int| 0 <= i < f.len() && f[i] == c;
        str_lowercase(trimmed(raw)).lemma_filter_pred(pred, i);
    }
}

} // verus!

verus! {

/// Normalizing again changes nothing: ASCII text from which no JSON query
/// text is extracted normalizes to lower-case letters and digits in words
/// joined by single spaces, and such text normalizes to itself.
pub proof fn lemma_plain_ascii_normalization_idempotent(raw: Seq<char>)
    requires
        is_ascii_text(raw),
        match parsed_json(trimmed(raw)) {
            Some(v) => json_query_text(v) is None,
            None => true,
        },
    ensures
        normalized(normalized(raw)) == normalized(raw),
        forall|i: int| 0 <= i < normalized(raw).len() ==> is_plain_char(#[trigger] normalized(raw)[i]),
{
    let t = trimmed(raw);
    lemma_trimmed_ascii(raw);
    let l = ascii_lower(t);
    let pred = |c: char| is_word_char(c);
    let f = l.filter(pred);
    let ws = words(f);
    assert(normalized(raw) == join_words(ws));
    lemma_words_chars(f);
    lemma_words_nonempty(f);
    assert forall|k: int, m: int|
        0 <= k < ws.len() && 0 <= m < ws[k].len() implies is_plain_char(#[trigger] ws[k][m]) by {
        let c = ws[k][m];
        assert(f.contains(c));
        let i = choose|i: int| 0 <= i < f.len() && f[i] == c;
        l.lemma_filter_pred(pred, i);
        l.lemma_filter_contains_rev(pred, c);
        let j = choose|j: int| 0 <= j < l.len() && l[j] == c;
        assert(is_ascii_char(t[j]));
        assert(c == ascii_lower_char(t[j]));
    }
    let n = join_words(ws);
    lemma_join_words_plain(ws);
    lemma_join_words_trimmed(ws);
    assert(!n.contains('{')) by {
        if n.contains('{') {
            let i = choose|i: int| 0 <= i < n.len() && n[i] == '{';
            assert(is_plain_char(n[i]));
        }
    }
    match parsed_json(n) {
        Some(v) => {
            assert(!(v is Object));
        },
        None => {},
    }
    assert(is_ascii_text(n));
    assert(ascii_lower(n) =~= n);
    assert(str_lowercase(n) == n);
    assert forall|i: int| 0 <= i < n.len() implies pred(#[trigger] n[i]) by {
        assert(is_plain_char(n[i]));
    }
    lemma_filter_all(n, pred);
    lemma_words_join(ws);
}

} // verus!
