use vstd::prelude::*;
use crate::types::{first_of, LlmResponse};

verus! {

/// One completion of a successful reply, as the provider reports it.
pub struct Completion {
    /// The generated text.
    pub content: String,
    /// The refusal message, where the provider reports one apart from the
    /// content (OpenAI's `message.refusal`).
    pub refusal: Option<String>,
    /// Why generation of this completion stopped (OpenAI's `finish_reason`).
    pub finish_reason: Option<String>,
}

/// A successful (2xx) reply of an LLM provider.
pub struct ProviderReply {
    /// The completions, in the order the provider returns them.
    pub completions: Vec<Completion>,
    /// Why generation stopped, where the provider reports it for the whole
    /// reply (Anthropic's `stop_reason`).
    pub stop_reason: Option<String>,
}

/// A stop reason that means the model declined to answer.
pub open spec fn is_refusal_reason(reason: Option<String>) -> bool {
    match reason {
        Some(r) => r@ == "refusal"@ || r@ == "content_filter"@,
        None => false,
    }
}

/// Whether a completion is a refusal.
pub open spec fn completion_refused(c: Completion) -> bool {
    c.refusal is Some || is_refusal_reason(c.finish_reason)
}

/// Whether a successful reply is a refusal: the whole reply stopped for a
/// refusal, or its first completion (the one that is answered) is one.
pub open spec fn reply_refused(reply: ProviderReply) -> bool {
    is_refusal_reason(reply.stop_reason) || (reply.completions@.len() > 0 && completion_refused(
        reply.completions@[0],
    ))
}

fn is_refusal(reason: &Option<String>) -> (r: bool)
    ensures
        r == is_refusal_reason(*reason),
{
    match reason {
        Some(text) => *text == "refusal".to_owned() || *text == "content_filter".to_owned(),
        None => false,
    }
}

impl LlmResponse {
    /// The response to an LLM call that got an HTTP reply: `Ok` with the
    /// provider's reply for a 2xx status, `Err` with the body of the error
    /// reply otherwise (`None` when it could not be read). The content is the
    /// content of the first completion (empty when there is none), or the
    /// error body. The response counts as successful only for a 2xx reply that is
    /// not a refusal, so refusals are treated like errors by admission.
    pub fn from_reply(reply: Result<ProviderReply, Option<String>>, latency_ms: u64) -> (r: LlmResponse)
        ensures
            r.latency_ms == latency_ms,
            match reply {
                Ok(p) => {
                    &&& r.status_ok == !reply_refused(p)
                    &&& !(p.stop_reason matches Some(s) && (s@ == "refusal"@ || s@ == "content_filter"@))
                        && (p.completions@.len() == 0 || (p.completions@[0].refusal is None && !(
                    p.completions@[0].finish_reason matches Some(f) && (f@ == "refusal"@ || f@
                        == "content_filter"@)))) ==> r.status_ok
                    &&& r.content@ == (if p.completions@.len() > 0 {
                        p.completions@[0].content@
                    } else {
                        Seq::empty()
                    })
                },
                Err(body) => {
                    &&& !r.status_ok
                    &&& r.content@ == (match body {
                        Some(b) => b@,
                        None => Seq::empty(),
                    })
                },
            },
    {
        match reply {
            Ok(p) => {
                let stopped_for_refusal = is_refusal(&p.stop_reason);
                let ProviderReply { completions, stop_reason: _ } = p;
                match first_of(completions) {
                    Some(c) => {
                        let refused = stopped_for_refusal || c.refusal.is_some() || is_refusal(
                            &c.finish_reason,
                        );
                        LlmResponse { content: c.content, status_ok: !refused, latency_ms }
                    },
                    None => LlmResponse {
                        content: String::new(),
                        status_ok: !stopped_for_refusal,
                        latency_ms,
                    },
                }
            },
            Err(body) => {
                let content = match body {
                    Some(b) => b,
                    None => String::new(),
                };
                LlmResponse { content, status_ok: false, latency_ms }
            },
        }
    }
}

} // verus!

verus! {

/// What a refusal is: a successful reply is refused exactly when the reply
/// stopped with reason "refusal" or "content_filter", or its first completion
/// carries a refusal message or finished for one of those reasons. Any other
/// reply, such as one that stopped at the end of the turn or reports no
/// reason at all, is a real answer.
pub proof fn lemma_refusal_classification(p: ProviderReply)
    ensures
        reply_refused(p) <==> ({
            ||| p.stop_reason matches Some(s) && (s@ == "refusal"@ || s@ == "content_filter"@)
            ||| p.completions@.len() > 0 && p.completions@[0].refusal is Some
            ||| p.completions@.len() > 0 && (p.completions@[0].finish_reason matches Some(f) && (f@
                == "refusal"@ || f@ == "content_filter"@))
        }),
{
}

} // verus!
