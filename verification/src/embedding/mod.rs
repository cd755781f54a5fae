pub mod text;
pub mod json;
pub mod preprocess;

use vstd::prelude::*;
use crate::types::first_of;

verus! {

/// Why an embedding could not be had. Transport failures are reported by
/// the HTTP client that performs the call.
pub enum EmbedError {
    /// Nothing is left of the query after preprocessing.
    EmptyQuery,
    /// The embedding service answered with a status other than 200.
    Api { status: u16, body: String },
    /// The service returned no embedding.
    NoData,
}

/// Empty text is not sent to the embedding service.
pub fn check_embed_input(text: &str) -> (r: Result<(), EmbedError>)
    ensures
        text@.len() == 0 <==> r == Err::<(), EmbedError>(EmbedError::EmptyQuery),
        text@.len() > 0 <==> r is Ok,
{
    if text.is_empty() {
        Err(EmbedError::EmptyQuery)
    } else {
        Ok(())
    }
}

/// Any status but 200 is an error carrying the status and the reply body
/// (empty when it could not be read).
pub fn check_embed_status(status: u16, body: Option<String>) -> (r: Result<(), EmbedError>)
    ensures
        status == 200 <==> r is Ok,
        status != 200 ==> (r matches Err(EmbedError::Api { status: s, body: b }) && s == status
            && match body {
            Some(t) => b == t,
            None => b@.len() == 0,
        }),
{
    if status != 200 {
        let body = match body {
            Some(t) => t,
            None => String::new(),
        };
        return Err(EmbedError::Api { status, body });
    }
    Ok(())
}

/// The first embedding returned, or `NoData` when there is none.
pub fn first_embedding<T>(items: Vec<T>) -> (r: Result<T, EmbedError>)
    ensures
        items@.len() > 0 ==> r == Ok::<T, EmbedError>(items@[0]),
        items@.len() == 0 ==> r == Err::<T, EmbedError>(EmbedError::NoData),
{
    match first_of(items) {
        Some(x) => Ok(x),
        None => Err(EmbedError::NoData),
    }
}

} // verus!
