use vstd::prelude::*;

verus! {

/// Body of a query request.
pub struct QueryRequest {
    pub query: String,
}

/// Body of a query reply.
pub struct QueryResponse {
    pub response: String,
}

/// Body of a health reply.
pub struct HealthResponse {
    pub status: &'static str,
}

/// What the authentication layer does with a request.
pub enum AuthDecision {
    /// Hand the request on.
    Proceed,
    /// Answer it with this status and body.
    Reject { status: u16, body: &'static str },
}

/// The health check is open; every other path needs the `x-api-key` header
/// to equal the configured key. A missing or unreadable header counts as an
/// empty key.
pub fn authorize(path: &str, provided: Option<&str>, api_key: &str) -> (r: AuthDecision)
    ensures
        path@ == "/health"@ ==> r is Proceed,
        path@ != "/health"@ ==> match provided {
            Some(p) => (r is Proceed <==> p@ == api_key@),
            None => (r is Proceed <==> api_key@.len() == 0),
        },
        r matches AuthDecision::Reject { status, body } ==> status == 401 && body@
            == "invalid api key"@,
{
    if path.to_owned() == "/health".to_owned() {
        return AuthDecision::Proceed;
    }
    let given = match provided {
        Some(p) => p.to_owned(),
        None => String::new(),
    };
    proof {
        if api_key@.len() == 0 {
            assert(api_key@ =~= Seq::<char>::empty());
        }
    }
    if !(given == api_key.to_owned()) {
        return AuthDecision::Reject { status: 401, body: "invalid api key" };
    }
    AuthDecision::Proceed
}

/// The health reply for the database's state.
pub fn health_report(database_ok: bool) -> (r: (u16, HealthResponse))
    ensures
        database_ok ==> r.0 == 200 && r.1.status@ == "ok"@,
        !database_ok ==> r.0 == 503 && r.1.status@ == "degraded"@,
{
    if database_ok {
        (200, HealthResponse { status: "ok" })
    } else {
        (503, HealthResponse { status: "degraded" })
    }
}

} // verus!
