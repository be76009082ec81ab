//! Routing of logical query intents to fixed endpoint parameters.
//!
//! The remote service expects different endpoint paths and accept-MIME
//! types for different kinds of requests.  The mapping is a protocol
//! contract: it is total, immutable and computed nowhere else.

use vstd::prelude::*;

verus! {

/// Endpoint parameters for one kind of request: the path under the service
/// authority, and the MIME type the response is requested in.
pub struct QueryContext {
    pub path: &'static str,
    pub accept_mime: &'static str,
}

/// The closed set of purposes an outbound request can serve.
pub enum QueryType {
    LoginRequest,
    TokenRequest,
    CloseSession,
    JsonQuery,
    ArrowQuery,
}

impl QueryType {
    /// The endpoint path this intent is sent to.
    pub open spec fn spec_path(self) -> Seq<char> {
        match self {
            QueryType::LoginRequest => "session/v1/login-request"@,
            QueryType::TokenRequest => "/session/token-request"@,
            QueryType::CloseSession => "session"@,
            QueryType::JsonQuery => "queries/v1/query-request"@,
            QueryType::ArrowQuery => "queries/v1/query-request"@,
        }
    }

    /// The MIME type the response is requested in.
    pub open spec fn spec_accept_mime(self) -> Seq<char> {
        match self {
            QueryType::LoginRequest => "application/json"@,
            QueryType::TokenRequest => "application/snowflake"@,
            QueryType::CloseSession => "application/snowflake"@,
            QueryType::JsonQuery => "application/json"@,
            QueryType::ArrowQuery => "application/snowflake"@,
        }
    }

    /// Resolve this intent to its fixed (path, accept-MIME) pair.
    pub fn query_context(&self) -> (r: QueryContext)
        ensures
            r.path@ == self.spec_path(),
            r.accept_mime@ == self.spec_accept_mime(),
    {
        match self {
            QueryType::LoginRequest => QueryContext {
                path: "session/v1/login-request",
                accept_mime: "application/json",
            },
            QueryType::TokenRequest => QueryContext {
                path: "/session/token-request",
                accept_mime: "application/snowflake",
            },
            QueryType::CloseSession => QueryContext {
                path: "session",
                accept_mime: "application/snowflake",
            },
            QueryType::JsonQuery => QueryContext {
                path: "queries/v1/query-request",
                accept_mime: "application/json",
            },
            QueryType::ArrowQuery => QueryContext {
                path: "queries/v1/query-request",
                accept_mime: "application/snowflake",
            },
        }
    }
}

/// Law: the routing table has no cross-intent collisions.  Two distinct
/// intents never share both their endpoint path and their accept-MIME type,
/// so every (path, MIME) pair identifies the intent it came from.
pub proof fn lemma_query_contexts_distinct(a: QueryType, b: QueryType)
    ensures
        a.spec_path() == b.spec_path() && a.spec_accept_mime() == b.spec_accept_mime() ==> a == b,
{
    reveal_strlit("session/v1/login-request");
    reveal_strlit("/session/token-request");
    reveal_strlit("session");
    reveal_strlit("queries/v1/query-request");
    reveal_strlit("application/json");
    reveal_strlit("application/snowflake");
    assert("session/v1/login-request"@.len() == 24);
    assert("/session/token-request"@.len() == 22);
    assert("session"@.len() == 7);
    assert("queries/v1/query-request"@.len() == 24);
    assert("application/json"@.len() == 16);
    assert("application/snowflake"@.len() == 21);
    assert("session/v1/login-request"@[0] == 's');
    assert("queries/v1/query-request"@[0] == 'q');
}

} // verus!
