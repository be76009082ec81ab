//! Request-URL construction for the connection layer.
//!
//! A connection is configured once with a URI scheme and an authority
//! suffix; every outbound request's URL is built from that configuration,
//! the caller's account identifier, the routed endpoint path and the
//! call's query parameters.

use crate::router::QueryType;
use vstd::prelude::*;

verus! {

/// The URI scheme requests are sent over.
#[derive(Clone, Copy, PartialEq, Eq, Structural, Debug)]
pub enum UriScheme {
    Http,
    Https,
}

impl UriScheme {
    /// The scheme as it is written at the front of a URL.
    pub open spec fn spec_text(self) -> Seq<char> {
        match self {
            UriScheme::Http => "http"@,
            UriScheme::Https => "https"@,
        }
    }

    /// Write the scheme as it appears at the front of a URL.
    pub fn text(&self) -> (r: &'static str)
        ensures
            r@ == self.spec_text(),
    {
        match self {
            UriScheme::Http => "http",
            UriScheme::Https => "https",
        }
    }
}

/// The immutable configuration a connection is built with: the scheme and
/// the authority suffix appended to the account identifier.  A connection
/// holds no per-request state, so one value serves any number of
/// concurrent logical calls.
pub struct ConnectionConfig {
    pub scheme: UriScheme,
    pub base_authority: String,
}

/// The URL a request for `path` is sent to, before query parameters:
/// `scheme://{account}{authority}/{path}`.
pub open spec fn spec_request_url(
    scheme: UriScheme,
    account: Seq<char>,
    authority: Seq<char>,
    path: Seq<char>,
) -> Seq<char> {
    scheme.spec_text() + "://"@ + account + authority + "/"@ + path
}

/// What the url crate's serialization of `base` with `params` appended to
/// its query string reads as; nothing where `base` is not a parseable URL.
pub uninterp spec fn url_with_params(
    base: Seq<char>,
    params: Seq<(Seq<char>, Seq<char>)>,
) -> Option<Seq<char>>;

/// A parameter list as the text of its pairs.
pub open spec fn spec_params(params: Seq<(String, String)>) -> Seq<(Seq<char>, Seq<char>)> {
    params.map_values(|p: (String, String)| (p.0@, p.1@))
}

/// Relies on url::Url::parse_with_params: parses the base URL, appends
/// each pair to its query string (percent-encoding as needed) and
/// serializes the result; fails exactly when the base does not parse.
#[verifier::external_body]
fn parse_url_with_params(base: &str, params: &Vec<(String, String)>) -> (r: Result<String, String>)
    ensures
        r is Ok <==> url_with_params(base@, spec_params(params@)) is Some,
        r matches Ok(u) ==> url_with_params(base@, spec_params(params@)) == Some(u@),
{
    match url::Url::parse_with_params(base, params.iter().map(|kv| (&kv.0, &kv.1))) {
        Ok(u) => Ok(String::from(u)),
        Err(e) => Err(e.to_string()),
    }
}

impl ConnectionConfig {
    /// Build a configuration, defaulting to HTTPS against the public
    /// service domain.
    pub fn new(base_authority: Option<String>, scheme: Option<UriScheme>) -> (r: ConnectionConfig)
        ensures
            r.base_authority@ == match base_authority {
                Some(b) => b@,
                None => ".snowflakecomputing.com"@,
            },
            r.scheme == match scheme {
                Some(s) => s,
                None => UriScheme::Https,
            },
    {
        let base = match base_authority {
            Some(b) => b,
            None => String::from_str(".snowflakecomputing.com"),
        };
        let sch = match scheme {
            Some(s) => s,
            None => UriScheme::Https,
        };
        ConnectionConfig { scheme: sch, base_authority: base }
    }

    /// Build the URL the given intent's request is sent to, before query
    /// parameters.
    pub fn request_url(&self, account_identifier: &str, query_type: &QueryType) -> (r: String)
        ensures
            r@ == spec_request_url(
                self.scheme,
                account_identifier@,
                self.base_authority@,
                query_type.spec_path(),
            ),
    {
        let context = query_type.query_context();
        let mut url = String::from_str(self.scheme.text());
        url.append("://");
        url.append(account_identifier);
        url.append(self.base_authority.as_str());
        url.append("/");
        url.append(context.path);
        url
    }

    /// Build the URL the given intent's request is sent to, with the
    /// call's query parameters appended to its query string.
    pub fn request_url_with_params(
        &self,
        account_identifier: &str,
        query_type: &QueryType,
        params: &Vec<(String, String)>,
    ) -> (r: Result<String, String>)
        ensures
            ({
                let base = spec_request_url(
                    self.scheme,
                    account_identifier@,
                    self.base_authority@,
                    query_type.spec_path(),
                );
                match r {
                    Ok(u) => url_with_params(base, spec_params(params@)) == Some(u@),
                    Err(_) => url_with_params(base, spec_params(params@)) is None,
                }
            }),
    {
        let base = self.request_url(account_identifier, query_type);
        parse_url_with_params(base.as_str(), params)
    }
}

} // verus!
