//! Browser single-sign-on support: proof keys and the local callback.
//!
//! During the browser flow the identity provider redirects the user's
//! browser to a one-shot local listener.  Only the first line of that
//! request matters: it has the form `METHOD SP PATH SP VERSION`, and the
//! path carries the token as `/?token=<percent-encoded-token>`.  This
//! module holds the verified extraction logic; the listener itself (socket
//! bind, accept, read, write) lives with the caller, which hands the raw
//! request line in and the confirmation page back out.

use base64::Engine;
use vstd::prelude::*;

verus! {

/// Errors of the browser SSO flow.  Transport-level variants carry the
/// text of the underlying error; `MissingToken` carries the offending
/// request path for diagnostics.
#[derive(Debug)]
pub enum BrowserAuthError {
    /// The local listener could not be bound.
    BindFailed(String),
    /// The bound listener's address could not be read back.
    LocalAddrFailed(String),
    /// The listener failed while accepting the one expected connection.
    AcceptFailed(String),
    /// The request line could not be read from the accepted connection.
    ReadFailed(String),
    /// The request line has fewer than two whitespace-delimited tokens.
    InvalidRequest,
    /// The request path does not begin with `/?token=`; carries the path.
    MissingToken(String),
    /// The token was present but not percent-decodable; carries the
    /// decoder's message.
    DecodeFailed(String),
    /// The browser could not be launched.
    BrowserOpenFailed(String),
}

/// The whitespace that delimits the tokens of a request line.
pub open spec fn is_request_ws(c: char) -> bool {
    c == ' ' || c == '\t' || c == '\r' || c == '\n'
}

/// The first position at or after `i` whose character is whitespace (for
/// `want_ws`) or non-whitespace (against it); the length of `s` if no such
/// position exists.
pub open spec fn scan_to(s: Seq<char>, i: nat, want_ws: bool) -> nat
    decreases s.len() - i,
{
    if i >= s.len() {
        s.len()
    } else if is_request_ws(s[i as int]) == want_ws {
        i
    } else {
        scan_to(s, i + 1, want_ws)
    }
}

/// `scan_to` returns exactly the position that ends a run of characters
/// whose whitespace-ness disagrees with `want_ws`.
proof fn lemma_scan_to_is(s: Seq<char>, i: nat, k: nat, want_ws: bool)
    requires
        i <= k <= s.len(),
        forall|j: int| i <= j < k ==> is_request_ws(s[j]) != want_ws,
        k < s.len() ==> is_request_ws(s[k as int]) == want_ws,
    ensures
        scan_to(s, i, want_ws) == k,
    decreases k - i,
{
    if i < k {
        lemma_scan_to_is(s, i + 1, k, want_ws);
    }
}

/// Where the first whitespace-delimited token of `s` starts.
pub open spec fn word1_start(s: Seq<char>) -> nat {
    scan_to(s, 0, false)
}

/// Where the first whitespace-delimited token of `s` ends.
pub open spec fn word1_end(s: Seq<char>) -> nat {
    scan_to(s, word1_start(s), true)
}

/// Where the second whitespace-delimited token of `s` starts.
pub open spec fn word2_start(s: Seq<char>) -> nat {
    scan_to(s, word1_end(s), false)
}

/// Where the second whitespace-delimited token of `s` ends.
pub open spec fn word2_end(s: Seq<char>) -> nat {
    scan_to(s, word2_start(s), true)
}

/// The request line holds at least two whitespace-delimited tokens.
pub open spec fn has_two_words(s: Seq<char>) -> bool {
    word2_start(s) < s.len()
}

/// The second whitespace-delimited token of a request line: the path of
/// `METHOD SP PATH SP VERSION`.
pub open spec fn spec_request_path(s: Seq<char>) -> Seq<char> {
    s.subrange(word2_start(s) as int, word2_end(s) as int)
}

/// Whether `c` delimits request-line tokens.
fn char_is_request_ws(c: char) -> (b: bool)
    ensures
        b == is_request_ws(c),
{
    c == ' ' || c == '\t' || c == '\r' || c == '\n'
}

/// Walk from `start` to the first position whose whitespace-ness is
/// `want_ws`, mirroring `scan_to`.
fn scan_str(s: &str, start: usize, want_ws: bool) -> (r: usize)
    requires
        start as nat <= s@.len(),
    ensures
        r as nat == scan_to(s@, start as nat, want_ws),
        start <= r,
        r as nat <= s@.len(),
{
    let len = s.unicode_len();
    let mut i = start;
    while i < len && char_is_request_ws(s.get_char(i)) != want_ws
        invariant
            start <= i <= len,
            len as nat == s@.len(),
            forall|j: int| start <= j < i ==> is_request_ws(s@[j]) != want_ws,
        decreases len - i,
    {
        i = i + 1;
    }
    proof {
        lemma_scan_to_is(s@, start as nat, i as nat, want_ws);
    }
    i
}

/// Extract the path token (the second whitespace-delimited token) of an
/// HTTP request line, if the line has one.
fn request_path<'a>(line: &'a str) -> (r: Option<&'a str>)
    ensures
        match r {
            Some(p) => has_two_words(line@) && p@ == spec_request_path(line@),
            None => !has_two_words(line@),
        },
{
    let len = line.unicode_len();
    let w1s = scan_str(line, 0, false);
    let w1e = scan_str(line, w1s, true);
    let w2s = scan_str(line, w1e, false);
    let w2e = scan_str(line, w2s, true);
    if w2s < len {
        Some(line.substring_char(w2s, w2e))
    } else {
        None
    }
}

/// The fixed prefix a callback path must begin with.
pub open spec fn spec_token_prefix() -> Seq<char> {
    "/?token="@
}

/// The callback path begins with the literal prefix `/?token=`.
pub open spec fn has_token_prefix(path: Seq<char>) -> bool {
    path.len() >= 8 && path.subrange(0, 8) == spec_token_prefix()
}

/// The percent-encoded token part of a callback path: everything after the
/// 8-character `/?token=` prefix.
pub open spec fn spec_encoded_token(path: Seq<char>) -> Seq<char> {
    path.skip(8)
}

/// Check the fixed `/?token=` prefix character by character.
fn token_prefix_matches(path: &str) -> (b: bool)
    ensures
        b == has_token_prefix(path@),
{
    proof {
        reveal_strlit("/?token=");
    }
    let len = path.unicode_len();
    if len < 8 {
        return false;
    }
    let ok = path.get_char(0) == '/' && path.get_char(1) == '?' && path.get_char(2) == 't'
        && path.get_char(3) == 'o' && path.get_char(4) == 'k' && path.get_char(5) == 'e'
        && path.get_char(6) == 'n' && path.get_char(7) == '=';
    proof {
        if ok {
            assert(path@.subrange(0, 8) =~= spec_token_prefix());
        } else {
            if path@.subrange(0, 8) == spec_token_prefix() {
                assert(path@[0] == spec_token_prefix()[0]);
                assert(path@[1] == spec_token_prefix()[1]);
                assert(path@[2] == spec_token_prefix()[2]);
                assert(path@[3] == spec_token_prefix()[3]);
                assert(path@[4] == spec_token_prefix()[4]);
                assert(path@[5] == spec_token_prefix()[5]);
                assert(path@[6] == spec_token_prefix()[6]);
                assert(path@[7] == spec_token_prefix()[7]);
            }
        }
    }
    ok
}

/// What percent-decoding yields for a piece of text: the decoded text, or
/// nothing where the decoded bytes are not valid UTF-8.
pub uninterp spec fn percent_decoded(s: Seq<char>) -> Option<Seq<char>>;

/// Relies on urlencoding::decode: percent-decodes `%XX` escapes, leaving
/// invalid escapes verbatim, and fails exactly when the decoded bytes are
/// not valid UTF-8; text without `%` decodes to itself.
#[verifier::external_body]
fn percent_decode(s: &str) -> (r: Result<String, String>)
    ensures
        r is Ok <==> percent_decoded(s@) is Some,
        r matches Ok(t) ==> percent_decoded(s@) == Some(t@),
        (forall|i: int| 0 <= i < s@.len() ==> s@[i] != '%') ==> r is Ok,
        r matches Ok(t) ==> ((forall|i: int| 0 <= i < s@.len() ==> s@[i] != '%') ==> t@ == s@),
{
    match urlencoding::decode(s) {
        Ok(t) => Ok(t.into_owned()),
        Err(e) => Err(e.to_string()),
    }
}

/// Extract the token from an HTTP request line of the form
/// `METHOD SP PATH SP VERSION`.
///
/// The path must begin with the literal prefix `/?token=`; the rest of the
/// path is percent-decoded and returned.  No general query-string parsing
/// takes place: a token holding `?` or further `&key=value` pairs must
/// already be percent-encoded by the sender.
pub fn extract_token_from_request(request_line: &str) -> (r: Result<String, BrowserAuthError>)
    ensures
        ({
            let line = request_line@;
            match r {
                Ok(token) => has_two_words(line) && has_token_prefix(spec_request_path(line))
                    && percent_decoded(spec_encoded_token(spec_request_path(line))) == Some(
                    token@,
                ),
                Err(BrowserAuthError::InvalidRequest) => !has_two_words(line),
                Err(BrowserAuthError::MissingToken(p)) => has_two_words(line) && !has_token_prefix(
                    spec_request_path(line),
                ) && p@ == spec_request_path(line),
                Err(BrowserAuthError::DecodeFailed(_)) => has_two_words(line) && has_token_prefix(
                    spec_request_path(line),
                ) && percent_decoded(spec_encoded_token(spec_request_path(line))) is None,
                _ => false,
            }
        }),
{
    let path = match request_path(request_line) {
        Some(p) => p,
        None => {
            return Err(BrowserAuthError::InvalidRequest);
        },
    };
    if !token_prefix_matches(path) {
        return Err(BrowserAuthError::MissingToken(path.to_owned()));
    }
    let len = path.unicode_len();
    let encoded = path.substring_char(8, len);
    proof {
        assert(encoded@ =~= spec_encoded_token(spec_request_path(request_line@)));
    }
    match percent_decode(encoded) {
        Ok(token) => Ok(token),
        Err(msg) => Err(BrowserAuthError::DecodeFailed(msg)),
    }
}

/// Relies on getrandom::fill: fills the buffer from the operating system's
/// secure randomness source.  Failure of that source is fatal to
/// authentication (the flow cannot safely continue), so it aborts rather
/// than returns.
#[verifier::external_body]
fn secure_random_32() -> (r: Vec<u8>)
    ensures
        r@.len() == 32,
{
    let mut randomness = [0u8; 32];
    getrandom::fill(&mut randomness).expect("failed to generate random bytes");
    randomness.to_vec()
}

/// What the standard base64 encoding (with padding) of a byte sequence
/// reads as.
pub uninterp spec fn base64_standard(bytes: Seq<u8>) -> Seq<char>;

/// Relies on base64's general_purpose::STANDARD engine: base64 over the
/// standard alphabet with padding, whose output for n input bytes is
/// exactly 4 * ceil(n / 3) characters long.
#[verifier::external_body]
fn base64_encode(bytes: &Vec<u8>) -> (r: String)
    ensures
        r@ == base64_standard(bytes@),
        r@.len() == 4 * ((bytes@.len() + 2) / 3),
{
    base64::engine::general_purpose::STANDARD.encode(bytes)
}

/// Mint a proof key: 32 bytes of secure randomness in their base64 text
/// encoding, 44 characters long.  The key binds the identity provider's
/// response to this flow instance and is generated fresh per attempt.
pub fn generate_proof_key() -> (r: String)
    ensures
        r@.len() == 44,
        exists|b: Seq<u8>| b.len() == 32 && r@ == base64_standard(b),
{
    let randomness = secure_random_32();
    let key = base64_encode(&randomness);
    proof {
        assert(key@ == base64_standard(randomness@));
    }
    key
}

/// The header block of the confirmation response: a 200 status line and
/// the headers declaring an HTML body over a connection about to close.
pub open spec fn spec_confirmation_header() -> Seq<char> {
    "HTTP/1.1 200 OK\nContent-Type: text/html\nConnection: close\n\n"@
}

/// The fixed confirmation page served over the callback connection once
/// the token is extracted: a 200 response with a human-readable body.
/// Writing it is best-effort; a failed write does not invalidate the token.
pub fn confirmation_response() -> (r: String)
    ensures
        r@.len() > spec_confirmation_header().len(),
        r@.subrange(0, spec_confirmation_header().len() as int) == spec_confirmation_header(),
        r@.subrange(0, 15) == "HTTP/1.1 200 OK"@,
{
    proof {
        reveal_strlit("HTTP/1.1 200 OK");
        reveal_strlit("HTTP/1.1 200 OK\nContent-Type: text/html\nConnection: close\n\n");
        reveal_strlit("<!doctype html>\n<html>\n<head>\n  <meta charset=\"utf-8\">\n");
    }
    let mut page = String::from_str(
        "HTTP/1.1 200 OK\nContent-Type: text/html\nConnection: close\n\n",
    );
    page.append("<!doctype html>\n<html>\n<head>\n  <meta charset=\"utf-8\">\n");
    page.append("  <title>Authentication Complete</title>\n</head>\n<body>\n");
    page.append("  <h1>Authentication Successful</h1>\n");
    page.append("  <p>You can close this tab.</p>\n</body>\n</html>\n");
    proof {
        assert(page@.subrange(0, spec_confirmation_header().len() as int)
            =~= spec_confirmation_header());
        assert(page@.subrange(0, 15) =~= "HTTP/1.1 200 OK"@);
    }
    page
}

} // verus!
