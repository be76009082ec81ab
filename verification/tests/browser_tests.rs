use snowflake_api::browser::{
    confirmation_response, extract_token_from_request, generate_proof_key, BrowserAuthError,
};

#[test]
fn test_extract_token() {
    let request = "GET /?token=abc123 HTTP/1.1";
    let token = extract_token_from_request(request).unwrap();
    assert_eq!(token, "abc123");
}

#[test]
fn test_extract_token_url_encoded() {
    let request = "GET /?token=abc%20123 HTTP/1.1";
    let token = extract_token_from_request(request).unwrap();
    assert_eq!(token, "abc 123");
}

#[test]
fn test_generate_proof_key() {
    let key = generate_proof_key();
    // base64 of 32 bytes is 44 characters
    assert_eq!(key.len(), 44);
}

#[test]
fn test_missing_token_error() {
    let request = "GET /callback HTTP/1.1";
    let result = extract_token_from_request(request);
    assert!(matches!(result, Err(BrowserAuthError::MissingToken(_))));
}

#[test]
fn test_missing_token_carries_path_unchanged() {
    let result = extract_token_from_request("GET /callback HTTP/1.1");
    match result {
        Err(BrowserAuthError::MissingToken(path)) => assert_eq!(path, "/callback"),
        other => panic!("expected MissingToken, got {:?}", other),
    }
}

#[test]
fn test_invalid_request_on_short_line() {
    let result = extract_token_from_request("GET");
    assert!(matches!(result, Err(BrowserAuthError::InvalidRequest)));
}

#[test]
fn test_invalid_request_on_empty_line() {
    let result = extract_token_from_request("");
    assert!(matches!(result, Err(BrowserAuthError::InvalidRequest)));
}

#[test]
fn test_decode_failed_on_invalid_utf8() {
    // %ff decodes to a lone 0xff byte, which is not valid UTF-8.
    let result = extract_token_from_request("GET /?token=%ff HTTP/1.1");
    assert!(matches!(result, Err(BrowserAuthError::DecodeFailed(_))));
}

#[test]
fn test_extract_token_tab_delimited() {
    let token = extract_token_from_request("GET\t/?token=xyz\tHTTP/1.1").unwrap();
    assert_eq!(token, "xyz");
}

#[test]
fn test_extract_token_ignores_trailing_junk_after_percent_prefix() {
    // Only the fixed prefix is stripped; the rest is decoded as one token.
    let token = extract_token_from_request("GET /?token=a%26b%3Dc HTTP/1.1").unwrap();
    assert_eq!(token, "a&b=c");
}

#[test]
fn test_extract_empty_token() {
    let token = extract_token_from_request("GET /?token= HTTP/1.1").unwrap();
    assert_eq!(token, "");
}

#[test]
fn test_extract_token_no_query_splitting() {
    // Only the fixed prefix is stripped: an unencoded '?' or '&' after it
    // stays part of the token.
    let token = extract_token_from_request("GET /?token=abc?d=e&f=g HTTP/1.1").unwrap();
    assert_eq!(token, "abc?d=e&f=g");
}

#[test]
fn test_extract_token_repeated_spaces() {
    let token = extract_token_from_request("GET   /?token=abc   HTTP/1.1").unwrap();
    assert_eq!(token, "abc");
}

#[test]
fn test_proof_keys_differ_across_calls() {
    let first = generate_proof_key();
    for _ in 0..8 {
        let next = generate_proof_key();
        assert_ne!(first, next);
    }
}

#[test]
fn test_confirmation_response_is_http_ok_html() {
    let page = confirmation_response();
    assert!(page.starts_with("HTTP/1.1 200 OK"));
    assert!(page.contains("Content-Type: text/html"));
    assert!(page.contains("Connection: close"));
    assert!(page.contains("You can close this tab."));
}
