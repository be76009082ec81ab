use snowflake_api::endpoint::{ConnectionConfig, UriScheme};
use snowflake_api::retry::{
    classify_status, AttemptOutcome, CorrelationIdGenerator, RetryState, DEFAULT_MAX_RETRIES,
};
use snowflake_api::router::QueryType;

#[test]
fn test_query_contexts_match_protocol() {
    let login = QueryType::LoginRequest.query_context();
    assert_eq!(login.path, "session/v1/login-request");
    assert_eq!(login.accept_mime, "application/json");

    let token = QueryType::TokenRequest.query_context();
    assert_eq!(token.path, "/session/token-request");
    assert_eq!(token.accept_mime, "application/snowflake");

    let close = QueryType::CloseSession.query_context();
    assert_eq!(close.path, "session");
    assert_eq!(close.accept_mime, "application/snowflake");

    let json = QueryType::JsonQuery.query_context();
    assert_eq!(json.path, "queries/v1/query-request");
    assert_eq!(json.accept_mime, "application/json");

    let arrow = QueryType::ArrowQuery.query_context();
    assert_eq!(arrow.path, "queries/v1/query-request");
    assert_eq!(arrow.accept_mime, "application/snowflake");
}

#[test]
fn test_query_contexts_have_no_collisions() {
    let intents = [
        QueryType::LoginRequest,
        QueryType::TokenRequest,
        QueryType::CloseSession,
        QueryType::JsonQuery,
        QueryType::ArrowQuery,
    ];
    let pairs: Vec<(&str, &str)> = intents
        .iter()
        .map(|q| {
            let ctx = q.query_context();
            (ctx.path, ctx.accept_mime)
        })
        .collect();
    for i in 0..pairs.len() {
        for j in 0..pairs.len() {
            if i != j {
                assert_ne!(pairs[i], pairs[j]);
            }
        }
    }
}

#[test]
fn test_connection_config_defaults() {
    let config = ConnectionConfig::new(None, None);
    assert_eq!(config.base_authority, ".snowflakecomputing.com");
    assert_eq!(config.scheme, UriScheme::Https);
}

#[test]
fn test_connection_config_overrides() {
    let config = ConnectionConfig::new(Some("0.0.0.0:1234".to_string()), Some(UriScheme::Http));
    assert_eq!(config.base_authority, "0.0.0.0:1234");
    assert_eq!(config.scheme, UriScheme::Http);
}

#[test]
fn test_request_url_shape() {
    let config = ConnectionConfig::new(None, None);
    let url = config.request_url("myaccount", &QueryType::LoginRequest);
    assert_eq!(
        url,
        "https://myaccount.snowflakecomputing.com/session/v1/login-request"
    );
}

#[test]
fn test_request_url_with_params_appends_query() {
    let config = ConnectionConfig::new(None, None);
    let params = vec![
        ("requestId".to_string(), "42".to_string()),
        ("databaseName".to_string(), "db".to_string()),
    ];
    let url = config
        .request_url_with_params("acc", &QueryType::JsonQuery, &params)
        .unwrap();
    assert_eq!(
        url,
        "https://acc.snowflakecomputing.com/queries/v1/query-request?requestId=42&databaseName=db"
    );
}

#[test]
fn test_request_url_with_params_percent_encodes() {
    let config = ConnectionConfig::new(None, None);
    let params = vec![("q".to_string(), "a b".to_string())];
    let url = config
        .request_url_with_params("acc", &QueryType::JsonQuery, &params)
        .unwrap();
    assert!(url.ends_with("query-request?q=a+b"));
}

#[test]
fn test_request_url_with_params_rejects_unparseable_base() {
    // A space is not a valid host character, so the base URL cannot parse.
    let config = ConnectionConfig::new(None, None);
    let result = config.request_url_with_params("my account", &QueryType::LoginRequest, &Vec::new());
    assert!(result.is_err());
}

#[test]
fn test_classify_status() {
    assert_eq!(classify_status(200), AttemptOutcome::Success);
    assert_eq!(classify_status(204), AttemptOutcome::Success);
    assert_eq!(classify_status(500), AttemptOutcome::TransientFailure);
    assert_eq!(classify_status(503), AttemptOutcome::TransientFailure);
    assert_eq!(classify_status(599), AttemptOutcome::TransientFailure);
    assert_eq!(classify_status(400), AttemptOutcome::FatalFailure);
    assert_eq!(classify_status(404), AttemptOutcome::FatalFailure);
    assert_eq!(classify_status(302), AttemptOutcome::FatalFailure);
}

#[test]
fn test_all_transient_makes_retries_plus_one_attempts() {
    // The default three retries and a transient failure on every attempt:
    // exactly four physical attempts, each with a distinct correlation id.
    assert_eq!(DEFAULT_MAX_RETRIES, 3);
    let mut state = RetryState::new(DEFAULT_MAX_RETRIES);
    let mut ids = Vec::new();
    let mut generator = CorrelationIdGenerator::new(7);
    let mut attempts = 0u32;
    loop {
        attempts += 1;
        ids.push(generator.fresh());
        if !state.record_outcome(AttemptOutcome::TransientFailure) {
            break;
        }
    }
    assert_eq!(attempts, 4);
    assert_eq!(ids.len(), 4);
    for i in 0..ids.len() {
        for j in 0..ids.len() {
            if i != j {
                assert_ne!(ids[i], ids[j]);
            }
        }
    }
}

#[test]
fn test_fatal_first_makes_one_attempt() {
    let mut state = RetryState::new(3);
    let mut attempts = 0u32;
    loop {
        attempts += 1;
        if !state.record_outcome(AttemptOutcome::FatalFailure) {
            break;
        }
    }
    assert_eq!(attempts, 1);
}

#[test]
fn test_success_first_makes_one_attempt() {
    let mut state = RetryState::new(3);
    let mut attempts = 0u32;
    loop {
        attempts += 1;
        if !state.record_outcome(AttemptOutcome::Success) {
            break;
        }
    }
    assert_eq!(attempts, 1);
}

#[test]
fn test_zero_retries_makes_one_attempt_on_transient() {
    let mut state = RetryState::new(0);
    assert!(!state.record_outcome(AttemptOutcome::TransientFailure));
}

#[test]
fn test_correlation_id_render() {
    let mut generator = CorrelationIdGenerator::new(255);
    let a = generator.fresh();
    let b = generator.fresh();
    assert_eq!(a.render(), "00000000000000ff-0000000000000000");
    assert_eq!(b.render(), "00000000000000ff-0000000000000001");
    assert_ne!(a.render(), b.render());
}

#[test]
fn test_correlation_ids_share_run_tag() {
    let mut generator = CorrelationIdGenerator::new(99);
    let a = generator.fresh();
    let b = generator.fresh();
    assert_eq!(a.run, 99);
    assert_eq!(b.run, 99);
    assert_eq!(a.attempt, 0);
    assert_eq!(b.attempt, 1);
}
