//! Request payloads sent to the remote service.
//!
//! Plain data: each struct mirrors one JSON request body.  Serialization
//! happens outside this crate, on unverified copies of these types; the
//! values themselves are built and inspected here.

use vstd::prelude::*;

verus! {

/// Body of a query-execution request.
#[derive(Debug)]
pub struct ExecRequest {
    pub sql_text: String,
    pub async_exec: bool,
    pub sequence_id: u64,
    pub is_internal: bool,
}

/// Envelope of every login-request body: one `data` field.
#[derive(Debug)]
pub struct LoginRequest<T> {
    pub data: T,
}

pub type PasswordLoginRequest = LoginRequest<PasswordRequestData>;

pub type CertLoginRequest = LoginRequest<CertRequestData>;

pub type BrowserLoginRequest = LoginRequest<BrowserRequestData>;

/// The fields every login variant carries.
#[derive(Debug)]
pub struct LoginRequestCommon {
    pub client_app_id: String,
    pub client_app_version: String,
    pub svn_revision: String,
    pub account_name: String,
    pub login_name: String,
    pub session_parameters: SessionParameters,
    pub client_environment: ClientEnvironment,
}

/// Session parameters sent along with a login.
#[derive(Debug)]
pub struct SessionParameters {
    pub client_validate_default_parameters: bool,
}

/// The client environment reported at login.
#[derive(Debug)]
pub struct ClientEnvironment {
    pub application: String,
    pub os: String,
    pub os_version: String,
    pub ocsp_mode: String,
}

/// Login with a password.
#[derive(Debug)]
pub struct PasswordRequestData {
    pub login_request_common: LoginRequestCommon,
    pub password: String,
}

/// Login with a key-pair certificate token.
#[derive(Debug)]
pub struct CertRequestData {
    pub login_request_common: LoginRequestCommon,
    pub authenticator: String,
    pub token: String,
}

/// Body of a session-renewal request.
#[derive(Debug)]
pub struct RenewSessionRequest {
    pub old_session_token: String,
    pub request_type: String,
}

/// First phase of browser SSO: asks the service for the SSO URL.
#[derive(Debug)]
pub struct AuthenticatorRequest {
    pub data: AuthenticatorRequestData,
}

/// Payload of the first browser SSO phase: identifies the account and
/// names the local port the identity provider is to redirect to.
#[derive(Debug)]
pub struct AuthenticatorRequestData {
    pub account_name: String,
    pub login_name: String,
    pub authenticator: String,
    pub browser_mode_redirect_port: String,
}

/// Second phase of browser SSO: completes the login with the token the
/// callback delivered and the proof key generated at flow start.
#[derive(Debug)]
pub struct BrowserRequestData {
    pub login_request_common: LoginRequestCommon,
    pub authenticator: String,
    pub token: String,
    pub proof_key: String,
}

} // verus!
