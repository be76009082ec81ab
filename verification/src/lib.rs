//! Verified core of a Snowflake-style warehouse client.
//!
//! The crate covers the two protocol-heavy pieces of such a client: the
//! browser single-sign-on flow (proof key minting, callback request-line
//! parsing, token extraction) and the resilient request layer (endpoint
//! routing, request-URL construction, retry decisions, and per-attempt
//! correlation identifiers).  Network and process boundaries stay outside
//! the crate; everything here is logic with contracts.

pub mod browser;
pub mod endpoint;
pub mod requests;
pub mod retry;
pub mod router;
pub mod sso;
