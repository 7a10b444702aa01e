//! Verification sidecar for proxy subrequest authentication: caches the
//! identity provider's public signing keys and decides whether a presented
//! access token is authentic, unexpired, and scoped to the expected audience.

pub mod config;
pub mod jwks;
pub mod store;
pub mod claims;
pub mod validate;
pub mod gateway;
