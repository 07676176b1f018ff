//! Acquires short-lived tokens (OAuth2 access tokens or OpenID Connect
//! identity tokens) from a cloud instance's local metadata service, which
//! authorizes requests by network topology rather than by stored credentials.
//! The flow builds the request URL and headers for either token kind, issues
//! one GET through a caller-supplied transport, and decodes the JSON response
//! into a token result; it neither caches nor refreshes what it returns.

pub mod application_default_credentials;
pub mod error;
pub mod helper;
pub mod types;
