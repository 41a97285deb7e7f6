//! Errors reported by the library.

use vstd::prelude::*;

verus! {

/// The error that the HTTP client reports for a failed request.
#[verifier::external_type_specification]
#[verifier::external_body]
pub struct ExReqwestError(reqwest::Error);

/// Errors that can occur when using the client.
#[derive(Debug)]
pub enum LanefulError {
    /// HTTP request failed.
    HttpError(reqwest::Error),
    /// API returned an error response.
    ApiError(String),
    /// Invalid configuration.
    ConfigError(String),
    /// Email validation failed.
    ValidationError(String),
}

/// Result type for the client's operations.
pub type Result<T> = core::result::Result<T, LanefulError>;

} // verus!
