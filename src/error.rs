//! Error types for API operations.
use vstd::prelude::*;

verus! {

/// The transport error of `reqwest`, carried as it is in
/// [`BeeperError::RequestError`]; nothing inside it is read.
#[verifier::external_type_specification]
#[verifier::external_body]
pub struct ExReqwestError(reqwest::Error);

/// Whether a transport error is a failure to connect, as
/// `reqwest::Error::is_connect` tells it; it depends on the error alone.
pub uninterp spec fn connect_failed_of(e: reqwest::Error) -> bool;

/// Relies on `reqwest::Error::is_connect`: whether the failure happened while
/// connecting, found by walking the error's own chain of sources.
pub assume_specification[ reqwest::Error::is_connect ](e: &reqwest::Error) -> (r: bool)
    ensures
        r == connect_failed_of(*e),
;

/// The closed set of failures an API operation can report.
#[derive(Debug)]
pub enum BeeperError {
    /// No connection could be made to the API at `url`.
    ApiNotReachable { url: String },
    /// The bearer token is invalid or expired.
    Unauthorized,
    /// A transport failure that is not a failure to connect.
    RequestError(reqwest::Error),
    /// The API answered with an error: a structured body, or an unrecognised
    /// status with the raw body text.
    ApiError { code: String, message: String },
    /// The response body did not have the expected shape.
    SerializationError(String),
    /// A required input field is missing.
    MissingField(String),
    /// A configuration problem: a rejected token, a missing resource, or a
    /// rate limit.
    InvalidConfig(String),
}

/// Result type for API operations.
pub type Result<T> = std::result::Result<T, BeeperError>;

} // verus!
