//! What the node's API reports when a request fails inside the node.

use vstd::prelude::*;

verus! {

/// The groups under which the API lists its operations.
#[derive(Clone, Copy, Debug, PartialEq, Eq, Structural)]
pub enum ApiTags {
    /// General information.
    General,
}

/// The HTTP status of an internal server error.
pub const INTERNAL_SERVER_ERROR: u16 = 500;

/// An error of the API, as a status and a description.
#[derive(Clone, Debug, PartialEq, Eq)]
pub struct ApiError {
    /// The HTTP status of the response.
    pub status_code: u16,
    /// What went wrong.
    pub message: String,
}

/// The machine-readable class of an API error.
#[derive(Clone, Copy, Debug, PartialEq, Eq, Structural)]
pub enum AptosErrorCode {
    /// The error has no class of its own.
    Unspecified,
}

/// The body of an error response.
#[derive(Clone, Debug, PartialEq, Eq)]
pub struct AptosError {
    /// What went wrong.
    pub message: String,
    /// The class of the error, if it was given one.
    pub error_code: Option<AptosErrorCode>,
}

impl AptosError {
    /// The error that says `message`, without a class.
    pub fn new(message: String) -> (error: Self)
        ensures
            error.message == message,
            error.error_code is None,
    {
        AptosError { message, error_code: None }
    }

    /// The same error with the class `error_code`.
    pub fn error_code(self, error_code: AptosErrorCode) -> (error: Self)
        ensures
            error.message == self.message,
            error.error_code == Some(error_code),
    {
        AptosError { message: self.message, error_code: Some(error_code) }
    }
}

/// An error response: the HTTP status and the body.
#[derive(Clone, Debug, PartialEq, Eq)]
pub struct AptosErrorResponse {
    /// The HTTP status of the response.
    pub status_code: u16,
    /// The body of the response.
    pub error: AptosError,
}

} // verus!
