//! The error taxonomy of the tool.  Every failure surfaces to the
//! top-level invocation; there is no local recovery.

use vstd::prelude::*;

verus! {

/// Everything that can go wrong in one invocation of the tool.
#[derive(Clone, Copy, Debug, PartialEq, Eq, Structural)]
pub enum DplError {
    /// The configuration file does not exist.
    ConfigNotFound,
    /// The configuration file exists but is not a well-formed document
    /// carrying the required fields.
    ConfigParseError,
    /// The configuration file could not be written.
    ConfigWriteError,
    /// The request never produced a response (transport-level failure).
    NetworkError,
    /// The provider answered with a non-success HTTP status.
    ApiError,
    /// The response body does not match the expected translation shape.
    DecodeError,
    /// The response carried an empty list of translations.
    EmptyResult,
}

impl DplError {
    /// The human-readable message printed for this error.
    pub fn message(&self) -> (r: &'static str)
        ensures
            r@ == match self {
                DplError::ConfigNotFound => "configuration file not found"@,
                DplError::ConfigParseError => "configuration file could not be parsed"@,
                DplError::ConfigWriteError => "configuration file could not be written"@,
                DplError::NetworkError => "request failed before a response arrived"@,
                DplError::ApiError => "the service answered with an error status"@,
                DplError::DecodeError => "the response body has an unexpected shape"@,
                DplError::EmptyResult => "the service returned no translations"@,
            },
    {
        match self {
            DplError::ConfigNotFound => "configuration file not found",
            DplError::ConfigParseError => "configuration file could not be parsed",
            DplError::ConfigWriteError => "configuration file could not be written",
            DplError::NetworkError => "request failed before a response arrived",
            DplError::ApiError => "the service answered with an error status",
            DplError::DecodeError => "the response body has an unexpected shape",
            DplError::EmptyResult => "the service returned no translations",
        }
    }
}

} // verus!
