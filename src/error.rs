//! The error taxonomy of the client.
use vstd::prelude::*;

use crate::response::SfResponse;
use crate::SfApiError;

verus! {

/// A transport failure reported by the HTTP client.
#[verifier::external_type_specification]
#[verifier::external_body]
pub struct ExClientError(reqwest::Error);

/// A failure to parse or sign the login assertion.
#[verifier::external_type_specification]
#[verifier::external_body]
pub struct ExAssertionError(jsonwebtoken::errors::Error);

/// A failure to decode a JSON body.
#[verifier::external_type_specification]
#[verifier::external_body]
pub struct ExJsonError(serde_json::Error);

/// A failure to read a key from disk.
#[verifier::external_type_specification]
#[verifier::external_body]
pub struct ExIoError(std::io::Error);

/// Everything that can go wrong while talking to the API.
#[derive(Debug)]
pub enum SfError {
    /// An object operation answered with an unexpected status; the body holds
    /// the API's error list.
    ApiFailure(SfResponse<Vec<SfApiError>>),
    /// The transport failed.
    Client(reqwest::Error),
    /// The login assertion could not be built from the key and claims.
    FailedToCreateAssertion(jsonwebtoken::errors::Error),
    /// The key could not be read.
    LoadKey(std::io::Error),
    /// The token endpoint refused the login; the body holds its structured
    /// error when it could be decoded.
    LoginFailure(SfResponse<SfLoginError>),
    /// The session's user-info endpoint refused the token; the body holds the
    /// raw text it answered with.
    SessionFailure(SfResponse<String>),
    /// A configuration variable, named here, was missing.
    MissingEnvConfig(String),
    /// An expected status came with a body that does not decode as the
    /// declared type; the raw body is kept.
    UnexpectedBody { error: serde_json::Error, body: String },
}

pub type SfResult<T> = Result<T, SfError>;

/// The structured error of the token endpoint.
#[derive(Debug, PartialEq)]
pub struct SfLoginError {
    pub error: String,
    pub error_description: String,
}

/// `r` is the malformed-body error for decoding error `e` of raw body `body`.
pub open spec fn is_unexpected_body<T>(r: SfResult<T>, e: serde_json::Error, body: Seq<char>) -> bool {
    match r {
        Err(SfError::UnexpectedBody { error, body: b }) => error == e && b@ == body,
        _ => false,
    }
}

} // verus!
