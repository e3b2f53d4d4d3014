//! The response envelope, and the rules that turn an HTTP status and body
//! into a typed outcome.
use vstd::prelude::*;

use crate::error::{is_unexpected_body, SfError, SfResult};
use crate::util::deser_body;
use crate::SfApiError;

verus! {

/// The header map of an HTTP response, carried through unread.
#[verifier::external_type_specification]
#[verifier::external_body]
#[verifier::reject_recursive_types(T)]
pub struct ExHeaderMap<T>(reqwest::header::HeaderMap<T>);

/// A single header value.
#[verifier::external_type_specification]
#[verifier::external_body]
pub struct ExHeaderValue(reqwest::header::HeaderValue);

/// The envelope of every response, success or failure.
#[derive(Debug)]
pub struct SfResponse<T> {
    pub headers: reqwest::header::HeaderMap,
    pub status: u16,
    pub body: Option<T>,
}


/// The status of a successful read.
pub const OK: u16 = 200;
/// The status of a successful creation.
pub const CREATED: u16 = 201;
/// The status of a success with an empty body.
pub const NO_CONTENT: u16 = 204;

/// Which statuses an operation treats as success.
#[derive(Clone, Copy, Debug, PartialEq, Eq, Structural)]
pub enum Expected {
    /// A read: only 200.
    Fetched,
    /// A creation: only 201.
    Created,
    /// An update or upsert: 200, 201 or 204.
    Changed,
}

/// Whether `status` counts as success for an operation of kind `expected`.
pub open spec fn accepts(expected: Expected, status: u16) -> bool {
    match expected {
        Expected::Fetched => status == OK,
        Expected::Created => status == CREATED,
        Expected::Changed => status == OK || status == CREATED || status == NO_CONTENT,
    }
}

/// Whether a success of kind `expected` carries no body: an update whose
/// declared type is the unit type and whose raw body is empty.
pub open spec fn bodiless(expected: Expected, unit_type: bool, body: Seq<char>) -> bool {
    expected == Expected::Changed && unit_type && body.len() == 0
}

/// The outcome of a response whose status was not a success: the API's
/// error list when `errors` decoded, else the malformed-body error.
pub open spec fn failed<T>(
    headers: reqwest::header::HeaderMap,
    status: u16,
    body: Seq<char>,
    errors: Result<Vec<SfApiError>, serde_json::Error>,
    r: SfResult<SfResponse<T>>,
) -> bool {
    match errors {
        Ok(list) => r == Err::<SfResponse<T>, SfError>(
            SfError::ApiFailure(SfResponse { headers, status, body: Some(list) }),
        ),
        Err(e) => is_unexpected_body(r, e, body),
    }
}

/// The outcome of a response whose status was a success, with `value` the
/// body it carries.
pub open spec fn succeeded<T>(
    headers: reqwest::header::HeaderMap,
    status: u16,
    value: Option<T>,
    r: SfResult<SfResponse<T>>,
) -> bool {
    r == Ok::<SfResponse<T>, SfError>(SfResponse { headers, status, body: value })
}

/// Whether `status` counts as success for an operation of kind `expected`.
pub fn is_expected(expected: Expected, status: u16) -> (r: bool)
    ensures
        r == accepts(expected, status),
{
    match expected {
        Expected::Fetched => status == OK,
        Expected::Created => status == CREATED,
        Expected::Changed => status == OK || status == CREATED || status == NO_CONTENT,
    }
}

/// Builds the API-failure outcome of a response with an unexpected status.
fn failure<T>(
    headers: reqwest::header::HeaderMap,
    status: u16,
    body: &str,
    errors: Result<Vec<SfApiError>, serde_json::Error>,
) -> (r: SfResult<SfResponse<T>>)
    ensures
        failed(headers, status, body@, errors, r),
{
    match deser_body(body, errors) {
        Ok(list) => Err(SfError::ApiFailure(SfResponse { headers, status, body: Some(list) })),
        Err(e) => Err(e),
    }
}

/// Classifies the response of an object operation.
///
/// `parsed` is `body` decoded as the declared type `T`, `unit_type` tells
/// whether `T` is the unit type, and `errors` is `body` decoded as the API's
/// error list. On a success status the body is the decoded value, or absent
/// for an empty update answer expected as unit; a value that did not decode
/// gives the malformed-body error with the raw text. On any other status the
/// error list is returned as an API failure.
pub fn classify<T>(
    expected: Expected,
    status: u16,
    headers: reqwest::header::HeaderMap,
    body: &str,
    unit_type: bool,
    parsed: Result<T, serde_json::Error>,
    errors: Result<Vec<SfApiError>, serde_json::Error>,
) -> (r: SfResult<SfResponse<T>>)
    ensures
        accepts(expected, status) && bodiless(expected, unit_type, body@) ==> succeeded(
            headers,
            status,
            None,
            r,
        ),
        accepts(expected, status) && !bodiless(expected, unit_type, body@) ==> match parsed {
            Ok(v) => succeeded(headers, status, Some(v), r),
            Err(e) => is_unexpected_body(r, e, body@),
        },
        !accepts(expected, status) ==> failed(headers, status, body@, errors, r),
{
    if is_expected(expected, status) {
        if matches!(expected, Expected::Changed) && unit_type && body.is_empty() {
            Ok(SfResponse { headers, status, body: None })
        } else {
            match deser_body(body, parsed) {
                Ok(v) => Ok(SfResponse { headers, status, body: Some(v) }),
                Err(e) => Err(e),
            }
        }
    } else {
        failure(headers, status, body, errors)
    }
}

/// Classifies the response of a deletion: 204 is success with the unit body,
/// any other status returns the API's error list as a failure.
pub fn classify_deleted(
    status: u16,
    headers: reqwest::header::HeaderMap,
    body: &str,
    errors: Result<Vec<SfApiError>, serde_json::Error>,
) -> (r: SfResult<SfResponse<()>>)
    ensures
        status == NO_CONTENT ==> succeeded(headers, status, Some(()), r),
        status != NO_CONTENT ==> failed(headers, status, body@, errors, r),
{
    if status == NO_CONTENT {
        Ok(SfResponse { headers, status, body: Some(()) })
    } else {
        failure(headers, status, body, errors)
    }
}

} // verus!
