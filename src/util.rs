//! Decoding helpers shared by every response path.
use vstd::prelude::*;

use crate::error::{is_unexpected_body, SfError, SfResult};

verus! {

/// Whether `T` is the unit type `()`.
///
/// Relies on `std::any::TypeId::of`: two types have equal ids exactly when
/// they are the same type.
#[verifier::external_body]
pub fn is_unit<T: ?Sized + 'static>() -> bool {
    std::any::TypeId::of::<T>() == std::any::TypeId::of::<()>()
}

/// What decoding `body` as the declared type gave, as the client reports it:
/// the decoded value, or the malformed-body error with `body` kept verbatim.
pub open spec fn decoded<T>(parsed: Result<T, serde_json::Error>, body: Seq<char>, r: SfResult<T>) -> bool {
    match parsed {
        Ok(v) => r == Ok::<T, SfError>(v),
        Err(e) => is_unexpected_body(r, e, body),
    }
}

/// Turns the outcome of decoding `body` into the client's result: a value
/// stays a value, and a decoding error becomes a malformed-body error that
/// carries the raw text.
pub fn deser_body<T>(body: &str, parsed: Result<T, serde_json::Error>) -> (r: SfResult<T>)
    ensures
        decoded(parsed, body@, r),
{
    match parsed {
        Ok(v) => Ok(v),
        Err(error) => Err(SfError::UnexpectedBody { error, body: String::from_str(body) }),
    }
}

} // verus!
