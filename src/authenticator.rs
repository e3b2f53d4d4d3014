//! Authentication: the two ways of obtaining an access token, and the rules
//! that classify the token and user-info endpoints' answers.
use vstd::prelude::*;

use crate::error::{SfError, SfLoginError, SfResult};
use crate::response::{SfResponse, OK};
use crate::util::{decoded, deser_body};

pub mod jwt;
pub mod session;

verus! {

/// The authorization server a login assertion is addressed to.
#[derive(Clone, Copy, Debug, PartialEq, Eq, Structural)]
pub enum AuthorizationServer {
    Live,
    Test,
}

impl AuthorizationServer {
    /// The base URL of the server.
    pub open spec fn spec_url(self) -> Seq<char> {
        match self {
            AuthorizationServer::Live => "https://login.salesforce.com"@,
            AuthorizationServer::Test => "https://test.salesforce.com"@,
        }
    }

    /// The base URL of the server, the audience of a login assertion.
    pub fn url(&self) -> (r: String)
        ensures
            r@ == self.spec_url(),
    {
        match self {
            AuthorizationServer::Live => String::from_str("https://login.salesforce.com"),
            AuthorizationServer::Test => String::from_str("https://test.salesforce.com"),
        }
    }
}

/// An access token and the instance it is valid for.
#[derive(Debug, PartialEq)]
pub struct SfAccessToken {
    pub access_token: String,
    pub scope: String,
    pub instance_url: String,
    pub id: String,
    pub token_type: String,
}

/// What the user-info endpoint tells of the logged-in user. `updated_at` is
/// the time of the last change, in seconds since the Unix epoch.
#[derive(Debug, PartialEq)]
pub struct SfUserInfo {
    pub sub: String,
    pub user_id: String,
    pub organization_id: String,
    pub preferred_username: String,
    pub nickname: String,
    pub name: String,
    pub email: String,
    pub email_verified: bool,
    pub given_name: String,
    pub family_name: String,
    pub zoneinfo: String,
    pub profile: String,
    pub picture: String,
    pub phone_number: String,
    pub phone_number_verified: bool,
    pub is_salesforce_integration_user: bool,
    pub active: bool,
    pub user_type: String,
    pub language: String,
    pub locale: String,
    pub utc_offset: i64,
    pub updated_at: i64,
}

/// The body a refused login carries: the decoded structured error, if any.
pub open spec fn login_error_body(failure: Result<SfLoginError, serde_json::Error>) -> Option<SfLoginError> {
    match failure {
        Ok(e) => Some(e),
        Err(_) => None,
    }
}

/// Classifies an answer of the token endpoint, or of another endpoint that
/// reports failures in its structured login-error form.
///
/// `parsed` is `body` decoded as the expected `T` and `failure` is `body`
/// decoded as the structured login error. A 200 gives the decoded value, or
/// the malformed-body error; any other status is a login failure that keeps
/// the structured error when it decoded.
pub fn classify_login<T>(
    status: u16,
    headers: reqwest::header::HeaderMap,
    body: &str,
    parsed: Result<T, serde_json::Error>,
    failure: Result<SfLoginError, serde_json::Error>,
) -> (r: SfResult<T>)
    ensures
        status == OK ==> decoded(parsed, body@, r),
        status != OK ==> r == Err::<T, SfError>(
            SfError::LoginFailure(SfResponse { headers, status, body: login_error_body(failure) }),
        ),
{
    if status == OK {
        deser_body(body, parsed)
    } else {
        let error = match failure {
            Ok(e) => Some(e),
            Err(_) => None,
        };
        Err(SfError::LoginFailure(SfResponse { headers, status, body: error }))
    }
}

} // verus!
