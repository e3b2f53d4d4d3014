//! Authentication with a session token obtained out of band.
use vstd::prelude::*;

use super::SfAccessToken;
use crate::error::{SfError, SfResult};
use crate::response::{SfResponse, OK};
use crate::util::{decoded, deser_body};

verus! {

/// An authenticator that already holds a token and the instance it is for.
pub struct SessionAuthenticator {
    access_token: String,
    instance_url: String,
}

impl SessionAuthenticator {
    /// The token held.
    pub closed spec fn spec_access_token(&self) -> Seq<char> {
        self.access_token@
    }

    /// The instance the token is for.
    pub closed spec fn spec_instance_url(&self) -> Seq<char> {
        self.instance_url@
    }

    pub fn new(access_token: String, instance_url: String) -> (r: Self)
        ensures
            r.spec_access_token() == access_token@,
            r.spec_instance_url() == instance_url@,
    {
        Self { access_token, instance_url }
    }

    /// Hands out the held token and instance, with empty scope, id and
    /// token type. No request is made, so this always succeeds.
    pub fn get_token(&self) -> (r: SfResult<SfAccessToken>)
        ensures
            match r {
                Ok(t) => {
                    &&& t.access_token@ == self.spec_access_token()
                    &&& t.instance_url@ == self.spec_instance_url()
                    &&& t.scope@.len() == 0
                    &&& t.id@.len() == 0
                    &&& t.token_type@.len() == 0
                },
                Err(_) => false,
            },
    {
        Ok(
            SfAccessToken {
                access_token: self.access_token.clone(),
                scope: String::new(),
                instance_url: self.instance_url.clone(),
                id: String::new(),
                token_type: String::new(),
            },
        )
    }

    /// The user-info endpoint of the instance.
    pub fn user_info_url(&self) -> (r: String)
        ensures
            r@ == self.spec_instance_url() + "/services/oauth2/userinfo"@,
    {
        let mut url = String::from_str(self.instance_url.as_str());
        url.append("/services/oauth2/userinfo");
        url
    }
}

/// Classifies the user-info endpoint's answer to a session token.
///
/// `parsed` is `body` decoded as the user information. A 200 gives the
/// decoded value, or the malformed-body error; any other status is a session
/// failure that carries the raw body text.
pub fn classify_user_info<T>(
    status: u16,
    headers: reqwest::header::HeaderMap,
    body: &str,
    parsed: Result<T, serde_json::Error>,
) -> (r: SfResult<T>)
    ensures
        status == OK ==> decoded(parsed, body@, r),
        status != OK ==> match r {
            Err(SfError::SessionFailure(resp)) => {
                &&& resp.headers == headers
                &&& resp.status == status
                &&& resp.body matches Some(text) && text@ == body@
            },
            _ => false,
        },
{
    if status == OK {
        deser_body(body, parsed)
    } else {
        Err(SfError::SessionFailure(SfResponse { headers, status, body: Some(String::from_str(body)) }))
    }
}

} // verus!
