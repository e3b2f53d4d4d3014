//! Authentication with a signed JWT bearer assertion.
use vstd::prelude::*;

use super::AuthorizationServer;
use crate::error::{SfError, SfResult};

verus! {

/// The compact RS256 token whose claims are `iss`, `aud`, `sub` and `exp`,
/// signed with the RSA private key in PEM text `key`; none where the key
/// cannot be read or the claims cannot be signed with it.
pub uninterp spec fn rs256_assertion(
    iss: Seq<char>,
    aud: Seq<char>,
    sub: Seq<char>,
    exp: i64,
    key: Seq<u8>,
) -> Option<Seq<char>>;

/// Relies on `jsonwebtoken::EncodingKey::from_rsa_pem` and
/// `jsonwebtoken::encode` under an RS256 header: the claims, as a JSON object
/// with the members `iss`, `aud`, `sub` and `exp`, are signed with the key.
/// RS256 (RSASSA-PKCS1-v1_5 over SHA-256) is deterministic, so the outcome
/// depends on the claims and the key alone.
#[verifier::external_body]
fn sign_claims(claims: &LoginClaims, key: &[u8]) -> (r: Result<String, jsonwebtoken::errors::Error>)
    ensures
        match rs256_assertion(claims.iss@, claims.aud@, claims.sub@, claims.exp, key@) {
            Some(a) => r matches Ok(s) && s@ == a,
            None => r is Err,
        },
{
    let key = jsonwebtoken::EncodingKey::from_rsa_pem(key)?;
    let members: std::collections::BTreeMap<&str, serde_json::Value> =
        std::collections::BTreeMap::from([
            ("iss", serde_json::Value::from(claims.iss.as_str())),
            ("aud", serde_json::Value::from(claims.aud.as_str())),
            ("sub", serde_json::Value::from(claims.sub.as_str())),
            ("exp", serde_json::Value::from(claims.exp)),
        ]);
    let header = jsonwebtoken::Header::new(jsonwebtoken::Algorithm::RS256);
    jsonwebtoken::encode(&header, &members, &key)
}

/// Relies on chrono's conversion of `std::time::SystemTime::now` into a UTC
/// date, read as whole seconds since the Unix epoch (negative before it).
/// The conversion handles a clock before the epoch; the system clock
/// (nanoseconds in a signed 64-bit count) stays within about 292 years of
/// the epoch, far inside chrono's range of dates.
#[verifier::external_body]
fn unix_now() -> (r: i64)
    ensures
        -10_000_000_000_000 < r < 10_000_000_000_000,
{
    chrono::DateTime::<chrono::Utc>::from(std::time::SystemTime::now()).timestamp()
}

/// How long a login assertion stays valid, in seconds.
pub const ASSERTION_LIFETIME: i64 = 60;

/// The claims of a login assertion: who asks (the client id), whom it is
/// addressed to (an authorization server), for whom (the user name), and
/// until when, in seconds since the Unix epoch.
#[derive(Clone, Debug, PartialEq)]
pub struct LoginClaims {
    pub iss: String,
    pub aud: String,
    pub sub: String,
    pub exp: i64,
}

impl LoginClaims {
    /// Claims for client `iss` and user `sub` addressed to `aud`, valid for
    /// one assertion lifetime from now.
    pub fn new(iss: String, aud: AuthorizationServer, sub: String) -> (r: Self)
        ensures
            r.iss == iss,
            r.aud@ == aud.spec_url(),
            r.sub == sub,
            -10_000_000_000_000 + ASSERTION_LIFETIME < r.exp < 10_000_000_000_000
                + ASSERTION_LIFETIME,
    {
        let now = unix_now();
        Self::issued_at(iss, aud, sub, now)
    }

    /// Claims for client `iss` and user `sub` addressed to `aud`, valid for
    /// one assertion lifetime from `now`.
    pub fn issued_at(iss: String, aud: AuthorizationServer, sub: String, now: i64) -> (r: Self)
        requires
            now <= i64::MAX - ASSERTION_LIFETIME,
        ensures
            r.iss == iss,
            r.aud@ == aud.spec_url(),
            r.sub == sub,
            r.exp == now + ASSERTION_LIFETIME,
    {
        Self { iss, aud: aud.url(), sub, exp: now + ASSERTION_LIFETIME }
    }

    /// The same claims, valid for one assertion lifetime from `now`.
    pub fn renewed(&self, now: i64) -> (r: Self)
        requires
            now <= i64::MAX - ASSERTION_LIFETIME,
        ensures
            r.iss@ == self.iss@,
            r.aud@ == self.aud@,
            r.sub@ == self.sub@,
            r.exp == now + ASSERTION_LIFETIME,
    {
        Self {
            iss: self.iss.clone(),
            aud: self.aud.clone(),
            sub: self.sub.clone(),
            exp: now + ASSERTION_LIFETIME,
        }
    }
}

/// The encodings the token endpoint can answer in.
#[derive(Clone, Copy, Debug, PartialEq, Eq, Structural)]
pub enum LoginResponseFormat {
    Json,
    UrlEncoded,
    Xml,
}

impl LoginResponseFormat {
    /// The form value that names the format.
    pub open spec fn spec_name(self) -> Seq<char> {
        match self {
            LoginResponseFormat::Json => "json"@,
            LoginResponseFormat::UrlEncoded => "urlencoded"@,
            LoginResponseFormat::Xml => "xml"@,
        }
    }

    pub fn name(&self) -> (r: String)
        ensures
            r@ == self.spec_name(),
    {
        match self {
            LoginResponseFormat::Json => String::from_str("json"),
            LoginResponseFormat::UrlEncoded => String::from_str("urlencoded"),
            LoginResponseFormat::Xml => String::from_str("xml"),
        }
    }
}

/// The grant type of the JWT bearer flow.
pub open spec fn jwt_bearer_grant() -> Seq<char> {
    "urn:ietf:params:oauth:grant-type:jwt-bearer"@
}

/// The form posted to the token endpoint.
#[derive(Debug, PartialEq)]
pub struct LoginForm {
    pub grant_type: String,
    pub assertion: String,
    pub format: LoginResponseFormat,
}

/// Whether `r` is the login form around a signing outcome: a JWT bearer
/// grant asking for a JSON answer with the signed assertion, or the failure
/// to sign.
pub open spec fn form_of(signed: Result<String, jsonwebtoken::errors::Error>, r: SfResult<LoginForm>) -> bool {
    match signed {
        Ok(a) => match r {
            Ok(form) => {
                &&& form.grant_type@ == jwt_bearer_grant()
                &&& form.assertion == a
                &&& form.format == LoginResponseFormat::Json
            },
            Err(_) => false,
        },
        Err(e) => r == Err::<LoginForm, SfError>(SfError::FailedToCreateAssertion(e)),
    }
}

/// Whether `r` is the login form for claims `iss`, `aud`, `sub`, `exp` and
/// the PEM key `key`: a JWT bearer grant asking for a JSON answer whose
/// assertion is the claims signed under RS256 with the key, or the failure to
/// create that assertion.
pub open spec fn signed_form(
    iss: Seq<char>,
    aud: Seq<char>,
    sub: Seq<char>,
    exp: i64,
    key: Seq<u8>,
    r: SfResult<LoginForm>,
) -> bool {
    match rs256_assertion(iss, aud, sub, exp, key) {
        Some(a) => match r {
            Ok(form) => {
                &&& form.grant_type@ == jwt_bearer_grant()
                &&& form.assertion@ == a
                &&& form.format == LoginResponseFormat::Json
            },
            Err(_) => false,
        },
        None => match r {
            Err(e) => e is FailedToCreateAssertion,
            Ok(_) => false,
        },
    }
}

impl LoginForm {
    /// A JWT bearer grant, asking for a JSON answer, whose assertion is
    /// `claims` signed under RS256 with the PEM-encoded RSA key `key`.
    /// It fails only when the key cannot be read or the claims not signed.
    pub fn new(claims: &LoginClaims, key: &[u8]) -> (r: SfResult<Self>)
        ensures
            signed_form(claims.iss@, claims.aud@, claims.sub@, claims.exp, key@, r),
    {
        Self::from_assertion(sign_claims(claims, key))
    }

    /// The login form around the outcome of signing the claims.
    pub fn from_assertion(signed: Result<String, jsonwebtoken::errors::Error>) -> (r: SfResult<Self>)
        ensures
            form_of(signed, r),
    {
        match signed {
            Ok(assertion) => Ok(
                Self {
                    grant_type: String::from_str("urn:ietf:params:oauth:grant-type:jwt-bearer"),
                    assertion,
                    format: LoginResponseFormat::Json,
                },
            ),
            Err(e) => Err(SfError::FailedToCreateAssertion(e)),
        }
    }

    /// The form's fields, in the order they are posted.
    pub fn fields(&self) -> (r: Vec<(String, String)>)
        ensures
            r@.len() == 3,
            r@[0].0@ == "grant_type"@,
            r@[0].1@ == self.grant_type@,
            r@[1].0@ == "assertion"@,
            r@[1].1@ == self.assertion@,
            r@[2].0@ == "format"@,
            r@[2].1@ == self.format.spec_name(),
    {
        let mut fields: Vec<(String, String)> = Vec::new();
        fields.push((String::from_str("grant_type"), self.grant_type.clone()));
        fields.push((String::from_str("assertion"), self.assertion.clone()));
        fields.push((String::from_str("format"), self.format.name()));
        fields
    }
}

/// `s` without the slashes it ends with.
pub open spec fn trim_trailing_slashes(s: Seq<char>) -> Seq<char>
    decreases s.len(),
{
    if s.len() > 0 && s.last() == '/' {
        trim_trailing_slashes(s.drop_last())
    } else {
        s
    }
}

/// Whether `s` starts with `http`.
pub open spec fn has_http_prefix(s: Seq<char>) -> bool {
    s.len() >= 4 && s.take(4) == seq!['h', 't', 't', 'p']
}

/// The base URL of an instance given as a domain or a URL: trailing slashes
/// are dropped, and a domain without a scheme gets `https://`.
pub open spec fn normalized_instance(domain: Seq<char>) -> Seq<char> {
    if has_http_prefix(domain) {
        trim_trailing_slashes(domain)
    } else {
        "https://"@ + trim_trailing_slashes(domain)
    }
}

fn starts_with_http(s: &str) -> (r: bool)
    ensures
        r == has_http_prefix(s@),
{
    if s.unicode_len() < 4 {
        return false;
    }
    let r = s.get_char(0) == 'h' && s.get_char(1) == 't' && s.get_char(2) == 't' && s.get_char(3)
        == 'p';
    proof {
        let p = seq!['h', 't', 't', 'p'];
        if r {
            assert(s@.take(4) =~= p);
        } else if s@.take(4) == p {
            assert(s@.take(4)[0] == p[0]);
            assert(s@.take(4)[1] == p[1]);
            assert(s@.take(4)[2] == p[2]);
            assert(s@.take(4)[3] == p[3]);
        }
    }
    r
}

fn trim_slashes(s: &str) -> (r: &str)
    ensures
        r@ == trim_trailing_slashes(s@),
{
    let mut end = s.unicode_len();
    proof {
        assert(s@.take(end as int) =~= s@);
    }
    while end > 0 && s.get_char(end - 1) == '/'
        invariant
            end <= s@.len(),
            trim_trailing_slashes(s@.take(end as int)) == trim_trailing_slashes(s@),
        decreases end,
    {
        proof {
            assert(s@.take(end as int).drop_last() =~= s@.take(end - 1));
        }
        end = end - 1;
    }
    let r = s.substring_char(0, end);
    proof {
        assert(r@ =~= s@.take(end as int));
    }
    r
}

/// An authenticator that signs a login assertion with a private key and
/// exchanges it for a token.
pub struct JwtAuthenticator {
    instance: String,
    key: Vec<u8>,
    claims: LoginClaims,
}

impl JwtAuthenticator {
    /// The base URL of the instance.
    pub closed spec fn spec_instance(&self) -> Seq<char> {
        self.instance@
    }

    /// The PEM-encoded private key.
    pub closed spec fn spec_key(&self) -> Seq<u8> {
        self.key@
    }

    /// The claims that each assertion carries.
    pub closed spec fn spec_claims(&self) -> LoginClaims {
        self.claims
    }

    /// An authenticator for the instance at `instance_domain`, a domain or a
    /// URL, signing `claims` with the PEM-encoded RSA key `key`.
    pub fn new(instance_domain: &str, claims: LoginClaims, key: Vec<u8>) -> (r: Self)
        ensures
            r.spec_instance() == normalized_instance(instance_domain@),
            r.spec_key() == key@,
            r.spec_claims() == claims,
    {
        let trimmed = trim_slashes(instance_domain);
        let instance = if starts_with_http(instance_domain) {
            String::from_str(trimmed)
        } else {
            let mut url = String::from_str("https://");
            url.append(trimmed);
            url
        };
        Self { instance, key, claims }
    }

    /// Replaces the signing key.
    pub fn key(&mut self, key: Vec<u8>)
        ensures
            final(self).spec_key() == key@,
            final(self).spec_instance() == old(self).spec_instance(),
            final(self).spec_claims() == old(self).spec_claims(),
    {
        self.key = key;
    }

    pub fn instance(&self) -> (r: &str)
        ensures
            r@ == self.spec_instance(),
    {
        self.instance.as_str()
    }

    /// The token endpoint of the instance.
    pub fn token_url(&self) -> (r: String)
        ensures
            r@ == self.spec_instance() + "/services/oauth2/token"@,
    {
        let mut url = String::from_str(self.instance.as_str());
        url.append("/services/oauth2/token");
        url
    }

    /// The login form for a token request made at `now`: the claims, valid
    /// for one assertion lifetime from `now`, signed with the key.
    pub fn login_form_at(&self, now: i64) -> (r: SfResult<LoginForm>)
        requires
            now <= i64::MAX - ASSERTION_LIFETIME,
        ensures
            signed_form(
                self.spec_claims().iss@,
                self.spec_claims().aud@,
                self.spec_claims().sub@,
                (now + ASSERTION_LIFETIME) as i64,
                self.spec_key(),
                r,
            ),
    {
        let claims = self.claims.renewed(now);
        LoginForm::new(&claims, self.key.as_slice())
    }

    /// The login form for the next token request: the claims, valid for one
    /// assertion lifetime from the moment of signing, signed with the key.
    pub fn login_form(&self) -> (r: SfResult<LoginForm>)
        ensures
            exists|exp: i64|
                -10_000_000_000_000 + ASSERTION_LIFETIME < exp < 10_000_000_000_000
                    + ASSERTION_LIFETIME && #[trigger] signed_form(
                    self.spec_claims().iss@,
                    self.spec_claims().aud@,
                    self.spec_claims().sub@,
                    exp,
                    self.spec_key(),
                    r,
                ),
    {
        let now = unix_now();
        self.login_form_at(now)
    }
}

} // verus!
