//! A typed client for a CRM platform's REST API.
//!
//! The library holds the logic of the client: it builds the resource URLs,
//! the signed login assertion and its form, and it classifies every HTTP
//! response into a typed success, an API error list, or a malformed body.
//! Sending requests and decoding JSON happen around it.
use vstd::prelude::*;

pub mod authenticator;
pub mod error;
pub mod response;
pub mod util;

pub use authenticator::jwt::{JwtAuthenticator, LoginClaims};
pub use authenticator::session::SessionAuthenticator;
pub use authenticator::{AuthorizationServer, SfAccessToken, SfUserInfo};
pub use error::{SfError, SfLoginError, SfResult};
pub use response::SfResponse;

verus! {

/// One element of the error array that object operations answer with.
#[derive(Debug, PartialEq)]
pub struct SfApiError {
    pub error_code: String,
    pub message: String,
}


/// The `query` resource's answer: one page of records and how to get the next.
#[derive(Debug, PartialEq)]
pub struct QueryResponse<T> {
    pub total_size: i32,
    pub done: bool,
    pub next_records_url: String,
    pub records: Vec<QueryRecord<T>>,
}

/// One record of a query answer: its metadata and its own fields as `T`.
#[derive(Debug, PartialEq)]
pub struct QueryRecord<T> {
    pub attributes: QueryRecordAttributes,
    pub object: T,
}

/// The type and URL of a queried record.
#[derive(Debug, PartialEq)]
pub struct QueryRecordAttributes {
    pub type_: String,
    pub url: String,
}

/// The collection root's answer: every object type the API offers.
#[derive(Debug, PartialEq)]
pub struct ObjectDescriptionsResponse {
    pub encoding: String,
    pub max_batch_size: u32,
    pub sobjects: Vec<ObjectDescription>,
}

/// One object type's answer, wrapped in its `objectDescribe` envelope.
#[derive(Debug, PartialEq)]
pub struct ObjectDescriptionResponse {
    pub object_describe: ObjectDescription,
}

/// The name and label of an object type.
#[derive(Debug, PartialEq)]
pub struct ObjectDescription {
    pub name: String,
    pub label: String,
}

/// The answer to a creation or an upsert.
#[derive(Debug, PartialEq)]
pub struct CreateObjectResponse {
    pub id: Option<String>,
    pub errors: Vec<SfApiError>,
    pub success: bool,
}

/// A record named by an external-id field and its value, as upsert uses it.
#[derive(Debug, PartialEq)]
pub struct ExternalId {
    pub field: String,
    pub value: String,
}

impl ExternalId {
    pub fn new(field: String, value: String) -> (r: Self)
        ensures
            r.field == field,
            r.value == value,
    {
        Self { field, value }
    }
}

/// The text `s` with every byte of its UTF-8 form percent-encoded but
/// alphanumerics and `-`, `_`, `.`, `~`.
pub uninterp spec fn url_encoded(s: Seq<char>) -> Seq<char>;

/// Relies on `urlencoding::encode`, which percent-encodes a text byte by byte;
/// the result depends on the text alone.
#[verifier::external_body]
fn url_encode(s: &str) -> (r: String)
    ensures
        r@ == url_encoded(s@),
{
    urlencoding::encode(s).into_owned()
}

/// A client bound to one instance and one API version, with the bearer token
/// it was built with. None of them changes after construction.
pub struct SfClient {
    instance_url: String,
    version: String,
    bearer: String,
}

impl SfClient {
    /// The base URL of the instance.
    pub closed spec fn spec_instance_url(&self) -> Seq<char> {
        self.instance_url@
    }

    /// The API version, as in `58.0`.
    pub closed spec fn spec_version(&self) -> Seq<char> {
        self.version@
    }

    /// The bearer token sent with every request.
    pub closed spec fn spec_bearer(&self) -> Seq<char> {
        self.bearer@
    }

    /// The URL of resource `path` under the object API.
    pub open spec fn resource_url(&self, path: Seq<char>) -> Seq<char> {
        self.spec_instance_url() + "/services/data/v"@ + self.spec_version() + "/sobjects/"@ + path
    }

    /// A client for API `version`, bound to the instance and token that an
    /// authenticator handed out.
    pub fn new(version: String, token: SfAccessToken) -> (r: Self)
        ensures
            r.spec_instance_url() == token.instance_url@,
            r.spec_version() == version@,
            r.spec_bearer() == token.access_token@,
    {
        Self { instance_url: token.instance_url, version, bearer: token.access_token }
    }

    pub fn instance_url(&self) -> (r: &str)
        ensures
            r@ == self.spec_instance_url(),
    {
        self.instance_url.as_str()
    }

    pub fn version(&self) -> (r: &str)
        ensures
            r@ == self.spec_version(),
    {
        self.version.as_str()
    }

    pub fn bearer(&self) -> (r: &str)
        ensures
            r@ == self.spec_bearer(),
    {
        self.bearer.as_str()
    }

    fn url(&self, path: &str) -> (r: String)
        ensures
            r@ == self.resource_url(path@),
    {
        let mut url = String::from_str(self.instance_url.as_str());
        url.append("/services/data/v");
        url.append(self.version.as_str());
        url.append("/sobjects/");
        url.append(path);
        url
    }

    /// The collection root, which describes every object type.
    pub fn objects_url(&self) -> (r: String)
        ensures
            r@ == self.resource_url(Seq::empty()),
    {
        proof {
            reveal_strlit("");
        }
        self.url("")
    }

    /// The resource of object type `object`: its description, and where its
    /// records are created.
    pub fn object_url(&self, object: &str) -> (r: String)
        ensures
            r@ == self.resource_url(object@),
    {
        self.url(object)
    }

    /// The resource of record `id` of type `object`.
    pub fn record_url(&self, object: &str, id: &str) -> (r: String)
        ensures
            r@ == self.resource_url(object@ + "/"@ + id@),
    {
        let mut path = String::from_str(object);
        path.append("/");
        path.append(id);
        self.url(path.as_str())
    }

    /// The resource of the record of type `object` whose external-id field
    /// holds the given value.
    pub fn external_record_url(&self, object: &str, id: &ExternalId) -> (r: String)
        ensures
            r@ == self.resource_url(object@ + "/"@ + id.field@ + "/"@ + id.value@),
    {
        let mut path = String::from_str(object);
        path.append("/");
        path.append(id.field.as_str());
        path.append("/");
        path.append(id.value.as_str());
        self.url(path.as_str())
    }

    /// The resource that runs query `soql`, carried URL-encoded.
    pub fn query_url(&self, soql: &str) -> (r: String)
        ensures
            r@ == self.resource_url("query/?q="@ + url_encoded(soql@)),
    {
        let encoded = url_encode(soql);
        let mut path = String::from_str("query/?q=");
        path.append(encoded.as_str());
        self.url(path.as_str())
    }
}

} // verus!
