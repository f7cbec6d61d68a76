//! The Vercel DNS API surface: the record payload, the request builders for
//! the three operations, and the exact mapping from an HTTP response to a
//! typed outcome.

use vstd::prelude::*;
use vstd::string::*;

use crate::ip::IpType;
use crate::text::{dec_rep, dec_str, json_escape, json_escaped};

verus! {

/// A DNS record as the remote API sees it. The optional fields are assigned
/// by the server and are only present on records read back from the API;
/// records built locally for an upsert leave them unset.
#[derive(Debug, Clone)]
pub struct Record {
    pub created: Option<i64>,
    pub created_at: Option<i64>,
    pub creator: Option<String>,
    pub id: Option<String>,
    pub name: String,
    pub slug: Option<String>,
    pub ttl: Option<i64>,
    pub dns_type: String,
    pub updated: Option<i64>,
    pub updated_at: Option<i64>,
    pub value: String,
}

impl Record {
    /// Builds the payload for an upsert: the given fields are set, every
    /// server-assigned field is left unset.
    pub fn new(name: String, value: String, dns_type: String, ttl: i64) -> (r: Record)
        ensures
            r.name == name,
            r.value == value,
            r.dns_type == dns_type,
            r.ttl == Some(ttl),
            r.id is None,
            r.slug is None,
            r.creator is None,
            r.created is None,
            r.updated is None,
            r.created_at is None,
            r.updated_at is None,
    {
        Record {
            name,
            value,
            dns_type,
            ttl: Some(ttl),
            id: None,
            slug: None,
            creator: None,
            created: None,
            updated: None,
            created_at: None,
            updated_at: None,
        }
    }
}

/// The wire name of the DNS record type for a family: `A` for IPv4, `AAAA`
/// for IPv6.
pub open spec fn dns_type_spec(family: IpType) -> Seq<char> {
    match family {
        IpType::IPV4 => "A"@,
        IpType::IPV6 => "AAAA"@,
    }
}

/// Returns the DNS record type name for `family`.
pub fn dns_type_of(family: &IpType) -> (r: String)
    ensures
        r@ == dns_type_spec(*family),
{
    match family {
        IpType::IPV4 => String::from_str("A"),
        IpType::IPV6 => String::from_str("AAAA"),
    }
}

/// A typed error of the remote API, derived from the HTTP status.
#[derive(Debug, Clone)]
pub enum VercelError {
    /// The credential was rejected (HTTP 403).
    Unauthorized,
    /// The domain is absent or inaccessible under this credential (404).
    MissingDomain { domain: String },
    /// Any other non-success status; code and message come from the
    /// response body verbatim.
    Unknown { code: String, message: String },
}

/// Mathematical image of a `VercelError`.
pub enum ErrorView {
    Unauthorized,
    MissingDomain { domain: Seq<char> },
    Unknown { code: Seq<char>, message: Seq<char> },
}

impl View for VercelError {
    type V = ErrorView;

    open spec fn view(&self) -> ErrorView {
        match self {
            VercelError::Unauthorized => ErrorView::Unauthorized,
            VercelError::MissingDomain { domain } => ErrorView::MissingDomain { domain: domain@ },
            VercelError::Unknown { code, message } => ErrorView::Unknown {
                code: code@,
                message: message@,
            },
        }
    }
}

/// The human-readable description of an API error.
pub open spec fn error_message_spec(e: ErrorView) -> Seq<char> {
    match e {
        ErrorView::Unauthorized => "Unauthorized credentials. Check your Vercel token."@,
        ErrorView::MissingDomain { domain } => "The domain "@ + domain
            + " could not be found on your account."@,
        ErrorView::Unknown { code, message } => "Vercel Error "@ + code + ": "@ + message + "."@,
    }
}

impl VercelError {
    /// Renders the error as its human-readable description.
    pub fn message(&self) -> (r: String)
        ensures
            r@ == error_message_spec(self@),
    {
        match self {
            VercelError::Unauthorized => String::from_str(
                "Unauthorized credentials. Check your Vercel token.",
            ),
            VercelError::MissingDomain { domain } => {
                let mut s = String::from_str("The domain ");
                s.append(domain.as_str());
                s.append(" could not be found on your account.");
                s
            },
            VercelError::Unknown { code, message } => {
                let mut s = String::from_str("Vercel Error ");
                s.append(code.as_str());
                s.append(": ");
                s.append(message.as_str());
                s.append(".");
                s
            },
        }
    }
}

/// What talking to the API can come to, short of success: a typed API error,
/// or a response whose body could not be read as the expected JSON. The two
/// are kept apart: a malformed body is never coerced into `Unknown`.
#[derive(Debug, Clone)]
pub enum ApiFailure {
    Vercel { error: VercelError },
    MalformedResponse,
}

/// Mathematical image of an `ApiFailure`.
pub enum FailureView {
    Vercel { error: ErrorView },
    MalformedResponse,
}

impl View for ApiFailure {
    type V = FailureView;

    open spec fn view(&self) -> FailureView {
        match self {
            ApiFailure::Vercel { error } => FailureView::Vercel { error: error@ },
            ApiFailure::MalformedResponse => FailureView::MalformedResponse,
        }
    }
}

/// The human-readable description of a failure.
pub open spec fn failure_message_spec(f: FailureView) -> Seq<char> {
    match f {
        FailureView::Vercel { error } => error_message_spec(error),
        FailureView::MalformedResponse => "Received a malformed response from the Vercel API."@,
    }
}

impl ApiFailure {
    /// Renders the failure as its human-readable description.
    pub fn message(&self) -> (r: String)
        ensures
            r@ == failure_message_spec(self@),
    {
        match self {
            ApiFailure::Vercel { error } => error.message(),
            ApiFailure::MalformedResponse => String::from_str(
                "Received a malformed response from the Vercel API.",
            ),
        }
    }
}

/// HTTP method of a prepared request.
#[derive(Clone, Copy, Debug, PartialEq, Eq, Structural)]
pub enum Method {
    Get,
    Post,
}

/// A fully prepared API request: everything the transport needs to perform
/// the call, with `token` to be presented as a bearer credential.
#[derive(Debug, Clone)]
pub struct ApiRequest {
    pub method: Method,
    pub url: String,
    pub token: String,
    pub body: Option<String>,
}

/// Mathematical image of an `ApiRequest`.
pub struct RequestView {
    pub method: Method,
    pub url: Seq<char>,
    pub token: Seq<char>,
    pub body: Option<Seq<char>>,
}

impl View for ApiRequest {
    type V = RequestView;

    open spec fn view(&self) -> RequestView {
        RequestView {
            method: self.method,
            url: self.url@,
            token: self.token@,
            body: match &self.body {
                Some(b) => Some(b@),
                None => None,
            },
        }
    }
}

/// URL of the record collection under `domain` (create/update endpoint).
pub open spec fn records_url_spec(domain: Seq<char>) -> Seq<char> {
    "https://api.vercel.com/v2/domains/"@ + domain + "/records"@
}

/// URL of the paginated record listing under `domain`.
pub open spec fn list_url_spec(domain: Seq<char>) -> Seq<char> {
    "https://api.vercel.com/v4/domains/"@ + domain + "/records"@
}

/// URL of the single record `id` under `domain`.
pub open spec fn record_url_spec(domain: Seq<char>, id: Seq<char>) -> Seq<char> {
    records_url_spec(domain) + "/"@ + id
}

fn records_url(domain: &str) -> (r: String)
    ensures
        r@ == records_url_spec(domain@),
{
    let mut url = String::from_str("https://api.vercel.com/v2/domains/");
    url.append(domain);
    url.append("/records");
    url
}

/// The JSON body submitted on an upsert: exactly the four locally chosen
/// fields, in this order, with the strings JSON-escaped.
pub open spec fn upsert_body_spec(
    name: Seq<char>,
    value: Seq<char>,
    rtype: Seq<char>,
    ttl: nat,
) -> Seq<char> {
    "{\"name\":\""@ + json_escaped(name) + "\",\"value\":\""@ + json_escaped(value)
        + "\",\"type\":\""@ + json_escaped(rtype) + "\",\"ttl\":"@ + dec_rep(ttl) + "}"@
}

/// Frames the JSON body for an upsert of `record`.
pub fn upsert_body(record: &Record) -> (r: String)
    requires
        record.ttl matches Some(t) && t >= 0,
    ensures
        r@ == upsert_body_spec(
            record.name@,
            record.value@,
            record.dns_type@,
            record.ttl->0 as nat,
        ),
{
    let ttl: i64 = match record.ttl {
        Some(t) => t,
        None => 0,
    };
    let mut s = String::from_str("{\"name\":\"");
    s.append(json_escape(record.name.as_str()).as_str());
    s.append("\",\"value\":\"");
    s.append(json_escape(record.value.as_str()).as_str());
    s.append("\",\"type\":\"");
    s.append(json_escape(record.dns_type.as_str()).as_str());
    s.append("\",\"ttl\":");
    s.append(dec_str(ttl as u64).as_str());
    s.append("}");
    s
}

/// Prepares the upsert request: POST to the record collection of `domain`,
/// bearing `token`, with the framed record as its body.
pub fn upsert_request(domain: &str, token: &str, record: &Record) -> (r: ApiRequest)
    requires
        record.ttl matches Some(t) && t >= 0,
    ensures
        r@ == (RequestView {
            method: Method::Post,
            url: records_url_spec(domain@),
            token: token@,
            body: Some(
                upsert_body_spec(
                    record.name@,
                    record.value@,
                    record.dns_type@,
                    record.ttl->0 as nat,
                ),
            ),
        }),
{
    ApiRequest {
        method: Method::Post,
        url: records_url(domain),
        token: String::from_str(token),
        body: Some(upsert_body(record)),
    }
}

/// Prepares the listing request: GET on the record listing of `domain`.
pub fn list_request(domain: &str, token: &str) -> (r: ApiRequest)
    ensures
        r@ == (RequestView {
            method: Method::Get,
            url: list_url_spec(domain@),
            token: token@,
            body: None,
        }),
{
    let mut url = String::from_str("https://api.vercel.com/v4/domains/");
    url.append(domain);
    url.append("/records");
    ApiRequest { method: Method::Get, url, token: String::from_str(token), body: None }
}

/// The error a request builder can refuse with before any call is made.
#[derive(Debug, Clone, PartialEq, Eq, Structural)]
pub enum RequestError {
    /// A deletion was asked of a record that carries no server-assigned id.
    MissingRecordId,
}

/// The human-readable description of a request-builder error.
pub open spec fn request_error_message_spec(e: RequestError) -> Seq<char> {
    "Record did not have an ID."@
}

impl RequestError {
    /// Renders the error as its human-readable description.
    pub fn message(&self) -> (r: String)
        ensures
            r@ == request_error_message_spec(*self),
    {
        String::from_str("Record did not have an ID.")
    }
}

/// Prepares the deletion request for `record` under `domain`. A record that
/// carries no server-assigned id is refused outright, before anything could
/// reach the network.
pub fn delete_request(domain: &str, token: &str, record: &Record) -> (r: Result<
    ApiRequest,
    RequestError,
>)
    ensures
        record.id is None <==> r == Err::<ApiRequest, RequestError>(RequestError::MissingRecordId),
        record.id matches Some(id) ==> r matches Ok(req) && req@ == (RequestView {
            method: Method::Get,
            url: record_url_spec(domain@, id@),
            token: token@,
            body: None,
        }),
{
    match &record.id {
        None => Err(RequestError::MissingRecordId),
        Some(id) => {
            let mut url = records_url(domain);
            url.append("/");
            url.append(id.as_str());
            Ok(ApiRequest { method: Method::Get, url, token: String::from_str(token), body: None })
        },
    }
}

/// What an `error` envelope in a response body holds: `Some((code, message))`
/// when the body is JSON carrying string fields `code` and `message` under
/// an `error` object, `None` otherwise.
pub uninterp spec fn error_fields_of(s: Seq<char>) -> Option<(Seq<char>, Seq<char>)>;

/// Relies on `serde_json::from_str` and `serde_json::Value`'s `as_str`: the
/// `code` and `message` strings under the body's `error` object, if the body
/// parses as JSON and carries them. The outcome is a function of the text
/// alone.
#[verifier::external_body]
fn parse_error_body(body: &str) -> (r: Option<(String, String)>)
    ensures
        r matches Some(f) ==> error_fields_of(body@) == Some((f.0@, f.1@)),
        r is None ==> error_fields_of(body@) is None,
{
    let v: serde_json::Value = match serde_json::from_str(body) {
        Ok(v) => v,
        Err(_) => return None,
    };
    match (v["error"]["code"].as_str(), v["error"]["message"].as_str()) {
        (Some(c), Some(m)) => Some((c.to_string(), m.to_string())),
        _ => None,
    }
}

/// How a non-success response is classified: 403 is `Unauthorized`, 404 is
/// `MissingDomain` naming the domain, and any other status carries the
/// code and message of its body's `error` envelope — or counts as a
/// malformed response when the body does not parse to one.
pub open spec fn classify_spec(domain: Seq<char>, status: u16, body: Seq<char>) -> FailureView {
    if status == 403 {
        FailureView::Vercel { error: ErrorView::Unauthorized }
    } else if status == 404 {
        FailureView::Vercel { error: ErrorView::MissingDomain { domain } }
    } else {
        match error_fields_of(body) {
            Some(f) => FailureView::Vercel {
                error: ErrorView::Unknown { code: f.0, message: f.1 },
            },
            None => FailureView::MalformedResponse,
        }
    }
}

/// Maps an HTTP response of the API to its outcome: 200 is success, every
/// other status the failure that `classify_spec` names.
pub fn classify_response(domain: &str, status: u16, body: &str) -> (r: Result<(), ApiFailure>)
    ensures
        status == 200 <==> r is Ok,
        status != 200 ==> (r matches Err(f) && f@ == classify_spec(domain@, status, body@)),
{
    if status == 200 {
        Ok(())
    } else if status == 403 {
        Err(ApiFailure::Vercel { error: VercelError::Unauthorized })
    } else if status == 404 {
        Err(
            ApiFailure::Vercel {
                error: VercelError::MissingDomain { domain: String::from_str(domain) },
            },
        )
    } else {
        match parse_error_body(body) {
            Some(f) => Err(
                ApiFailure::Vercel { error: VercelError::Unknown { code: f.0, message: f.1 } },
            ),
            None => Err(ApiFailure::MalformedResponse),
        }
    }
}

} // verus!
