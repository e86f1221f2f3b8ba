use crate::common::{encode_query, query_pairs, request_url, ApiError, Body, Credentials, Method, Query};
use crate::interop::{check_url, json_quote, json_quoted, rfc3339_utc, url_parses, utc_rfc3339};
use vstd::prelude::*;

verus! {

/// A call of the service before it is addressed: the method, the resource
/// path, the query selection and the body.
#[derive(Clone, Debug)]
pub struct Request {
    pub method: Method,
    pub path: String,
    pub query: Query,
    pub body: Body,
}

/// What goes out after the headers: a JSON text, the multipart upload of a
/// local file, or nothing.
#[derive(Clone, Debug)]
pub enum Payload {
    Json(String),
    Upload(String),
    Empty,
}

/// A request as it is sent: method, full URL, basic-auth credentials, the
/// transaction id header, the content type if one is set, and the payload.
#[derive(Clone, Debug)]
pub struct Outgoing {
    pub method: Method,
    pub url: String,
    pub username: String,
    pub password: String,
    pub transaction_id: String,
    pub content_type: Option<String>,
    pub payload: Payload,
}

/// The transaction id sent when none is configured.
pub open spec fn default_transaction_id() -> Seq<char> {
    "wdscli"@
}

/// The content type of a JSON payload.
pub open spec fn json_content_type() -> Seq<char> {
    "application/json; charset=utf-8"@
}

/// The transaction id for a configured value, if any.
pub open spec fn transaction_text(configured: Option<Seq<char>>) -> Seq<char> {
    match configured {
        Some(v) => v,
        None => default_transaction_id(),
    }
}

/// Whether `o` carries `body` as its strategy demands: a JSON body with the
/// JSON content type and the request's method; a file as a multipart upload,
/// which is always a POST and sets its own content type; no body with no
/// content type and the request's method.
pub open spec fn shaped_for(o: Outgoing, method: Method, body: Body) -> bool {
    match body {
        Body::Json(t) => o.method == method && o.content_type.deep_view() == Some(json_content_type())
            && (o.payload matches Payload::Json(p) && p@ == t@),
        Body::Filename(f) => o.method == Method::Post && o.content_type is None && (
        o.payload matches Payload::Upload(p) && p@ == f@),
        Body::Empty => o.method == method && o.content_type is None && o.payload is Empty,
    }
}

/// The metadata part of an upload: the file's name and its last
/// modification time.
pub open spec fn metadata_json(filename: Seq<char>, stamp: Seq<char>) -> Seq<char> {
    "{\"filename\":"@ + json_quoted(filename) + ",\"last_modified\":"@ + json_quoted(stamp) + "}"@
}

/// The transaction id: the configured value, or `wdscli` when there is none.
pub fn transaction_id(configured: Option<String>) -> (r: String)
    ensures
        r@ == transaction_text(configured.deep_view()),
{
    match configured {
        Some(v) => v,
        None => String::from_str("wdscli"),
    }
}

/// The URL of a request: the base URL and the path, which must parse as a
/// URL, then the version and the parameters of the query selection.
pub fn build_url(base: &str, path: &str, version: &str, query: &Query) -> (r: Result<String, ApiError>)
    ensures
        url_parses(base@ + path@) ==> (r matches Ok(u) && u@ == request_url(
            base@,
            path@,
            version@,
            *query,
        )),
        !url_parses(base@ + path@) ==> (r matches Err(e) && e is HyperParse),
{
    let mut target = base.to_owned();
    target.append(path);
    if let Err(e) = check_url(target.as_str()) {
        return Err(ApiError::HyperParse(e));
    }
    let pairs = query_pairs(version, query);
    let encoded = encode_query(&pairs);
    target.append("?");
    target.append(encoded.as_str());
    proof { reveal_strlit("?"); }
    assert(target@ =~= request_url(base@, path@, version@, *query));
    Ok(target)
}

/// Addresses and shapes a request: its URL, the credentials and the
/// transaction id, which every request carries, and the content type and
/// payload that its body calls for.
pub fn prepare(
    creds: &Credentials,
    request: &Request,
    version: &str,
    configured_id: Option<String>,
) -> (r: Result<Outgoing, ApiError>)
    ensures
        !url_parses(creds.url@ + request.path@) ==> (r matches Err(e) && e is HyperParse),
        url_parses(creds.url@ + request.path@) ==> (r matches Ok(o) && o.url@ == request_url(
            creds.url@,
            request.path@,
            version@,
            request.query,
        ) && o.username@ == creds.username@ && o.password@ == creds.password@ && o.transaction_id@
            == transaction_text(configured_id.deep_view()) && shaped_for(
            o,
            request.method,
            request.body,
        )),
{
    let url = build_url(creds.url.as_str(), request.path.as_str(), version, &request.query)?;
    let (method, content_type, payload) = match &request.body {
        Body::Json(t) => (request.method, Some(String::from_str("application/json; charset=utf-8")), Payload::Json(t.clone())),
        Body::Filename(f) => (Method::Post, None, Payload::Upload(f.clone())),
        Body::Empty => (request.method, None, Payload::Empty),
    };
    Ok(
        Outgoing {
            method,
            url,
            username: creds.username.clone(),
            password: creds.password.clone(),
            transaction_id: transaction_id(configured_id),
            content_type,
            payload,
        },
    )
}

/// The metadata part of an upload, for a file modified `secs` seconds and
/// `nanos` nanoseconds after the Unix epoch; `None` when that instant cannot
/// be represented.
pub fn upload_metadata(filename: &str, secs: i64, nanos: u32) -> (r: Option<String>)
    ensures
        r is Some <==> utc_rfc3339(secs as int, nanos as int) is Some,
        r matches Some(m) ==> m@ == metadata_json(
            filename@,
            utc_rfc3339(secs as int, nanos as int)->Some_0,
        ),
{
    let stamp = rfc3339_utc(secs, nanos)?;
    let mut out = String::from_str("{\"filename\":");
    out.append(json_quote(filename).as_str());
    out.append(",\"last_modified\":");
    out.append(json_quote(stamp.as_str()).as_str());
    out.append("}");
    Some(out)
}

} // verus!
