use chrono::TimeZone;
use vstd::prelude::*;

verus! {

#[verifier::external_type_specification]
#[verifier::external_body]
pub struct ExJsonValue(serde_json::Value);

#[verifier::external_type_specification]
#[verifier::external_body]
pub struct ExJsonError(serde_json::Error);

#[verifier::external_type_specification]
#[verifier::external_body]
pub struct ExUrlParseError(url::ParseError);

/// The `application/x-www-form-urlencoded` form of a text.
pub uninterp spec fn form_encoded(s: Seq<char>) -> Seq<char>;

/// The JSON string literal, quotes included, that denotes a text.
pub uninterp spec fn json_quoted(s: Seq<char>) -> Seq<char>;

/// Whether a text is one well-formed JSON document.
pub uninterp spec fn is_json(s: Seq<char>) -> bool;

/// The string held under `key` when `text` is a JSON object whose member
/// `key` is a string.
pub uninterp spec fn json_str_member(text: Seq<char>, key: Seq<char>) -> Option<Seq<char>>;

/// The integer held under `key` when `text` is a JSON object whose member
/// `key` is an integer that fits in an `i64`.
pub uninterp spec fn json_i64_member(text: Seq<char>, key: Seq<char>) -> Option<int>;

/// Whether a text parses as an absolute URL.
pub uninterp spec fn url_parses(s: Seq<char>) -> bool;

/// The RFC 3339 text of an instant in UTC, given as seconds and nanoseconds
/// since the Unix epoch, when that instant can be represented.
pub uninterp spec fn utc_rfc3339(secs: int, nanos: int) -> Option<Seq<char>>;

/// Relies on url's `form_urlencoded::byte_serialize`, the encoding that
/// `Url::query_pairs_mut().append_pair` applies to names and values.
#[verifier::external_body]
pub(crate) fn form_encode(s: &str) -> (r: String)
    ensures
        r@ == form_encoded(s@),
{
    url::form_urlencoded::byte_serialize(s.as_bytes()).collect::<String>()
}

/// Relies on `serde_json::to_string` on a `str`: the quoted and escaped
/// JSON string. Serializing a string cannot fail.
#[verifier::external_body]
pub(crate) fn json_quote(s: &str) -> (r: String)
    ensures
        r@ == json_quoted(s@),
{
    serde_json::to_string(s).unwrap_or_default()
}

/// Relies on `serde_json::from_str` into a `serde_json::Value`: it succeeds
/// exactly on well-formed JSON.
#[verifier::external_body]
pub(crate) fn parse_json(text: &str) -> (r: Result<serde_json::Value, serde_json::Error>)
    ensures
        r.is_ok() == is_json(text@),
{
    serde_json::from_str::<serde_json::Value>(text)
}

/// Relies on `serde_json::from_str` into a `serde_json::Value`, then
/// `Value::get` and `Value::as_str`: the string member `key` of a JSON object.
#[verifier::external_body]
pub(crate) fn json_str_field(text: &str, key: &str) -> (r: Option<String>)
    ensures
        r.deep_view() == json_str_member(text@, key@),
        !is_json(text@) ==> r is None,
{
    let v = serde_json::from_str::<serde_json::Value>(text).ok()?;
    v.get(key).and_then(|m| m.as_str()).map(|m| m.to_string())
}

/// Relies on `serde_json::from_str` into a `serde_json::Value`, then
/// `Value::get` and `Value::as_i64`: the integer member `key` of a JSON object.
#[verifier::external_body]
pub(crate) fn json_i64_field(text: &str, key: &str) -> (r: Option<i64>)
    ensures
        r matches Some(n) ==> json_i64_member(text@, key@) == Some(n as int),
        r is None ==> json_i64_member(text@, key@) is None,
        !is_json(text@) ==> r is None,
{
    let v = serde_json::from_str::<serde_json::Value>(text).ok()?;
    v.get(key).and_then(|m| m.as_i64())
}

/// Relies on `hyper::Url::parse` (url's `Url::parse`).
#[verifier::external_body]
pub(crate) fn check_url(s: &str) -> (r: Result<(), url::ParseError>)
    ensures
        r.is_ok() == url_parses(s@),
{
    hyper::Url::parse(s).map(|_| ())
}

/// Relies on chrono's `Utc.timestamp_opt(secs, nanos)` and
/// `DateTime::to_rfc3339_opts(SecondsFormat::AutoSi, true)`, the text that
/// chrono's serde support writes for a `DateTime<Utc>`.
#[verifier::external_body]
pub(crate) fn rfc3339_utc(secs: i64, nanos: u32) -> (r: Option<String>)
    ensures
        r.deep_view() == utc_rfc3339(secs as int, nanos as int),
{
    chrono::Utc.timestamp_opt(secs, nanos).single()
        .map(|d| d.to_rfc3339_opts(chrono::SecondsFormat::AutoSi, true))
}

/// Relies on the `Display` of `serde_json::Error`: a description of what
/// was wrong and where.
#[verifier::external_body]
pub(crate) fn json_error_text(e: &serde_json::Error) -> String {
    e.to_string()
}

/// Relies on the `Display` of url's `ParseError`: a description of why the
/// URL was refused.
#[verifier::external_body]
pub(crate) fn url_error_text(e: &url::ParseError) -> String {
    e.to_string()
}

} // verus!
