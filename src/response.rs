use crate::common::{ApiError, ApiErrorDetail, ServiceError};
use crate::encoding::{decimal, push_decimal};
use crate::interop::{
    is_json, json_error_text, json_i64_field, json_i64_member, json_str_field, json_str_member, parse_json, url_error_text,
};
use vstd::prelude::*;

verus! {

/// A text, or the empty text where there is none.
pub open spec fn text_or_empty(t: Option<Seq<char>>) -> Seq<char> {
    match t {
        Some(s) => s,
        None => seq![],
    }
}

/// The message of an error payload that was not understood.
pub open spec fn unknown_format() -> Seq<char> {
    "Unknown service error format"@
}

pub open spec fn int_of(n: Option<i64>) -> Option<int> {
    match n {
        Some(v) => Some(v as int),
        None => None,
    }
}

/// The error that a failure body stands for, given the members found in it:
/// the members themselves when `error` or `message` says something, else a
/// fallback with code 0 that carries the whole body as its description.
pub open spec fn normalized_error(
    body: Seq<char>,
    code: Option<int>,
    error: Option<Seq<char>>,
    message: Option<Seq<char>>,
    description: Option<Seq<char>>,
) -> (int, Seq<char>, Seq<char>, Seq<char>) {
    if text_or_empty(error).len() == 0 && text_or_empty(message).len() == 0 {
        (0, seq![], unknown_format(), body)
    } else {
        (
            match code {
                Some(c) => c,
                None => 0,
            },
            text_or_empty(error),
            text_or_empty(message),
            text_or_empty(description),
        )
    }
}

/// The error that a failure body stands for, read through serde_json.
pub open spec fn body_error(body: Seq<char>) -> (int, Seq<char>, Seq<char>, Seq<char>) {
    normalized_error(
        body,
        json_i64_member(body, "code"@),
        json_str_member(body, "error"@),
        json_str_member(body, "message"@),
        json_str_member(body, "description"@),
    )
}

/// Whether a status is in the success range 200..=299.
pub open spec fn is_success(status: u16) -> bool {
    200 <= status && status <= 299
}

fn text_or_new(t: Option<String>) -> (r: String)
    ensures
        r@ == text_or_empty(t.deep_view()),
{
    match t {
        Some(s) => s,
        None => String::new(),
    }
}

/// Builds the normalized service error from the members found in a failure
/// body: `code`, `error`, `message` and `description`.
pub fn service_error_from_members(
    body: &str,
    code: Option<i64>,
    error: Option<String>,
    message: Option<String>,
    description: Option<String>,
) -> (r: ServiceError)
    ensures
        r.model() == normalized_error(
            body@,
            int_of(code),
            error.deep_view(),
            message.deep_view(),
            description.deep_view(),
        ),
{
    let error = text_or_new(error);
    let message = text_or_new(message);
    if error.as_str().is_empty() && message.as_str().is_empty() {
        ServiceError {
            code: 0,
            error: String::new(),
            message: String::from_str("Unknown service error format"),
            description: body.to_owned(),
        }
    } else {
        let code = match code {
            Some(c) => c,
            None => 0,
        };
        ServiceError { code, error, message, description: text_or_new(description) }
    }
}

/// Reads the service error out of a failure body. A body that is not a JSON
/// object with a non-empty `error` or `message` gives the fallback error.
pub fn normalize_service_error(body: &str) -> (r: ServiceError)
    ensures
        r.model() == body_error(body@),
        !is_json(body@) ==> r.model() == (0int, Seq::<char>::empty(), unknown_format(), body@),
{
    let code = json_i64_field(body, "code");
    let error = json_str_field(body, "error");
    let message = json_str_field(body, "message");
    let description = json_str_field(body, "description");
    service_error_from_members(body, code, error, message, description)
}

/// Classifies a response from its status and the body read from it.
/// `read_failure` is the error that stopped the read, if any; it is reported
/// only when nothing was read before it. A success status gives the body as
/// JSON; any other status gives the service error in the body.
pub fn classify_response(status: u16, body: &str, read_failure: Option<String>) -> (r: Result<
    serde_json::Value,
    ApiError,
>)
    ensures
        read_failure is Some && body@.len() == 0 ==> (r matches Err(ApiError::Io(m)) && m@
            == read_failure->Some_0@),
        !(read_failure is Some && body@.len() == 0) && is_success(status) ==> (r is Ok <==> is_json(
            body@,
        )) && (r is Err ==> r->Err_0 is SerdeJson),
        !(read_failure is Some && body@.len() == 0) && !is_success(status) ==> (r matches Err(
            ApiError::Service(d),
        ) && d.status_code == status && d.service_error.model() == body_error(body@)),
{
    if body.is_empty() {
        if let Some(m) = read_failure {
            return Err(ApiError::Io(m));
        }
    }
    if 200 <= status && status <= 299 {
        match parse_json(body) {
            Ok(v) => Ok(v),
            Err(e) => Err(ApiError::SerdeJson(e)),
        }
    } else {
        Err(
            ApiError::Service(
                ApiErrorDetail { status_code: status, service_error: normalize_service_error(body) },
            ),
        )
    }
}

/// A failure body in which neither `error` nor `message` is a non-empty
/// string (text that is not JSON at all, or an object whose `error` and
/// `message` are empty or missing) becomes the fallback error: code 0, no
/// error, the unknown-format message, and the whole body as description.
pub proof fn lemma_unrecognized_body(body: Seq<char>)
    requires
        text_or_empty(json_str_member(body, "error"@)).len() == 0,
        text_or_empty(json_str_member(body, "message"@)).len() == 0,
    ensures
        body_error(body) == (0int, Seq::<char>::empty(), unknown_format(), body),
{
}

/// A failure body with a non-empty `error` or `message` keeps its own
/// members: its code (0 when absent), error, message and description, each
/// empty where absent.
pub proof fn lemma_recognized_body(body: Seq<char>)
    requires
        text_or_empty(json_str_member(body, "error"@)).len() > 0 || text_or_empty(
            json_str_member(body, "message"@),
        ).len() > 0,
    ensures
        body_error(body) == (
            match json_i64_member(body, "code"@) {
                Some(c) => c,
                None => 0,
            },
            text_or_empty(json_str_member(body, "error"@)),
            text_or_empty(json_str_member(body, "message"@)),
            text_or_empty(json_str_member(body, "description"@)),
        ),
{
}

/// The most specific text of a service error: its `error`, else its
/// `message`, else its description.
pub open spec fn headline(e: (int, Seq<char>, Seq<char>, Seq<char>)) -> Seq<char> {
    if e.1.len() > 0 {
        e.1
    } else if e.2.len() > 0 {
        e.2
    } else {
        e.3
    }
}

/// How a failure status and its service error read: the status, the
/// headline, and the description in parentheses when it is not already the
/// headline.
pub open spec fn detail_text(status: u16, e: (int, Seq<char>, Seq<char>, Seq<char>)) -> Seq<char> {
    decimal(status as nat) + ": "@ + headline(e) + if (e.1.len() > 0 || e.2.len() > 0) && e.3.len()
        > 0 {
        " ("@ + e.3 + ")"@
    } else {
        seq![]
    }
}

impl ApiErrorDetail {
    /// The text of this failure: status, headline, description.
    pub fn to_string(&self) -> (r: String)
        ensures
            r@ == detail_text(self.status_code, self.service_error.model()),
    {
        let e = &self.service_error;
        let mut out = String::new();
        push_decimal(&mut out, self.status_code as u64);
        out.append(": ");
        let has_headline = !e.error.as_str().is_empty() || !e.message.as_str().is_empty();
        if !e.error.as_str().is_empty() {
            out.append(e.error.as_str());
        } else if !e.message.as_str().is_empty() {
            out.append(e.message.as_str());
        } else {
            out.append(e.description.as_str());
        }
        if has_headline && !e.description.as_str().is_empty() {
            out.append(" (");
            out.append(e.description.as_str());
            out.append(")");
        }
        assert(out@ =~= detail_text(self.status_code, self.service_error.model()));
        out
    }
}

impl ApiError {
    /// The text of this error. A service error reads as its status and
    /// messages; a local or transport failure as its own message.
    pub fn to_string(&self) -> (r: String)
        ensures
            self matches ApiError::Service(d) ==> r@ == detail_text(
                d.status_code,
                d.service_error.model(),
            ),
            self matches ApiError::Io(m) ==> r@ == m@,
            self matches ApiError::Hyper(m) ==> r@ == m@,
    {
        match self {
            ApiError::Service(d) => d.to_string(),
            ApiError::SerdeJson(e) => json_error_text(e),
            ApiError::Io(m) => m.clone(),
            ApiError::Hyper(m) => m.clone(),
            ApiError::HyperParse(e) => url_error_text(e),
        }
    }
}

} // verus!
