use crate::common::{Body, Method, Query};
use crate::encoding::{decimal, push_decimal};
use crate::interop::{json_quote, json_quoted};
use crate::request::Request;
use vstd::prelude::*;

verus! {

/// The options of a new environment.
#[derive(Clone, Debug)]
pub struct NewEnvironment {
    pub name: String,
    pub description: Option<String>,
    pub size: u64,
}

/// A JSON member `,"name":value` that is written only when there is a value.
pub open spec fn optional_member(prefix: Seq<char>, value: Option<Seq<char>>) -> Seq<char> {
    match value {
        Some(v) => prefix + json_quoted(v),
        None => seq![],
    }
}

impl NewEnvironment {
    /// The JSON object of these options: `name`, `description` when there is
    /// one, and `size`, in that order.
    pub open spec fn json(&self) -> Seq<char> {
        "{\"name\":"@ + json_quoted(self.name@) + optional_member(
            ",\"description\":"@,
            self.description.deep_view(),
        ) + ",\"size\":"@ + decimal(self.size as nat) + "}"@
    }

    /// Serializes these options as the service expects them.
    pub fn to_json(&self) -> (r: String)
        ensures
            r@ == self.json(),
    {
        let mut out = String::from_str("{\"name\":");
        out.append(json_quote(self.name.as_str()).as_str());
        if let Some(d) = &self.description {
            out.append(",\"description\":");
            out.append(json_quote(d.as_str()).as_str());
        }
        out.append(",\"size\":");
        push_decimal(&mut out, self.size);
        out.append("}");
        assert(out@ =~= self.json());
        out
    }
}

/// The path of all environments.
pub open spec fn environments_path() -> Seq<char> {
    "/v1/environments"@
}

/// The path of one environment.
pub open spec fn environment_path(env_id: Seq<char>) -> Seq<char> {
    "/v1/environments/"@ + env_id
}

pub(crate) fn path_of(env_id: &str) -> (r: String)
    ensures
        r@ == environment_path(env_id@),
{
    let mut path = String::from_str("/v1/environments/");
    path.append(env_id);
    path
}

/// Lists the environments.
pub fn list() -> (r: Request)
    ensures
        r.method == Method::Get,
        r.path@ == environments_path(),
        r.query is Empty,
        r.body is Empty,
{
    Request {
        method: Method::Get,
        path: String::from_str("/v1/environments"),
        query: Query::Empty,
        body: Body::Empty,
    }
}

/// Reads one environment.
pub fn detail(env_id: &str) -> (r: Request)
    ensures
        r.method == Method::Get,
        r.path@ == environment_path(env_id@),
        r.query is Empty,
        r.body is Empty,
{
    Request { method: Method::Get, path: path_of(env_id), query: Query::Empty, body: Body::Empty }
}

/// Previews how a file would be converted, with a given configuration or
/// the default one.
pub fn preview(env_id: &str, configuration_id: Option<&str>, filename: &str) -> (r: Request)
    ensures
        r.method == Method::Post,
        r.path@ == environment_path(env_id@) + "/preview"@,
        match configuration_id {
            Some(c) => r.query matches Query::Config(q) && q@ == c@,
            None => r.query is Empty,
        },
        r.body matches Body::Filename(f) && f@ == filename@,
{
    let mut path = path_of(env_id);
    path.append("/preview");
    let query = match configuration_id {
        Some(c) => Query::Config(c.to_owned()),
        None => Query::Empty,
    };
    Request { method: Method::Post, path, query, body: Body::Filename(filename.to_owned()) }
}

/// Creates an environment.
pub fn create(options: &NewEnvironment) -> (r: Request)
    ensures
        r.method == Method::Post,
        r.path@ == environments_path(),
        r.query is Empty,
        r.body matches Body::Json(t) && t@ == options.json(),
{
    Request {
        method: Method::Post,
        path: String::from_str("/v1/environments"),
        query: Query::Empty,
        body: Body::Json(options.to_json()),
    }
}

/// Deletes an environment.
pub fn delete(env_id: &str) -> (r: Request)
    ensures
        r.method == Method::Delete,
        r.path@ == environment_path(env_id@),
        r.query is Empty,
        r.body is Empty,
{
    Request { method: Method::Delete, path: path_of(env_id), query: Query::Empty, body: Body::Empty }
}

} // verus!
