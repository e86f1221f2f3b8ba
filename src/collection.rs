use crate::common::{Body, Method, Query};
use crate::environment::{environment_path, optional_member, path_of};
use crate::interop::{json_quote, json_quoted};
use crate::request::Request;
use vstd::prelude::*;

verus! {

/// The options of a new collection.
#[derive(Clone, Debug)]
pub struct NewCollection {
    pub name: String,
    pub description: Option<String>,
    pub configuration_id: Option<String>,
}

impl NewCollection {
    /// The JSON object of these options: `name`, then `description` and
    /// `configuration_id` when they are set.
    pub open spec fn json(&self) -> Seq<char> {
        "{\"name\":"@ + json_quoted(self.name@) + optional_member(
            ",\"description\":"@,
            self.description.deep_view(),
        ) + optional_member(",\"configuration_id\":"@, self.configuration_id.deep_view()) + "}"@
    }

    /// Serializes these options as the service expects them.
    pub fn to_json(&self) -> (r: String)
        ensures
            r@ == self.json(),
    {
        let mut out = String::from_str("{\"name\":");
        out.append(json_quote(self.name.as_str()).as_str());
        if let Some(d) = &self.description {
            out.append(",\"description\":");
            out.append(json_quote(d.as_str()).as_str());
        }
        if let Some(c) = &self.configuration_id {
            out.append(",\"configuration_id\":");
            out.append(json_quote(c.as_str()).as_str());
        }
        out.append("}");
        assert(out@ =~= self.json());
        out
    }
}

/// The path of the collections of an environment.
pub open spec fn collections_path(env_id: Seq<char>) -> Seq<char> {
    environment_path(env_id) + "/collections"@
}

/// The path of one collection.
pub open spec fn collection_path(env_id: Seq<char>, collection_id: Seq<char>) -> Seq<char> {
    environment_path(env_id) + "/collections/"@ + collection_id
}

fn collections_of(env_id: &str) -> (r: String)
    ensures
        r@ == collections_path(env_id@),
{
    let mut path = path_of(env_id);
    path.append("/collections");
    path
}

pub(crate) fn collection_of(env_id: &str, collection_id: &str) -> (r: String)
    ensures
        r@ == collection_path(env_id@, collection_id@),
{
    let mut path = path_of(env_id);
    path.append("/collections/");
    path.append(collection_id);
    path
}

/// Lists the collections of an environment.
pub fn list(env_id: &str) -> (r: Request)
    ensures
        r.method == Method::Get,
        r.path@ == collections_path(env_id@),
        r.query is Empty,
        r.body is Empty,
{
    Request {
        method: Method::Get,
        path: collections_of(env_id),
        query: Query::Empty,
        body: Body::Empty,
    }
}

/// Reads one collection.
pub fn detail(env_id: &str, collection_id: &str) -> (r: Request)
    ensures
        r.method == Method::Get,
        r.path@ == collection_path(env_id@, collection_id@),
        r.query is Empty,
        r.body is Empty,
{
    Request {
        method: Method::Get,
        path: collection_of(env_id, collection_id),
        query: Query::Empty,
        body: Body::Empty,
    }
}

/// Lists the fields of a collection.
pub fn fields(env_id: &str, collection_id: &str) -> (r: Request)
    ensures
        r.method == Method::Get,
        r.path@ == collection_path(env_id@, collection_id@) + "/fields"@,
        r.query is Empty,
        r.body is Empty,
{
    let mut path = collection_of(env_id, collection_id);
    path.append("/fields");
    Request { method: Method::Get, path, query: Query::Empty, body: Body::Empty }
}

/// Creates a collection in an environment.
pub fn create(env_id: &str, options: &NewCollection) -> (r: Request)
    ensures
        r.method == Method::Post,
        r.path@ == collections_path(env_id@),
        r.query is Empty,
        r.body matches Body::Json(t) && t@ == options.json(),
{
    Request {
        method: Method::Post,
        path: collections_of(env_id),
        query: Query::Empty,
        body: Body::Json(options.to_json()),
    }
}

/// Deletes a collection.
pub fn delete(env_id: &str, collection_id: &str) -> (r: Request)
    ensures
        r.method == Method::Delete,
        r.path@ == collection_path(env_id@, collection_id@),
        r.query is Empty,
        r.body is Empty,
{
    Request {
        method: Method::Delete,
        path: collection_of(env_id, collection_id),
        query: Query::Empty,
        body: Body::Empty,
    }
}

} // verus!
