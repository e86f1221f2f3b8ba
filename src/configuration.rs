use crate::common::{Body, Method, Query};
use crate::environment::{environment_path, path_of};
use crate::request::Request;
use vstd::prelude::*;

verus! {

/// The path of the configurations of an environment.
pub open spec fn configurations_path(env_id: Seq<char>) -> Seq<char> {
    environment_path(env_id) + "/configurations"@
}

/// The path of one configuration.
pub open spec fn configuration_path(env_id: Seq<char>, configuration_id: Seq<char>) -> Seq<char> {
    environment_path(env_id) + "/configurations/"@ + configuration_id
}

fn configurations_of(env_id: &str) -> (r: String)
    ensures
        r@ == configurations_path(env_id@),
{
    let mut path = path_of(env_id);
    path.append("/configurations");
    path
}

fn configuration_of(env_id: &str, configuration_id: &str) -> (r: String)
    ensures
        r@ == configuration_path(env_id@, configuration_id@),
{
    let mut path = path_of(env_id);
    path.append("/configurations/");
    path.append(configuration_id);
    path
}

/// Lists the configurations of an environment.
pub fn list(env_id: &str) -> (r: Request)
    ensures
        r.method == Method::Get,
        r.path@ == configurations_path(env_id@),
        r.query is Empty,
        r.body is Empty,
{
    Request {
        method: Method::Get,
        path: configurations_of(env_id),
        query: Query::Empty,
        body: Body::Empty,
    }
}

/// Reads one configuration.
pub fn detail(env_id: &str, configuration_id: &str) -> (r: Request)
    ensures
        r.method == Method::Get,
        r.path@ == configuration_path(env_id@, configuration_id@),
        r.query is Empty,
        r.body is Empty,
{
    Request {
        method: Method::Get,
        path: configuration_of(env_id, configuration_id),
        query: Query::Empty,
        body: Body::Empty,
    }
}

/// Creates a configuration from its JSON document, sent as it is.
pub fn create(env_id: &str, configuration: &str) -> (r: Request)
    ensures
        r.method == Method::Post,
        r.path@ == configurations_path(env_id@),
        r.query is Empty,
        r.body matches Body::Json(t) && t@ == configuration@,
{
    Request {
        method: Method::Post,
        path: configurations_of(env_id),
        query: Query::Empty,
        body: Body::Json(configuration.to_owned()),
    }
}

/// Deletes a configuration.
pub fn delete(env_id: &str, configuration_id: &str) -> (r: Request)
    ensures
        r.method == Method::Delete,
        r.path@ == configuration_path(env_id@, configuration_id@),
        r.query is Empty,
        r.body is Empty,
{
    Request {
        method: Method::Delete,
        path: configuration_of(env_id, configuration_id),
        query: Query::Empty,
        body: Body::Empty,
    }
}

} // verus!
