use crate::collection::{collection_of, collection_path};
use crate::common::{Body, Method, Query, QueryParams};
use crate::request::Request;
use vstd::prelude::*;

verus! {

/// Queries the documents of a collection.
pub fn query(env_id: &str, collection_id: &str, params: QueryParams) -> (r: Request)
    ensures
        r.method == Method::Get,
        r.path@ == collection_path(env_id@, collection_id@) + "/query"@,
        r.query == Query::Query(params),
        r.body is Empty,
{
    let mut path = collection_of(env_id, collection_id);
    path.append("/query");
    Request { method: Method::Get, path, query: Query::Query(params), body: Body::Empty }
}

/// Queries the notices that ingestion left on a collection.
pub fn notices(env_id: &str, collection_id: &str, params: QueryParams) -> (r: Request)
    ensures
        r.method == Method::Get,
        r.path@ == collection_path(env_id@, collection_id@) + "/notices"@,
        r.query == Query::Query(params),
        r.body is Empty,
{
    let mut path = collection_of(env_id, collection_id);
    path.append("/notices");
    Request { method: Method::Get, path, query: Query::Query(params), body: Body::Empty }
}

} // verus!
