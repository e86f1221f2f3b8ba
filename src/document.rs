use crate::collection::{collection_of, collection_path};
use crate::common::{Body, Method, Query};
use crate::request::Request;
use vstd::prelude::*;

verus! {

/// The path of the documents of a collection.
pub open spec fn documents_path(env_id: Seq<char>, collection_id: Seq<char>) -> Seq<char> {
    collection_path(env_id, collection_id) + "/documents"@
}

fn documents_of(env_id: &str, collection_id: &str) -> (r: String)
    ensures
        r@ == documents_path(env_id@, collection_id@),
{
    let mut path = collection_of(env_id, collection_id);
    path.append("/documents");
    path
}

/// Reads one document.
pub fn detail(env_id: &str, collection_id: &str, document_id: &str) -> (r: Request)
    ensures
        r.method == Method::Get,
        r.path@ == documents_path(env_id@, collection_id@) + "/"@ + document_id@,
        r.query is Empty,
        r.body is Empty,
{
    let mut path = documents_of(env_id, collection_id);
    path.append("/");
    path.append(document_id);
    Request { method: Method::Get, path, query: Query::Empty, body: Body::Empty }
}

/// Uploads a file as a new document, or as a new version of the document
/// `document_id`, converted with a given configuration or the default one.
pub fn create(
    env_id: &str,
    collection_id: &str,
    configuration_id: Option<&str>,
    document_id: Option<&str>,
    filename: &str,
) -> (r: Request)
    ensures
        r.method == Method::Post,
        r.path@ == match document_id {
            Some(d) => documents_path(env_id@, collection_id@) + "/"@ + d@,
            None => documents_path(env_id@, collection_id@),
        },
        match configuration_id {
            Some(c) => r.query matches Query::Config(q) && q@ == c@,
            None => r.query is Empty,
        },
        r.body matches Body::Filename(f) && f@ == filename@,
{
    let mut path = documents_of(env_id, collection_id);
    if let Some(d) = document_id {
        path.append("/");
        path.append(d);
    }
    let query = match configuration_id {
        Some(c) => Query::Config(c.to_owned()),
        None => Query::Empty,
    };
    Request { method: Method::Post, path, query, body: Body::Filename(filename.to_owned()) }
}

} // verus!
