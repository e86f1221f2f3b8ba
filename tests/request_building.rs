use discovery::common::{
    deal_with_query, encode_query, query_pairs, Body, Credentials, Method, Query, QueryParams,
};
use discovery::encoding::{bool_string, decimal_string};
use discovery::request::{build_url, prepare, transaction_id, upload_metadata, Payload, Request};
use discovery::{collection, configuration, document, environment, query};

fn pairs(v: &[(&str, &str)]) -> Vec<(String, String)> {
    v.iter().map(|(a, b)| (a.to_string(), b.to_string())).collect()
}

fn bare_params(count: u64) -> QueryParams {
    QueryParams {
        filter: None,
        query: None,
        natural_language_query: None,
        passages: None,
        aggregation: None,
        count,
        return_hierarchy: None,
        offset: None,
        sort: None,
    }
}

fn creds() -> Credentials {
    Credentials {
        url: "https://x.test".to_string(),
        username: "u".to_string(),
        password: "p".to_string(),
    }
}

#[test]
fn decimal_text_of_integers() {
    assert_eq!(decimal_string(0), "0");
    assert_eq!(decimal_string(7), "7");
    assert_eq!(decimal_string(10), "10");
    assert_eq!(decimal_string(1234567890), "1234567890");
    assert_eq!(decimal_string(u64::MAX), "18446744073709551615");
}

#[test]
fn boolean_text() {
    assert_eq!(bool_string(true), "true");
    assert_eq!(bool_string(false), "false");
}

#[test]
fn structured_query_with_only_count() {
    let got = query_pairs("2017-01-01", &Query::Query(bare_params(10)));
    assert_eq!(got, pairs(&[("version", "2017-01-01"), ("count", "10")]));
}

#[test]
fn structured_query_with_every_field() {
    let q = QueryParams {
        filter: Some("year>2000".to_string()),
        query: Some("text:cats".to_string()),
        natural_language_query: Some("where are the cats".to_string()),
        passages: Some(true),
        aggregation: Some("term(author)".to_string()),
        count: 5,
        return_hierarchy: Some("title,author".to_string()),
        offset: Some(20),
        sort: Some("-date".to_string()),
    };
    let got = query_pairs("v1", &Query::Query(q));
    assert_eq!(
        got,
        pairs(&[
            ("version", "v1"),
            ("filter", "year>2000"),
            ("query", "text:cats"),
            ("natural_language_query", "where are the cats"),
            ("passages", "true"),
            ("aggregation", "term(author)"),
            ("count", "5"),
            ("return", "title,author"),
            ("offset", "20"),
            ("sort", "-date"),
        ])
    );
}

#[test]
fn structured_query_omits_absent_fields() {
    let mut q = bare_params(3);
    q.passages = Some(false);
    q.sort = Some("name".to_string());
    let got = query_pairs("v", &Query::Query(q));
    assert_eq!(
        got,
        pairs(&[("version", "v"), ("passages", "false"), ("count", "3"), ("sort", "name")])
    );
    assert!(!got.iter().any(|(n, _)| n == "filter" || n == "offset" || n == "configuration_id"));
}

#[test]
fn configuration_query_adds_one_parameter() {
    let got = query_pairs("v", &Query::Config("cfg-1".to_string()));
    assert_eq!(got, pairs(&[("version", "v"), ("configuration_id", "cfg-1")]));
}

#[test]
fn empty_query_adds_nothing() {
    let got = query_pairs("v", &Query::Empty);
    assert_eq!(got, pairs(&[("version", "v")]));
    let mut existing = pairs(&[("a", "b")]);
    deal_with_query(&mut existing, &Query::Empty);
    assert_eq!(existing, pairs(&[("a", "b")]));
}

#[test]
fn query_string_is_form_encoded() {
    let got = encode_query(&pairs(&[("version", "2017-01-01"), ("query", "a b&c=d"), ("x", "é")]));
    assert_eq!(got, "version=2017-01-01&query=a+b%26c%3Dd&x=%C3%A9");
    assert_eq!(encode_query(&Vec::new()), "");
}

#[test]
fn url_has_version_and_parameters() {
    let url = build_url("https://x.test", "/v1/environments", "2017-01-01", &Query::Config("c 1".to_string()))
        .unwrap();
    assert_eq!(url, "https://x.test/v1/environments?version=2017-01-01&configuration_id=c+1");
}

#[test]
fn malformed_base_url_is_a_url_error() {
    let r = build_url("not a url", "/v1/environments", "v", &Query::Empty);
    assert!(matches!(r, Err(discovery::common::ApiError::HyperParse(_))));
}

#[test]
fn transaction_id_defaults_to_client_name() {
    assert_eq!(transaction_id(None), "wdscli");
    assert_eq!(transaction_id(Some("abc".to_string())), "abc");
}

#[test]
fn json_body_sets_content_type() {
    let req = Request {
        method: Method::Post,
        path: "/v1/x".to_string(),
        query: Query::Empty,
        body: Body::Json("{}".to_string()),
    };
    let out = prepare(&creds(), &req, "v", None).unwrap();
    assert_eq!(out.method, Method::Post);
    assert_eq!(out.url, "https://x.test/v1/x?version=v");
    assert_eq!(out.content_type.as_deref(), Some("application/json; charset=utf-8"));
    assert!(matches!(out.payload, Payload::Json(ref t) if t == "{}"));
    assert_eq!(out.transaction_id, "wdscli");
}

#[test]
fn file_body_is_an_upload_post() {
    let req = Request {
        method: Method::Get,
        path: "/v1/x".to_string(),
        query: Query::Config("c".to_string()),
        body: Body::Filename("doc.pdf".to_string()),
    };
    let out = prepare(&creds(), &req, "v", Some("trace-9".to_string())).unwrap();
    assert_eq!(out.method, Method::Post);
    assert_eq!(out.content_type, None);
    assert!(matches!(out.payload, Payload::Upload(ref f) if f == "doc.pdf"));
    assert_eq!(out.url, "https://x.test/v1/x?version=v&configuration_id=c");
    assert_eq!(out.transaction_id, "trace-9");
}

#[test]
fn no_body_sends_nothing() {
    let req = Request {
        method: Method::Delete,
        path: "/v1/x".to_string(),
        query: Query::Empty,
        body: Body::Empty,
    };
    let out = prepare(&creds(), &req, "v", None).unwrap();
    assert_eq!(out.method, Method::Delete);
    assert_eq!(out.content_type, None);
    assert!(matches!(out.payload, Payload::Empty));
    assert_eq!(out.username, "u");
    assert_eq!(out.password, "p");
}

#[test]
fn prepare_reports_bad_url() {
    let mut c = creds();
    c.url = "::nonsense".to_string();
    let out = prepare(&c, &environment::list(), "v", None);
    assert!(matches!(out, Err(discovery::common::ApiError::HyperParse(_))));
}

#[test]
fn upload_metadata_names_file_and_time() {
    assert_eq!(
        upload_metadata("a.txt", 0, 0).unwrap(),
        "{\"filename\":\"a.txt\",\"last_modified\":\"1970-01-01T00:00:00Z\"}"
    );
    assert_eq!(
        upload_metadata("dir/\"q\".txt", 1431648000, 500_000_000).unwrap(),
        "{\"filename\":\"dir/\\\"q\\\".txt\",\"last_modified\":\"2015-05-15T00:00:00.500Z\"}"
    );
    assert_eq!(upload_metadata("a", i64::MAX, 0), None);
}

#[test]
fn environment_requests() {
    let r = environment::list();
    assert_eq!((r.method, r.path.as_str()), (Method::Get, "/v1/environments"));
    let r = environment::detail("e1");
    assert_eq!((r.method, r.path.as_str()), (Method::Get, "/v1/environments/e1"));
    let r = environment::delete("e1");
    assert_eq!((r.method, r.path.as_str()), (Method::Delete, "/v1/environments/e1"));
    let r = environment::preview("e1", Some("c1"), "f.html");
    assert_eq!((r.method, r.path.as_str()), (Method::Post, "/v1/environments/e1/preview"));
    assert!(matches!(r.query, Query::Config(ref c) if c == "c1"));
    assert!(matches!(r.body, Body::Filename(ref f) if f == "f.html"));
    let r = environment::preview("e1", None, "f.html");
    assert!(matches!(r.query, Query::Empty));
}

#[test]
fn environment_create_body() {
    let opts = environment::NewEnvironment { name: "env1".to_string(), description: None, size: 1 };
    let r = environment::create(&opts);
    assert_eq!((r.method, r.path.as_str()), (Method::Post, "/v1/environments"));
    assert!(matches!(r.body, Body::Json(ref t) if t == "{\"name\":\"env1\",\"size\":1}"));
    let opts = environment::NewEnvironment {
        name: "a\"b".to_string(),
        description: Some("d".to_string()),
        size: 0,
    };
    assert_eq!(opts.to_json(), "{\"name\":\"a\\\"b\",\"description\":\"d\",\"size\":0}");
}

#[test]
fn collection_requests() {
    let r = collection::list("e");
    assert_eq!((r.method, r.path.as_str()), (Method::Get, "/v1/environments/e/collections"));
    let r = collection::detail("e", "c");
    assert_eq!((r.method, r.path.as_str()), (Method::Get, "/v1/environments/e/collections/c"));
    let r = collection::fields("e", "c");
    assert_eq!(r.path, "/v1/environments/e/collections/c/fields");
    let r = collection::delete("e", "c");
    assert_eq!((r.method, r.path.as_str()), (Method::Delete, "/v1/environments/e/collections/c"));
    let opts = collection::NewCollection {
        name: "n".to_string(),
        description: None,
        configuration_id: Some("cfg".to_string()),
    };
    let r = collection::create("e", &opts);
    assert_eq!((r.method, r.path.as_str()), (Method::Post, "/v1/environments/e/collections"));
    assert!(matches!(r.body, Body::Json(ref t) if t == "{\"name\":\"n\",\"configuration_id\":\"cfg\"}"));
}

#[test]
fn configuration_requests() {
    let r = configuration::list("e");
    assert_eq!(r.path, "/v1/environments/e/configurations");
    let r = configuration::detail("e", "k");
    assert_eq!((r.method, r.path.as_str()), (Method::Get, "/v1/environments/e/configurations/k"));
    let r = configuration::delete("e", "k");
    assert_eq!(r.method, Method::Delete);
    let r = configuration::create("e", "{\"name\":\"k\"}");
    assert_eq!(r.method, Method::Post);
    assert!(matches!(r.body, Body::Json(ref t) if t == "{\"name\":\"k\"}"));
}

#[test]
fn document_requests() {
    let r = document::detail("e", "c", "d");
    assert_eq!(r.path, "/v1/environments/e/collections/c/documents/d");
    let r = document::create("e", "c", None, None, "f.pdf");
    assert_eq!((r.method, r.path.as_str()), (Method::Post, "/v1/environments/e/collections/c/documents"));
    assert!(matches!(r.query, Query::Empty));
    let r = document::create("e", "c", Some("k"), Some("d"), "f.pdf");
    assert_eq!(r.path, "/v1/environments/e/collections/c/documents/d");
    assert!(matches!(r.query, Query::Config(ref k) if k == "k"));
    assert!(matches!(r.body, Body::Filename(ref f) if f == "f.pdf"));
}

#[test]
fn query_requests() {
    let r = query::query("e", "c", bare_params(10));
    assert_eq!((r.method, r.path.as_str()), (Method::Get, "/v1/environments/e/collections/c/query"));
    assert!(matches!(r.query, Query::Query(ref q) if q.count == 10));
    let r = query::notices("e", "c", bare_params(2));
    assert_eq!(r.path, "/v1/environments/e/collections/c/notices");
}
