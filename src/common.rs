use crate::encoding::{bool_string, bool_text, decimal, decimal_string};
use crate::interop::{form_encode, form_encoded};
use vstd::prelude::*;

verus! {

/// Where the service lives and who calls it.
#[derive(Clone, Debug)]
pub struct Credentials {
    pub url: String,
    pub username: String,
    pub password: String,
}

/// What a request carries: a JSON text, a local file to upload, or nothing.
#[derive(Clone, Debug)]
pub enum Body {
    Json(String),
    Filename(String),
    Empty,
}

/// The optional parameters of a query; `count` is always sent.
#[derive(Clone, Debug)]
pub struct QueryParams {
    pub filter: Option<String>,
    pub query: Option<String>,
    pub natural_language_query: Option<String>,
    pub passages: Option<bool>,
    pub aggregation: Option<String>,
    pub count: u64,
    pub return_hierarchy: Option<String>,
    pub offset: Option<u64>,
    pub sort: Option<String>,
}

/// The parameters that an endpoint adds to the URL.
#[derive(Clone, Debug)]
pub enum Query {
    Query(QueryParams),
    Config(String),
    Empty,
}

/// The HTTP methods the service is called with.
#[derive(Clone, Copy, Debug, PartialEq, Eq, Structural)]
pub enum Method {
    Get,
    Post,
    Delete,
}

/// The error payload that the service sends with a failure status, after
/// normalization: its members, each empty where absent.
#[derive(Clone, Debug, PartialEq, Eq)]
pub struct ServiceError {
    pub code: i64,
    pub error: String,
    pub message: String,
    pub description: String,
}

/// A failure status and the service error that came with it.
#[derive(Clone, Debug, PartialEq, Eq)]
pub struct ApiErrorDetail {
    pub status_code: u16,
    pub service_error: ServiceError,
}

/// Every way a call of the service can fail.
#[derive(Debug)]
pub enum ApiError {
    /// The service answered with a status outside 200..=299.
    Service(ApiErrorDetail),
    /// A body was not the JSON that was expected.
    SerdeJson(serde_json::Error),
    /// A local file or the response stream could not be read.
    Io(String),
    /// The HTTP exchange could not be completed.
    Hyper(String),
    /// The request URL does not parse.
    HyperParse(url::ParseError),
}

impl ServiceError {
    /// The members, as code, error, message and description.
    pub open spec fn model(&self) -> (int, Seq<char>, Seq<char>, Seq<char>) {
        (self.code as int, self.error@, self.message@, self.description@)
    }
}

/// A parameter of the query string, before encoding: its name and value.
pub open spec fn optional_pair(name: Seq<char>, value: Option<Seq<char>>) -> Seq<(Seq<char>, Seq<char>)> {
    match value {
        Some(v) => seq![(name, v)],
        None => seq![],
    }
}

pub open spec fn bool_param(b: Option<bool>) -> Option<Seq<char>> {
    match b {
        Some(v) => Some(bool_text(v)),
        None => None,
    }
}

pub open spec fn u64_param(n: Option<u64>) -> Option<Seq<char>> {
    match n {
        Some(v) => Some(decimal(v as nat)),
        None => None,
    }
}

impl QueryParams {
    /// The parameters sent for these query options, in the order they are sent.
    pub open spec fn pairs(&self) -> Seq<(Seq<char>, Seq<char>)> {
        optional_pair("filter"@, self.filter.deep_view())
            + optional_pair("query"@, self.query.deep_view())
            + optional_pair("natural_language_query"@, self.natural_language_query.deep_view())
            + optional_pair("passages"@, bool_param(self.passages))
            + optional_pair("aggregation"@, self.aggregation.deep_view())
            + seq![("count"@, decimal(self.count as nat))]
            + optional_pair("return"@, self.return_hierarchy.deep_view())
            + optional_pair("offset"@, u64_param(self.offset))
            + optional_pair("sort"@, self.sort.deep_view())
    }
}

impl Query {
    /// The parameters that this selection adds after the version.
    pub open spec fn pairs(&self) -> Seq<(Seq<char>, Seq<char>)> {
        match self {
            Query::Query(q) => q.pairs(),
            Query::Config(c) => seq![("configuration_id"@, c@)],
            Query::Empty => seq![],
        }
    }
}

/// Every parameter of a request's query string: the version, then the
/// parameters of the query selection.
pub open spec fn request_pairs(version: Seq<char>, query: Query) -> Seq<(Seq<char>, Seq<char>)> {
    seq![("version"@, version)] + query.pairs()
}

/// One encoded parameter: `name=value`.
pub open spec fn encoded_pair(p: (Seq<char>, Seq<char>)) -> Seq<char> {
    form_encoded(p.0) + seq!['='] + form_encoded(p.1)
}

/// The encoded query string of a list of parameters, joined by `&`.
pub open spec fn encoded_query(ps: Seq<(Seq<char>, Seq<char>)>) -> Seq<char>
    decreases ps.len(),
{
    if ps.len() == 0 {
        seq![]
    } else if ps.len() == 1 {
        encoded_pair(ps[0])
    } else {
        encoded_query(ps.drop_last()) + seq!['&'] + encoded_pair(ps.last())
    }
}

/// The full URL of a request.
pub open spec fn request_url(base: Seq<char>, path: Seq<char>, version: Seq<char>, query: Query) -> Seq<char> {
    base + path + seq!['?'] + encoded_query(request_pairs(version, query))
}

fn push_pair(pairs: &mut Vec<(String, String)>, name: &str, value: String)
    ensures
        final(pairs).deep_view() == old(pairs).deep_view().push((name@, value@)),
{
    let ghost before = pairs.deep_view();
    pairs.push((name.to_owned(), value));
    assert(pairs.deep_view() =~= before.push((name@, value@))) by {
        assert(pairs@ == old(pairs)@.push(pairs@.last()));
    }
}

fn push_optional(pairs: &mut Vec<(String, String)>, name: &str, value: &Option<String>)
    ensures
        final(pairs).deep_view() == old(pairs).deep_view() + optional_pair(name@, value.deep_view()),
{
    match value {
        Some(v) => {
            push_pair(pairs, name, v.clone());
            assert(final(pairs).deep_view() =~= old(pairs).deep_view() + optional_pair(name@, value.deep_view()));
        },
        None => {
            assert(old(pairs).deep_view() =~= old(pairs).deep_view() + optional_pair(name@, value.deep_view()));
        },
    }
}

fn push_query_params(pairs: &mut Vec<(String, String)>, q: &QueryParams)
    ensures
        final(pairs).deep_view() == old(pairs).deep_view() + q.pairs(),
{
    let ghost start = pairs.deep_view();
    let ghost mut acc: Seq<(Seq<char>, Seq<char>)> = seq![];
    push_optional(pairs, "filter", &q.filter);
    proof {
        acc = optional_pair("filter"@, q.filter.deep_view());
        assert(pairs.deep_view() =~= start + acc);
    }
    push_optional(pairs, "query", &q.query);
    proof {
        acc = acc + optional_pair("query"@, q.query.deep_view());
        assert(pairs.deep_view() =~= start + acc);
    }
    push_optional(pairs, "natural_language_query", &q.natural_language_query);
    proof {
        acc = acc + optional_pair("natural_language_query"@, q.natural_language_query.deep_view());
        assert(pairs.deep_view() =~= start + acc);
    }
    let passages = match q.passages {
        Some(b) => Some(bool_string(b)),
        None => None,
    };
    assert(passages.deep_view() == bool_param(q.passages));
    push_optional(pairs, "passages", &passages);
    proof {
        acc = acc + optional_pair("passages"@, bool_param(q.passages));
        assert(pairs.deep_view() =~= start + acc);
    }
    push_optional(pairs, "aggregation", &q.aggregation);
    proof {
        acc = acc + optional_pair("aggregation"@, q.aggregation.deep_view());
        assert(pairs.deep_view() =~= start + acc);
    }
    push_pair(pairs, "count", decimal_string(q.count));
    proof {
        acc = acc + seq![("count"@, decimal(q.count as nat))];
        assert(pairs.deep_view() =~= start + acc);
    }
    push_optional(pairs, "return", &q.return_hierarchy);
    proof {
        acc = acc + optional_pair("return"@, q.return_hierarchy.deep_view());
        assert(pairs.deep_view() =~= start + acc);
    }
    let offset = match q.offset {
        Some(n) => Some(decimal_string(n)),
        None => None,
    };
    assert(offset.deep_view() == u64_param(q.offset));
    push_optional(pairs, "offset", &offset);
    proof {
        acc = acc + optional_pair("offset"@, u64_param(q.offset));
        assert(pairs.deep_view() =~= start + acc);
    }
    push_optional(pairs, "sort", &q.sort);
    proof {
        acc = acc + optional_pair("sort"@, q.sort.deep_view());
        assert(pairs.deep_view() =~= start + acc);
        assert(acc == q.pairs());
    }
}

/// Appends to `pairs` the parameters that `query` selects: the present
/// fields of structured query options under their parameter names, the
/// configuration id alone, or nothing.
pub fn deal_with_query(pairs: &mut Vec<(String, String)>, query: &Query)
    ensures
        final(pairs).deep_view() == old(pairs).deep_view() + query.pairs(),
{
    let ghost start = pairs.deep_view();
    match query {
        Query::Query(q) => {
            push_query_params(pairs, q);
        },
        Query::Config(c) => {
            push_pair(pairs, "configuration_id", c.clone());
            assert(pairs.deep_view() =~= start + query.pairs());
        },
        Query::Empty => {
            assert(start =~= start + query.pairs());
        },
    }
}

/// The parameters of a request's query string: the version first, then
/// those of the query selection.
pub fn query_pairs(version: &str, query: &Query) -> (r: Vec<(String, String)>)
    ensures
        r.deep_view() == request_pairs(version@, *query),
{
    let mut pairs: Vec<(String, String)> = Vec::new();
    push_pair(&mut pairs, "version", version.to_owned());
    deal_with_query(&mut pairs, query);
    assert(pairs.deep_view() =~= request_pairs(version@, *query));
    pairs
}

/// Encodes parameters as a query string: each name and value form-encoded,
/// `name=value`, joined by `&`.
pub fn encode_query(pairs: &Vec<(String, String)>) -> (r: String)
    ensures
        r@ == encoded_query(pairs.deep_view()),
{
    let ghost ps = pairs.deep_view();
    let mut out = String::new();
    let mut i: usize = 0;
    assert(ps.subrange(0, 0) =~= Seq::<(Seq<char>, Seq<char>)>::empty());
    while i < pairs.len()
        invariant
            ps == pairs.deep_view(),
            i <= pairs.len(),
            out@ == encoded_query(ps.subrange(0, i as int)),
        decreases pairs.len() - i,
    {
        let ghost prefix = ps.subrange(0, i as int);
        let ghost next = ps.subrange(0, i as int + 1);
        assert(next.drop_last() =~= prefix);
        assert(next.last() == ps[i as int]);
        assert(ps[i as int] == (pairs@[i as int].0@, pairs@[i as int].1@));
        if i > 0 {
            out.append("&");
            proof { reveal_strlit("&"); }
        }
        let name = form_encode(pairs[i].0.as_str());
        out.append(name.as_str());
        out.append("=");
        proof { reveal_strlit("="); }
        let value = form_encode(pairs[i].1.as_str());
        out.append(value.as_str());
        proof {
            if i == 0 {
                assert(out@ =~= encoded_pair(next[0]));
            } else {
                assert(out@ =~= encoded_query(prefix) + seq!['&'] + encoded_pair(next.last()));
            }
        }
        i = i + 1;
    }
    assert(ps.subrange(0, i as int) =~= ps);
    out
}

/// How many parameters of `ps` are named `name`.
pub open spec fn occurrences(ps: Seq<(Seq<char>, Seq<char>)>, name: Seq<char>) -> nat
    decreases ps.len(),
{
    if ps.len() == 0 {
        0
    } else {
        occurrences(ps.drop_last(), name) + if ps.last().0 == name {
            1nat
        } else {
            0nat
        }
    }
}

/// 1 for a present option, 0 for an absent one.
pub open spec fn present<T>(o: Option<T>) -> nat {
    if o is Some {
        1
    } else {
        0
    }
}

proof fn lemma_occurrences_concat(a: Seq<(Seq<char>, Seq<char>)>, b: Seq<(Seq<char>, Seq<char>)>, name: Seq<char>)
    ensures
        occurrences(a + b, name) == occurrences(a, name) + occurrences(b, name),
    decreases b.len(),
{
    if b.len() > 0 {
        lemma_occurrences_concat(a, b.drop_last(), name);
        assert((a + b).drop_last() =~= a + b.drop_last());
    } else {
        assert(a + b =~= a);
    }
}

proof fn lemma_optional_occurrences(name: Seq<char>, value: Option<Seq<char>>, other: Seq<char>)
    ensures
        occurrences(optional_pair(name, value), other) == if name == other {
            present(value)
        } else {
            0
        },
{
    let ps = optional_pair(name, value);
    if value is Some {
        assert(ps.drop_last() =~= Seq::<(Seq<char>, Seq<char>)>::empty());
        assert(occurrences(ps.drop_last(), other) == 0);
        assert(ps.last().0 == name);
    } else {
        assert(ps.len() == 0);
    }
}

proof fn lemma_single_occurrences(p: (Seq<char>, Seq<char>), other: Seq<char>)
    ensures
        occurrences(seq![p], other) == if p.0 == other {
            1nat
        } else {
            0
        },
{
    let ps = seq![p];
    assert(ps.drop_last() =~= Seq::<(Seq<char>, Seq<char>)>::empty());
    assert(occurrences(ps.drop_last(), other) == 0);
}

proof fn lemma_param_occurrences(q: QueryParams, name: Seq<char>)
    ensures
        occurrences(q.pairs(), name) == (if name == "filter"@ { present(q.filter) } else { 0 })
            + (if name == "query"@ { present(q.query) } else { 0 })
            + (if name == "natural_language_query"@ { present(q.natural_language_query) } else { 0 })
            + (if name == "passages"@ { present(q.passages) } else { 0 })
            + (if name == "aggregation"@ { present(q.aggregation) } else { 0 })
            + (if name == "count"@ { 1nat } else { 0 })
            + (if name == "return"@ { present(q.return_hierarchy) } else { 0 })
            + (if name == "offset"@ { present(q.offset) } else { 0 })
            + (if name == "sort"@ { present(q.sort) } else { 0 }),
{
    let p1 = optional_pair("filter"@, q.filter.deep_view());
    let p2 = optional_pair("query"@, q.query.deep_view());
    let p3 = optional_pair("natural_language_query"@, q.natural_language_query.deep_view());
    let p4 = optional_pair("passages"@, bool_param(q.passages));
    let p5 = optional_pair("aggregation"@, q.aggregation.deep_view());
    let p6: Seq<(Seq<char>, Seq<char>)> = seq![("count"@, decimal(q.count as nat))];
    let p7 = optional_pair("return"@, q.return_hierarchy.deep_view());
    let p8 = optional_pair("offset"@, u64_param(q.offset));
    let p9 = optional_pair("sort"@, q.sort.deep_view());
    lemma_occurrences_concat(p1, p2, name);
    lemma_occurrences_concat(p1 + p2, p3, name);
    lemma_occurrences_concat(p1 + p2 + p3, p4, name);
    lemma_occurrences_concat(p1 + p2 + p3 + p4, p5, name);
    lemma_occurrences_concat(p1 + p2 + p3 + p4 + p5, p6, name);
    lemma_occurrences_concat(p1 + p2 + p3 + p4 + p5 + p6, p7, name);
    lemma_occurrences_concat(p1 + p2 + p3 + p4 + p5 + p6 + p7, p8, name);
    lemma_occurrences_concat(p1 + p2 + p3 + p4 + p5 + p6 + p7 + p8, p9, name);
    lemma_optional_occurrences("filter"@, q.filter.deep_view(), name);
    lemma_optional_occurrences("query"@, q.query.deep_view(), name);
    lemma_optional_occurrences("natural_language_query"@, q.natural_language_query.deep_view(), name);
    lemma_optional_occurrences("passages"@, bool_param(q.passages), name);
    lemma_optional_occurrences("aggregation"@, q.aggregation.deep_view(), name);
    lemma_optional_occurrences("return"@, q.return_hierarchy.deep_view(), name);
    lemma_optional_occurrences("offset"@, u64_param(q.offset), name);
    lemma_optional_occurrences("sort"@, q.sort.deep_view(), name);
    lemma_single_occurrences(("count"@, decimal(q.count as nat)), name);
}

proof fn lemma_parameter_names_differ()
    ensures
        "version"@ != "filter"@,
        "version"@ != "query"@,
        "version"@ != "natural_language_query"@,
        "version"@ != "passages"@,
        "version"@ != "aggregation"@,
        "version"@ != "count"@,
        "version"@ != "return"@,
        "version"@ != "offset"@,
        "version"@ != "sort"@,
        "version"@ != "configuration_id"@,
        "filter"@ != "query"@,
        "filter"@ != "natural_language_query"@,
        "filter"@ != "passages"@,
        "filter"@ != "aggregation"@,
        "filter"@ != "count"@,
        "filter"@ != "return"@,
        "filter"@ != "offset"@,
        "filter"@ != "sort"@,
        "query"@ != "natural_language_query"@,
        "query"@ != "passages"@,
        "query"@ != "aggregation"@,
        "query"@ != "count"@,
        "query"@ != "return"@,
        "query"@ != "offset"@,
        "query"@ != "sort"@,
        "natural_language_query"@ != "passages"@,
        "natural_language_query"@ != "aggregation"@,
        "natural_language_query"@ != "count"@,
        "natural_language_query"@ != "return"@,
        "natural_language_query"@ != "offset"@,
        "natural_language_query"@ != "sort"@,
        "passages"@ != "aggregation"@,
        "passages"@ != "count"@,
        "passages"@ != "return"@,
        "passages"@ != "offset"@,
        "passages"@ != "sort"@,
        "aggregation"@ != "count"@,
        "aggregation"@ != "return"@,
        "aggregation"@ != "offset"@,
        "aggregation"@ != "sort"@,
        "count"@ != "return"@,
        "count"@ != "offset"@,
        "count"@ != "sort"@,
        "return"@ != "offset"@,
        "return"@ != "sort"@,
        "offset"@ != "sort"@,
        "configuration_id"@ != "filter"@,
        "configuration_id"@ != "query"@,
        "configuration_id"@ != "natural_language_query"@,
        "configuration_id"@ != "passages"@,
        "configuration_id"@ != "aggregation"@,
        "configuration_id"@ != "count"@,
        "configuration_id"@ != "return"@,
        "configuration_id"@ != "offset"@,
        "configuration_id"@ != "sort"@,
{
    reveal_strlit("version");
    reveal_strlit("filter");
    reveal_strlit("query");
    reveal_strlit("natural_language_query");
    reveal_strlit("passages");
    reveal_strlit("aggregation");
    reveal_strlit("count");
    reveal_strlit("return");
    reveal_strlit("offset");
    reveal_strlit("sort");
    reveal_strlit("configuration_id");
    assert("version"@.len() == 7);
    assert("filter"@.len() == 6);
    assert("query"@.len() == 5);
    assert("natural_language_query"@.len() == 22);
    assert("passages"@.len() == 8);
    assert("aggregation"@.len() == 11);
    assert("count"@.len() == 5);
    assert("return"@.len() == 6);
    assert("offset"@.len() == 6);
    assert("sort"@.len() == 4);
    assert("configuration_id"@.len() == 16);
    assert("filter"@[0] != "offset"@[0]);
    assert("filter"@[0] != "return"@[0]);
    assert("return"@[0] != "offset"@[0]);
    assert("query"@[0] != "count"@[0]);
}

/// With structured query options, the query string carries the version
/// once, each present option once under its parameter name and with its
/// value, no absent option, the count always, and no configuration id;
/// nothing else.
pub proof fn lemma_structured_query(version: Seq<char>, q: QueryParams)
    ensures
        ({
            let ps = request_pairs(version, Query::Query(q));
            &&& occurrences(ps, "version"@) == 1
            &&& occurrences(ps, "filter"@) == present(q.filter)
            &&& occurrences(ps, "query"@) == present(q.query)
            &&& occurrences(ps, "natural_language_query"@) == present(q.natural_language_query)
            &&& occurrences(ps, "passages"@) == present(q.passages)
            &&& occurrences(ps, "aggregation"@) == present(q.aggregation)
            &&& occurrences(ps, "count"@) == 1
            &&& occurrences(ps, "return"@) == present(q.return_hierarchy)
            &&& occurrences(ps, "offset"@) == present(q.offset)
            &&& occurrences(ps, "sort"@) == present(q.sort)
            &&& occurrences(ps, "configuration_id"@) == 0
            &&& ps.len() == 2 + present(q.filter) + present(q.query) + present(
                q.natural_language_query,
            ) + present(q.passages) + present(q.aggregation) + present(q.return_hierarchy)
                + present(q.offset) + present(q.sort)
            &&& ps.contains(("count"@, decimal(q.count as nat)))
            &&& (q.filter matches Some(f) ==> ps.contains(("filter"@, f@)))
            &&& (q.query matches Some(t) ==> ps.contains(("query"@, t@)))
            &&& (q.natural_language_query matches Some(t) ==> ps.contains(
                ("natural_language_query"@, t@),
            ))
            &&& (q.passages matches Some(b) ==> ps.contains(("passages"@, bool_text(b))))
            &&& (q.aggregation matches Some(t) ==> ps.contains(("aggregation"@, t@)))
            &&& (q.return_hierarchy matches Some(t) ==> ps.contains(("return"@, t@)))
            &&& (q.offset matches Some(n) ==> ps.contains(("offset"@, decimal(n as nat))))
            &&& (q.sort matches Some(t) ==> ps.contains(("sort"@, t@)))
        }),
{
    let ps = request_pairs(version, Query::Query(q));
    let head: Seq<(Seq<char>, Seq<char>)> = seq![("version"@, version)];
    lemma_parameter_names_differ();
    lemma_single_occurrences(("version"@, version), "version"@);
    lemma_single_occurrences(("version"@, version), "filter"@);
    lemma_single_occurrences(("version"@, version), "query"@);
    lemma_single_occurrences(("version"@, version), "natural_language_query"@);
    lemma_single_occurrences(("version"@, version), "passages"@);
    lemma_single_occurrences(("version"@, version), "aggregation"@);
    lemma_single_occurrences(("version"@, version), "count"@);
    lemma_single_occurrences(("version"@, version), "return"@);
    lemma_single_occurrences(("version"@, version), "offset"@);
    lemma_single_occurrences(("version"@, version), "sort"@);
    lemma_single_occurrences(("version"@, version), "configuration_id"@);
    lemma_occurrences_concat(head, q.pairs(), "version"@);
    lemma_occurrences_concat(head, q.pairs(), "filter"@);
    lemma_occurrences_concat(head, q.pairs(), "query"@);
    lemma_occurrences_concat(head, q.pairs(), "natural_language_query"@);
    lemma_occurrences_concat(head, q.pairs(), "passages"@);
    lemma_occurrences_concat(head, q.pairs(), "aggregation"@);
    lemma_occurrences_concat(head, q.pairs(), "count"@);
    lemma_occurrences_concat(head, q.pairs(), "return"@);
    lemma_occurrences_concat(head, q.pairs(), "offset"@);
    lemma_occurrences_concat(head, q.pairs(), "sort"@);
    lemma_occurrences_concat(head, q.pairs(), "configuration_id"@);
    lemma_param_occurrences(q, "version"@);
    lemma_param_occurrences(q, "filter"@);
    lemma_param_occurrences(q, "query"@);
    lemma_param_occurrences(q, "natural_language_query"@);
    lemma_param_occurrences(q, "passages"@);
    lemma_param_occurrences(q, "aggregation"@);
    lemma_param_occurrences(q, "count"@);
    lemma_param_occurrences(q, "return"@);
    lemma_param_occurrences(q, "offset"@);
    lemma_param_occurrences(q, "sort"@);
    lemma_param_occurrences(q, "configuration_id"@);
    lemma_structured_contents(version, q);
    assert(q.pairs().len() == present(q.filter) + present(q.query) + present(
        q.natural_language_query,
    ) + present(q.passages) + present(q.aggregation) + 1 + present(q.return_hierarchy)
        + present(q.offset) + present(q.sort));
}

proof fn lemma_contains_extend(a: Seq<(Seq<char>, Seq<char>)>, b: Seq<(Seq<char>, Seq<char>)>, x: (Seq<char>, Seq<char>))
    requires
        a.contains(x),
    ensures
        (a + b).contains(x),
{
    let i = choose|i: int| 0 <= i < a.len() && a[i] == x;
    assert((a + b)[i] == x);
}

proof fn lemma_contains_after(a: Seq<(Seq<char>, Seq<char>)>, b: Seq<(Seq<char>, Seq<char>)>, x: (Seq<char>, Seq<char>))
    requires
        b.contains(x),
    ensures
        (a + b).contains(x),
{
    let i = choose|i: int| 0 <= i < b.len() && b[i] == x;
    assert((a + b)[a.len() + i] == x);
}

proof fn lemma_param_contains_filter(q: QueryParams)
    ensures
        q.filter matches Some(f) ==> q.pairs().contains(("filter"@, f@)),
{
    let p1: Seq<(Seq<char>, Seq<char>)> = optional_pair("filter"@, q.filter.deep_view());
    let p2: Seq<(Seq<char>, Seq<char>)> = optional_pair("query"@, q.query.deep_view());
    let p3: Seq<(Seq<char>, Seq<char>)> = optional_pair("natural_language_query"@, q.natural_language_query.deep_view());
    let p4: Seq<(Seq<char>, Seq<char>)> = optional_pair("passages"@, bool_param(q.passages));
    let p5: Seq<(Seq<char>, Seq<char>)> = optional_pair("aggregation"@, q.aggregation.deep_view());
    let p6: Seq<(Seq<char>, Seq<char>)> = seq![("count"@, decimal(q.count as nat))];
    let p7: Seq<(Seq<char>, Seq<char>)> = optional_pair("return"@, q.return_hierarchy.deep_view());
    let p8: Seq<(Seq<char>, Seq<char>)> = optional_pair("offset"@, u64_param(q.offset));
    let p9: Seq<(Seq<char>, Seq<char>)> = optional_pair("sort"@, q.sort.deep_view());
    if let Some(f) = q.filter {
        assert(p1[0] == ("filter"@, f@));
        lemma_contains_extend(p1, p2, ("filter"@, f@));
        lemma_contains_extend(p1 + p2, p3, ("filter"@, f@));
        lemma_contains_extend(p1 + p2 + p3, p4, ("filter"@, f@));
        lemma_contains_extend(p1 + p2 + p3 + p4, p5, ("filter"@, f@));
        lemma_contains_extend(p1 + p2 + p3 + p4 + p5, p6, ("filter"@, f@));
        lemma_contains_extend(p1 + p2 + p3 + p4 + p5 + p6, p7, ("filter"@, f@));
        lemma_contains_extend(p1 + p2 + p3 + p4 + p5 + p6 + p7, p8, ("filter"@, f@));
        lemma_contains_extend(p1 + p2 + p3 + p4 + p5 + p6 + p7 + p8, p9, ("filter"@, f@));
    }
}

proof fn lemma_param_contains_query(q: QueryParams)
    ensures
        q.query matches Some(t) ==> q.pairs().contains(("query"@, t@)),
{
    let p1: Seq<(Seq<char>, Seq<char>)> = optional_pair("filter"@, q.filter.deep_view());
    let p2: Seq<(Seq<char>, Seq<char>)> = optional_pair("query"@, q.query.deep_view());
    let p3: Seq<(Seq<char>, Seq<char>)> = optional_pair("natural_language_query"@, q.natural_language_query.deep_view());
    let p4: Seq<(Seq<char>, Seq<char>)> = optional_pair("passages"@, bool_param(q.passages));
    let p5: Seq<(Seq<char>, Seq<char>)> = optional_pair("aggregation"@, q.aggregation.deep_view());
    let p6: Seq<(Seq<char>, Seq<char>)> = seq![("count"@, decimal(q.count as nat))];
    let p7: Seq<(Seq<char>, Seq<char>)> = optional_pair("return"@, q.return_hierarchy.deep_view());
    let p8: Seq<(Seq<char>, Seq<char>)> = optional_pair("offset"@, u64_param(q.offset));
    let p9: Seq<(Seq<char>, Seq<char>)> = optional_pair("sort"@, q.sort.deep_view());
    if let Some(t) = q.query {
        assert((p1 + p2)[(p1).len() as int] == ("query"@, t@));
        lemma_contains_extend(p1 + p2, p3, ("query"@, t@));
        lemma_contains_extend(p1 + p2 + p3, p4, ("query"@, t@));
        lemma_contains_extend(p1 + p2 + p3 + p4, p5, ("query"@, t@));
        lemma_contains_extend(p1 + p2 + p3 + p4 + p5, p6, ("query"@, t@));
        lemma_contains_extend(p1 + p2 + p3 + p4 + p5 + p6, p7, ("query"@, t@));
        lemma_contains_extend(p1 + p2 + p3 + p4 + p5 + p6 + p7, p8, ("query"@, t@));
        lemma_contains_extend(p1 + p2 + p3 + p4 + p5 + p6 + p7 + p8, p9, ("query"@, t@));
    }
}

proof fn lemma_param_contains_natural_language_query(q: QueryParams)
    ensures
        q.natural_language_query matches Some(t) ==> q.pairs().contains(("natural_language_query"@, t@)),
{
    let p1: Seq<(Seq<char>, Seq<char>)> = optional_pair("filter"@, q.filter.deep_view());
    let p2: Seq<(Seq<char>, Seq<char>)> = optional_pair("query"@, q.query.deep_view());
    let p3: Seq<(Seq<char>, Seq<char>)> = optional_pair("natural_language_query"@, q.natural_language_query.deep_view());
    let p4: Seq<(Seq<char>, Seq<char>)> = optional_pair("passages"@, bool_param(q.passages));
    let p5: Seq<(Seq<char>, Seq<char>)> = optional_pair("aggregation"@, q.aggregation.deep_view());
    let p6: Seq<(Seq<char>, Seq<char>)> = seq![("count"@, decimal(q.count as nat))];
    let p7: Seq<(Seq<char>, Seq<char>)> = optional_pair("return"@, q.return_hierarchy.deep_view());
    let p8: Seq<(Seq<char>, Seq<char>)> = optional_pair("offset"@, u64_param(q.offset));
    let p9: Seq<(Seq<char>, Seq<char>)> = optional_pair("sort"@, q.sort.deep_view());
    if let Some(t) = q.natural_language_query {
        assert((p1 + p2 + p3)[(p1 + p2).len() as int] == ("natural_language_query"@, t@));
        lemma_contains_extend(p1 + p2 + p3, p4, ("natural_language_query"@, t@));
        lemma_contains_extend(p1 + p2 + p3 + p4, p5, ("natural_language_query"@, t@));
        lemma_contains_extend(p1 + p2 + p3 + p4 + p5, p6, ("natural_language_query"@, t@));
        lemma_contains_extend(p1 + p2 + p3 + p4 + p5 + p6, p7, ("natural_language_query"@, t@));
        lemma_contains_extend(p1 + p2 + p3 + p4 + p5 + p6 + p7, p8, ("natural_language_query"@, t@));
        lemma_contains_extend(p1 + p2 + p3 + p4 + p5 + p6 + p7 + p8, p9, ("natural_language_query"@, t@));
    }
}

proof fn lemma_param_contains_passages(q: QueryParams)
    ensures
        q.passages matches Some(b) ==> q.pairs().contains(("passages"@, bool_text(b))),
{
    let p1: Seq<(Seq<char>, Seq<char>)> = optional_pair("filter"@, q.filter.deep_view());
    let p2: Seq<(Seq<char>, Seq<char>)> = optional_pair("query"@, q.query.deep_view());
    let p3: Seq<(Seq<char>, Seq<char>)> = optional_pair("natural_language_query"@, q.natural_language_query.deep_view());
    let p4: Seq<(Seq<char>, Seq<char>)> = optional_pair("passages"@, bool_param(q.passages));
    let p5: Seq<(Seq<char>, Seq<char>)> = optional_pair("aggregation"@, q.aggregation.deep_view());
    let p6: Seq<(Seq<char>, Seq<char>)> = seq![("count"@, decimal(q.count as nat))];
    let p7: Seq<(Seq<char>, Seq<char>)> = optional_pair("return"@, q.return_hierarchy.deep_view());
    let p8: Seq<(Seq<char>, Seq<char>)> = optional_pair("offset"@, u64_param(q.offset));
    let p9: Seq<(Seq<char>, Seq<char>)> = optional_pair("sort"@, q.sort.deep_view());
    if let Some(b) = q.passages {
        assert((p1 + p2 + p3 + p4)[(p1 + p2 + p3).len() as int] == ("passages"@, bool_text(b)));
        lemma_contains_extend(p1 + p2 + p3 + p4, p5, ("passages"@, bool_text(b)));
        lemma_contains_extend(p1 + p2 + p3 + p4 + p5, p6, ("passages"@, bool_text(b)));
        lemma_contains_extend(p1 + p2 + p3 + p4 + p5 + p6, p7, ("passages"@, bool_text(b)));
        lemma_contains_extend(p1 + p2 + p3 + p4 + p5 + p6 + p7, p8, ("passages"@, bool_text(b)));
        lemma_contains_extend(p1 + p2 + p3 + p4 + p5 + p6 + p7 + p8, p9, ("passages"@, bool_text(b)));
    }
}

proof fn lemma_param_contains_aggregation(q: QueryParams)
    ensures
        q.aggregation matches Some(t) ==> q.pairs().contains(("aggregation"@, t@)),
{
    let p1: Seq<(Seq<char>, Seq<char>)> = optional_pair("filter"@, q.filter.deep_view());
    let p2: Seq<(Seq<char>, Seq<char>)> = optional_pair("query"@, q.query.deep_view());
    let p3: Seq<(Seq<char>, Seq<char>)> = optional_pair("natural_language_query"@, q.natural_language_query.deep_view());
    let p4: Seq<(Seq<char>, Seq<char>)> = optional_pair("passages"@, bool_param(q.passages));
    let p5: Seq<(Seq<char>, Seq<char>)> = optional_pair("aggregation"@, q.aggregation.deep_view());
    let p6: Seq<(Seq<char>, Seq<char>)> = seq![("count"@, decimal(q.count as nat))];
    let p7: Seq<(Seq<char>, Seq<char>)> = optional_pair("return"@, q.return_hierarchy.deep_view());
    let p8: Seq<(Seq<char>, Seq<char>)> = optional_pair("offset"@, u64_param(q.offset));
    let p9: Seq<(Seq<char>, Seq<char>)> = optional_pair("sort"@, q.sort.deep_view());
    if let Some(t) = q.aggregation {
        assert((p1 + p2 + p3 + p4 + p5)[(p1 + p2 + p3 + p4).len() as int] == ("aggregation"@, t@));
        lemma_contains_extend(p1 + p2 + p3 + p4 + p5, p6, ("aggregation"@, t@));
        lemma_contains_extend(p1 + p2 + p3 + p4 + p5 + p6, p7, ("aggregation"@, t@));
        lemma_contains_extend(p1 + p2 + p3 + p4 + p5 + p6 + p7, p8, ("aggregation"@, t@));
        lemma_contains_extend(p1 + p2 + p3 + p4 + p5 + p6 + p7 + p8, p9, ("aggregation"@, t@));
    }
}

proof fn lemma_param_contains_count(q: QueryParams)
    ensures
        q.pairs().contains(("count"@, decimal(q.count as nat))),
{
    let p1: Seq<(Seq<char>, Seq<char>)> = optional_pair("filter"@, q.filter.deep_view());
    let p2: Seq<(Seq<char>, Seq<char>)> = optional_pair("query"@, q.query.deep_view());
    let p3: Seq<(Seq<char>, Seq<char>)> = optional_pair("natural_language_query"@, q.natural_language_query.deep_view());
    let p4: Seq<(Seq<char>, Seq<char>)> = optional_pair("passages"@, bool_param(q.passages));
    let p5: Seq<(Seq<char>, Seq<char>)> = optional_pair("aggregation"@, q.aggregation.deep_view());
    let p6: Seq<(Seq<char>, Seq<char>)> = seq![("count"@, decimal(q.count as nat))];
    let p7: Seq<(Seq<char>, Seq<char>)> = optional_pair("return"@, q.return_hierarchy.deep_view());
    let p8: Seq<(Seq<char>, Seq<char>)> = optional_pair("offset"@, u64_param(q.offset));
    let p9: Seq<(Seq<char>, Seq<char>)> = optional_pair("sort"@, q.sort.deep_view());
    {
        assert((p1 + p2 + p3 + p4 + p5 + p6)[(p1 + p2 + p3 + p4 + p5).len() as int] == ("count"@, decimal(q.count as nat)));
        lemma_contains_extend(p1 + p2 + p3 + p4 + p5 + p6, p7, ("count"@, decimal(q.count as nat)));
        lemma_contains_extend(p1 + p2 + p3 + p4 + p5 + p6 + p7, p8, ("count"@, decimal(q.count as nat)));
        lemma_contains_extend(p1 + p2 + p3 + p4 + p5 + p6 + p7 + p8, p9, ("count"@, decimal(q.count as nat)));
    }
}

proof fn lemma_param_contains_return(q: QueryParams)
    ensures
        q.return_hierarchy matches Some(t) ==> q.pairs().contains(("return"@, t@)),
{
    let p1: Seq<(Seq<char>, Seq<char>)> = optional_pair("filter"@, q.filter.deep_view());
    let p2: Seq<(Seq<char>, Seq<char>)> = optional_pair("query"@, q.query.deep_view());
    let p3: Seq<(Seq<char>, Seq<char>)> = optional_pair("natural_language_query"@, q.natural_language_query.deep_view());
    let p4: Seq<(Seq<char>, Seq<char>)> = optional_pair("passages"@, bool_param(q.passages));
    let p5: Seq<(Seq<char>, Seq<char>)> = optional_pair("aggregation"@, q.aggregation.deep_view());
    let p6: Seq<(Seq<char>, Seq<char>)> = seq![("count"@, decimal(q.count as nat))];
    let p7: Seq<(Seq<char>, Seq<char>)> = optional_pair("return"@, q.return_hierarchy.deep_view());
    let p8: Seq<(Seq<char>, Seq<char>)> = optional_pair("offset"@, u64_param(q.offset));
    let p9: Seq<(Seq<char>, Seq<char>)> = optional_pair("sort"@, q.sort.deep_view());
    if let Some(t) = q.return_hierarchy {
        assert((p1 + p2 + p3 + p4 + p5 + p6 + p7)[(p1 + p2 + p3 + p4 + p5 + p6).len() as int] == ("return"@, t@));
        lemma_contains_extend(p1 + p2 + p3 + p4 + p5 + p6 + p7, p8, ("return"@, t@));
        lemma_contains_extend(p1 + p2 + p3 + p4 + p5 + p6 + p7 + p8, p9, ("return"@, t@));
    }
}

proof fn lemma_param_contains_offset(q: QueryParams)
    ensures
        q.offset matches Some(n) ==> q.pairs().contains(("offset"@, decimal(n as nat))),
{
    let p1: Seq<(Seq<char>, Seq<char>)> = optional_pair("filter"@, q.filter.deep_view());
    let p2: Seq<(Seq<char>, Seq<char>)> = optional_pair("query"@, q.query.deep_view());
    let p3: Seq<(Seq<char>, Seq<char>)> = optional_pair("natural_language_query"@, q.natural_language_query.deep_view());
    let p4: Seq<(Seq<char>, Seq<char>)> = optional_pair("passages"@, bool_param(q.passages));
    let p5: Seq<(Seq<char>, Seq<char>)> = optional_pair("aggregation"@, q.aggregation.deep_view());
    let p6: Seq<(Seq<char>, Seq<char>)> = seq![("count"@, decimal(q.count as nat))];
    let p7: Seq<(Seq<char>, Seq<char>)> = optional_pair("return"@, q.return_hierarchy.deep_view());
    let p8: Seq<(Seq<char>, Seq<char>)> = optional_pair("offset"@, u64_param(q.offset));
    let p9: Seq<(Seq<char>, Seq<char>)> = optional_pair("sort"@, q.sort.deep_view());
    if let Some(n) = q.offset {
        assert((p1 + p2 + p3 + p4 + p5 + p6 + p7 + p8)[(p1 + p2 + p3 + p4 + p5 + p6 + p7).len() as int] == ("offset"@, decimal(n as nat)));
        lemma_contains_extend(p1 + p2 + p3 + p4 + p5 + p6 + p7 + p8, p9, ("offset"@, decimal(n as nat)));
    }
}

proof fn lemma_param_contains_sort(q: QueryParams)
    ensures
        q.sort matches Some(t) ==> q.pairs().contains(("sort"@, t@)),
{
    let p1: Seq<(Seq<char>, Seq<char>)> = optional_pair("filter"@, q.filter.deep_view());
    let p2: Seq<(Seq<char>, Seq<char>)> = optional_pair("query"@, q.query.deep_view());
    let p3: Seq<(Seq<char>, Seq<char>)> = optional_pair("natural_language_query"@, q.natural_language_query.deep_view());
    let p4: Seq<(Seq<char>, Seq<char>)> = optional_pair("passages"@, bool_param(q.passages));
    let p5: Seq<(Seq<char>, Seq<char>)> = optional_pair("aggregation"@, q.aggregation.deep_view());
    let p6: Seq<(Seq<char>, Seq<char>)> = seq![("count"@, decimal(q.count as nat))];
    let p7: Seq<(Seq<char>, Seq<char>)> = optional_pair("return"@, q.return_hierarchy.deep_view());
    let p8: Seq<(Seq<char>, Seq<char>)> = optional_pair("offset"@, u64_param(q.offset));
    let p9: Seq<(Seq<char>, Seq<char>)> = optional_pair("sort"@, q.sort.deep_view());
    if let Some(t) = q.sort {
        assert((p1 + p2 + p3 + p4 + p5 + p6 + p7 + p8 + p9)[(p1 + p2 + p3 + p4 + p5 + p6 + p7 + p8).len() as int] == ("sort"@, t@));
    }
}

proof fn lemma_structured_contents(version: Seq<char>, q: QueryParams)
    ensures
        ({
            let ps = request_pairs(version, Query::Query(q));
            &&& ps.contains(("count"@, decimal(q.count as nat)))
            &&& (q.filter matches Some(f) ==> ps.contains(("filter"@, f@)))
            &&& (q.query matches Some(t) ==> ps.contains(("query"@, t@)))
            &&& (q.natural_language_query matches Some(t) ==> ps.contains(
                ("natural_language_query"@, t@),
            ))
            &&& (q.passages matches Some(b) ==> ps.contains(("passages"@, bool_text(b))))
            &&& (q.aggregation matches Some(t) ==> ps.contains(("aggregation"@, t@)))
            &&& (q.return_hierarchy matches Some(t) ==> ps.contains(("return"@, t@)))
            &&& (q.offset matches Some(n) ==> ps.contains(("offset"@, decimal(n as nat))))
            &&& (q.sort matches Some(t) ==> ps.contains(("sort"@, t@)))
        }),
{
    let head: Seq<(Seq<char>, Seq<char>)> = seq![("version"@, version)];
    lemma_param_contains_filter(q);
    if let Some(f) = q.filter {
        lemma_contains_after(head, q.pairs(), ("filter"@, f@));
    }
    lemma_param_contains_query(q);
    if let Some(t) = q.query {
        lemma_contains_after(head, q.pairs(), ("query"@, t@));
    }
    lemma_param_contains_natural_language_query(q);
    if let Some(t) = q.natural_language_query {
        lemma_contains_after(head, q.pairs(), ("natural_language_query"@, t@));
    }
    lemma_param_contains_passages(q);
    if let Some(b) = q.passages {
        lemma_contains_after(head, q.pairs(), ("passages"@, bool_text(b)));
    }
    lemma_param_contains_aggregation(q);
    if let Some(t) = q.aggregation {
        lemma_contains_after(head, q.pairs(), ("aggregation"@, t@));
    }
    lemma_param_contains_count(q);
    lemma_contains_after(head, q.pairs(), ("count"@, decimal(q.count as nat)));
    lemma_param_contains_return(q);
    if let Some(t) = q.return_hierarchy {
        lemma_contains_after(head, q.pairs(), ("return"@, t@));
    }
    lemma_param_contains_offset(q);
    if let Some(n) = q.offset {
        lemma_contains_after(head, q.pairs(), ("offset"@, decimal(n as nat)));
    }
    lemma_param_contains_sort(q);
    if let Some(t) = q.sort {
        lemma_contains_after(head, q.pairs(), ("sort"@, t@));
    }
}

/// With a configuration id, the query string carries the version and then
/// `configuration_id` with that id, and none of the structured options.
pub proof fn lemma_configuration_query(version: Seq<char>, id: String)
    ensures
        ({
            let ps = request_pairs(version, Query::Config(id));
            &&& ps == seq![("version"@, version), ("configuration_id"@, id@)]
            &&& occurrences(ps, "configuration_id"@) == 1
            &&& occurrences(ps, "filter"@) == 0
            &&& occurrences(ps, "query"@) == 0
            &&& occurrences(ps, "natural_language_query"@) == 0
            &&& occurrences(ps, "passages"@) == 0
            &&& occurrences(ps, "aggregation"@) == 0
            &&& occurrences(ps, "count"@) == 0
            &&& occurrences(ps, "return"@) == 0
            &&& occurrences(ps, "offset"@) == 0
            &&& occurrences(ps, "sort"@) == 0
        }),
{
    let ps = request_pairs(version, Query::Config(id));
    let a: Seq<(Seq<char>, Seq<char>)> = seq![("version"@, version)];
    let b: Seq<(Seq<char>, Seq<char>)> = seq![("configuration_id"@, id@)];
    lemma_parameter_names_differ();
    assert(ps =~= a + b);
    lemma_occurrences_concat(a, b, "filter"@);
    lemma_single_occurrences(("version"@, version), "filter"@);
    lemma_single_occurrences(("configuration_id"@, id@), "filter"@);
    lemma_occurrences_concat(a, b, "query"@);
    lemma_single_occurrences(("version"@, version), "query"@);
    lemma_single_occurrences(("configuration_id"@, id@), "query"@);
    lemma_occurrences_concat(a, b, "natural_language_query"@);
    lemma_single_occurrences(("version"@, version), "natural_language_query"@);
    lemma_single_occurrences(("configuration_id"@, id@), "natural_language_query"@);
    lemma_occurrences_concat(a, b, "passages"@);
    lemma_single_occurrences(("version"@, version), "passages"@);
    lemma_single_occurrences(("configuration_id"@, id@), "passages"@);
    lemma_occurrences_concat(a, b, "aggregation"@);
    lemma_single_occurrences(("version"@, version), "aggregation"@);
    lemma_single_occurrences(("configuration_id"@, id@), "aggregation"@);
    lemma_occurrences_concat(a, b, "count"@);
    lemma_single_occurrences(("version"@, version), "count"@);
    lemma_single_occurrences(("configuration_id"@, id@), "count"@);
    lemma_occurrences_concat(a, b, "return"@);
    lemma_single_occurrences(("version"@, version), "return"@);
    lemma_single_occurrences(("configuration_id"@, id@), "return"@);
    lemma_occurrences_concat(a, b, "offset"@);
    lemma_single_occurrences(("version"@, version), "offset"@);
    lemma_single_occurrences(("configuration_id"@, id@), "offset"@);
    lemma_occurrences_concat(a, b, "sort"@);
    lemma_single_occurrences(("version"@, version), "sort"@);
    lemma_single_occurrences(("configuration_id"@, id@), "sort"@);
    lemma_occurrences_concat(a, b, "configuration_id"@);
    lemma_single_occurrences(("version"@, version), "configuration_id"@);
    lemma_single_occurrences(("configuration_id"@, id@), "configuration_id"@);
}

} // verus!
