//! The query parameters of the list requests, as name and value pairs in the
//! order they are sent.

use vstd::prelude::*;
use crate::api::models::event::ListEventsParams;
use crate::api::models::issue::{status_text, ListIssuesParams};
use crate::api::models::release::ListReleasesParams;
use crate::text::{decimal, owned, u64_to_string};

verus! {

/// A query parameter as a pair of texts.
pub open spec fn pair_view(p: (String, String)) -> (Seq<char>, Seq<char>) {
    (p.0@, p.1@)
}

/// The query parameters as pairs of texts.
pub open spec fn pairs_view(v: Seq<(String, String)>) -> Seq<(Seq<char>, Seq<char>)> {
    v.map_values(|p: (String, String)| pair_view(p))
}

/// One parameter per value of an optional list, each under `name`.
pub open spec fn repeated_param(name: Seq<char>, values: Option<Vec<String>>) -> Seq<(Seq<char>, Seq<char>)> {
    match values {
        Some(v) => v@.map_values(|s: String| (name, s@)),
        None => Seq::empty(),
    }
}

/// A parameter `name` for an optional value.
pub open spec fn optional_param(name: Seq<char>, value: Option<Seq<char>>) -> Seq<(Seq<char>, Seq<char>)> {
    match value {
        Some(v) => seq![(name, v)],
        None => Seq::empty(),
    }
}

/// The text of an optional string.
pub open spec fn opt_view(o: Option<String>) -> Option<Seq<char>> {
    match o {
        Some(s) => Some(s@),
        None => None,
    }
}

/// The search query of an issue listing: the status filter as an `is:` term
/// ahead of the query text given, either alone when the other is absent.
pub open spec fn issue_search(p: ListIssuesParams) -> Option<Seq<char>> {
    match p.status {
        Some(st) => match p.query {
            Some(q) => Some("is:"@ + status_text(st) + " "@ + q@),
            None => Some("is:"@ + status_text(st)),
        },
        None => opt_view(p.query),
    }
}

/// The query parameters of an issue listing: a `project` per project, the
/// search `query`, `sort`, `limit`, `cursor`, an `environment` per environment,
/// `statsPeriod`, `start` and `end`, each only when given.
pub open spec fn issue_query_spec(p: ListIssuesParams) -> Seq<(Seq<char>, Seq<char>)> {
    repeated_param("project"@, p.project)
        + optional_param("query"@, issue_search(p))
        + optional_param("sort"@, opt_view(p.sort))
        + optional_param("limit"@, match p.limit { Some(n) => Some(decimal(n as nat)), None => None })
        + optional_param("cursor"@, opt_view(p.cursor))
        + repeated_param("environment"@, p.environment)
        + optional_param("statsPeriod"@, opt_view(p.stats_period))
        + optional_param("start"@, opt_view(p.start))
        + optional_param("end"@, opt_view(p.end))
}

/// The parameters of a page request: `name` with the page size when given, and
/// the cursor when given.
pub open spec fn page_query_spec(size_name: Seq<char>, limit: Option<u32>, cursor: Option<String>) -> Seq<
    (Seq<char>, Seq<char>),
> {
    optional_param(size_name, match limit { Some(n) => Some(decimal(n as nat)), None => None })
        + optional_param("cursor"@, opt_view(cursor))
}

fn push_param(out: &mut Vec<(String, String)>, name: &str, value: String)
    ensures
        pairs_view(final(out)@) == pairs_view(old(out)@).push((name@, value@)),
{
    let ghost before = out@;
    out.push((owned(name), value));
    assert(pairs_view(out@) =~= pairs_view(before).push((name@, value@)));
}

fn push_optional(out: &mut Vec<(String, String)>, name: &str, value: &Option<String>)
    ensures
        pairs_view(final(out)@) == pairs_view(old(out)@) + optional_param(name@, opt_view(*value)),
{
    match value {
        Some(v) => push_param(out, name, v.clone()),
        None => {
            assert(pairs_view(out@) =~= pairs_view(out@) + optional_param(name@, opt_view(*value)));
        },
    }
}

fn push_number(out: &mut Vec<(String, String)>, name: &str, value: Option<u32>)
    ensures
        pairs_view(final(out)@) == pairs_view(old(out)@) + optional_param(
            name@,
            match value { Some(n) => Some(decimal(n as nat)), None => None },
        ),
{
    match value {
        Some(n) => push_param(out, name, u64_to_string(n as u64)),
        None => {
            assert(pairs_view(out@) =~= pairs_view(out@) + optional_param(
                name@,
                match value { Some(n) => Some(decimal(n as nat)), None => None },
            ));
        },
    }
}

fn push_repeated(out: &mut Vec<(String, String)>, name: &str, values: &Option<Vec<String>>)
    ensures
        pairs_view(final(out)@) == pairs_view(old(out)@) + repeated_param(name@, *values),
{
    match values {
        Some(v) => {
            let ghost before = pairs_view(out@);
            let n = v.len();
            let mut i: usize = 0;
            while i < n
                invariant
                    n == v@.len(),
                    i <= n,
                    pairs_view(out@) =~= before + v@.take(i as int).map_values(|s: String| (name@, s@)),
                decreases n - i,
            {
                push_param(out, name, v[i].clone());
                assert(v@.take(i + 1) =~= v@.take(i as int).push(v@[i as int]));
                assert(v@.take(i + 1).map_values(|s: String| (name@, s@))
                    =~= v@.take(i as int).map_values(|s: String| (name@, s@)).push((name@, v@[i as int]@)));
                i = i + 1;
            }
            assert(v@.take(n as int) =~= v@);
        },
        None => {
            assert(pairs_view(out@) =~= pairs_view(out@) + repeated_param(name@, *values));
        },
    }
}

/// The search query of an issue listing.
fn issue_search_of(p: &ListIssuesParams) -> (r: Option<String>)
    ensures
        opt_view(r) == issue_search(*p),
{
    match p.status {
        Some(st) => {
            let mut s = owned("is:");
            let name = st.to_string();
            s.append(name.as_str());
            match &p.query {
                Some(q) => {
                    s.append(" ");
                    s.append(q.as_str());
                },
                None => {},
            }
            Some(s)
        },
        None => p.query.clone(),
    }
}

/// The query parameters of an issue listing.
pub fn issue_query(p: &ListIssuesParams) -> (r: Vec<(String, String)>)
    ensures
        pairs_view(r@) == issue_query_spec(*p),
{
    let mut out: Vec<(String, String)> = Vec::new();
    assert(pairs_view(out@) =~= Seq::<(Seq<char>, Seq<char>)>::empty());
    push_repeated(&mut out, "project", &p.project);
    let search = issue_search_of(p);
    push_optional(&mut out, "query", &search);
    push_optional(&mut out, "sort", &p.sort);
    push_number(&mut out, "limit", p.limit);
    push_optional(&mut out, "cursor", &p.cursor);
    push_repeated(&mut out, "environment", &p.environment);
    push_optional(&mut out, "statsPeriod", &p.stats_period);
    push_optional(&mut out, "start", &p.start);
    push_optional(&mut out, "end", &p.end);
    assert(pairs_view(out@) =~= issue_query_spec(*p));
    out
}

/// The query parameters of a page of an issue's events: `limit` and `cursor`.
pub fn event_query(p: &ListEventsParams) -> (r: Vec<(String, String)>)
    ensures
        pairs_view(r@) == page_query_spec("limit"@, p.limit, p.cursor),
{
    let mut out: Vec<(String, String)> = Vec::new();
    push_number(&mut out, "limit", p.limit);
    push_optional(&mut out, "cursor", &p.cursor);
    assert(pairs_view(out@) =~= page_query_spec("limit"@, p.limit, p.cursor));
    out
}

/// The query parameters of a page of releases: the search `query`, `per_page`
/// and `cursor`.
pub fn release_query(p: &ListReleasesParams) -> (r: Vec<(String, String)>)
    ensures
        pairs_view(r@) == optional_param("query"@, opt_view(p.query)) + page_query_spec("per_page"@, p.limit, p.cursor),
{
    let mut out: Vec<(String, String)> = Vec::new();
    push_optional(&mut out, "query", &p.query);
    push_number(&mut out, "per_page", p.limit);
    push_optional(&mut out, "cursor", &p.cursor);
    assert(pairs_view(out@) =~= optional_param("query"@, opt_view(p.query)) + page_query_spec("per_page"@, p.limit, p.cursor));
    out
}

} // verus!
