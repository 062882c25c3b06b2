//! Listing issues: the query parameters that the command-line options give.

use vstd::prelude::*;
use crate::api::models::issue::{status_text, IssueStatus, ListIssuesParams};
use crate::text::{all_ascii, ascii_lower, spec_to_lowercase, spec_trim, split_on, split_spec, text_eq, to_lowercase, trim};

verus! {

pub struct ListOptions {
    pub project: Option<String>,
    pub status: Option<String>,
    pub query: Option<String>,
    pub sort: String,
    pub limit: u32,
    pub all: bool,
    pub environment: Option<String>,
    pub period: Option<String>,
    pub start: Option<String>,
    pub end: Option<String>,
}

/// The status filter that a `--status` value asks for: `resolved`, `unresolved` or
/// `ignored` in any letter case (after std's lowercasing); any other value filters
/// nothing.
pub open spec fn status_filter_spec(s: Seq<char>) -> Option<IssueStatus> {
    let lower = spec_to_lowercase(s);
    if lower == "resolved"@ {
        Some(IssueStatus::Resolved)
    } else if lower == "unresolved"@ {
        Some(IssueStatus::Unresolved)
    } else if lower == "ignored"@ {
        Some(IssueStatus::Ignored)
    } else {
        None
    }
}

/// The status that a lowercase name denotes among those a filter accepts.
pub open spec fn status_from_lower(lower: Seq<char>) -> Option<IssueStatus> {
    if lower == "resolved"@ {
        Some(IssueStatus::Resolved)
    } else if lower == "unresolved"@ {
        Some(IssueStatus::Unresolved)
    } else if lower == "ignored"@ {
        Some(IssueStatus::Ignored)
    } else {
        None
    }
}

/// The status that a `--status` value filters by, if any. For an ASCII value the
/// letter case does not matter.
pub fn status_filter(s: &str) -> (r: Option<IssueStatus>)
    ensures
        r == status_filter_spec(s@),
        all_ascii(s@) ==> r == status_from_lower(ascii_lower(s@)),
{
    let lower = to_lowercase(s);
    if text_eq(lower.as_str(), "resolved") {
        Some(IssueStatus::Resolved)
    } else if text_eq(lower.as_str(), "unresolved") {
        Some(IssueStatus::Unresolved)
    } else if text_eq(lower.as_str(), "ignored") {
        Some(IssueStatus::Ignored)
    } else {
        None
    }
}

/// The name of each status other than `reprocessing` is read back as that status.
pub proof fn lemma_status_name_filters(st: IssueStatus)
    requires
        st != IssueStatus::Reprocessing,
    ensures
        status_from_lower(status_text(st)) == Some(st),
{
    reveal_strlit("resolved");
    reveal_strlit("unresolved");
    reveal_strlit("ignored");
    assert("resolved"@.len() != "unresolved"@.len());
    assert("resolved"@ != "ignored"@) by {
        assert("resolved"@[0] != "ignored"@[0]);
    }
    assert("unresolved"@.len() != "ignored"@.len());
}

/// The items of a comma-separated list, each trimmed of surrounding whitespace.
pub open spec fn comma_list_spec(s: Seq<char>) -> Seq<Seq<char>> {
    split_spec(s, ',').map_values(|p: Seq<char>| spec_trim(p))
}

/// The trimmed items of a comma-separated list.
pub fn comma_list(s: &str) -> (r: Vec<String>)
    ensures
        r.deep_view() == comma_list_spec(s@),
{
    let parts = split_on(s, ',');
    let n = parts.len();
    let mut r: Vec<String> = Vec::new();
    let mut i: usize = 0;
    while i < n
        invariant
            n == parts.deep_view().len(),
            parts.deep_view() == split_spec(s@, ','),
            i <= n,
            r.deep_view() =~= split_spec(s@, ',').take(i as int).map_values(|p: Seq<char>| spec_trim(p)),
        decreases n - i,
    {
        let t = trim(parts[i].as_str());
        assert(parts.deep_view()[i as int] == parts[i as int]@);
        let ghost prev = r.deep_view();
        r.push(t);
        assert(r.deep_view() =~= prev.push(t@));
        assert(split_spec(s@, ',').take(i + 1) =~= split_spec(s@, ',').take(i as int).push(parts.deep_view()[i as int]));
        assert(split_spec(s@, ',').take(i + 1).map_values(|p: Seq<char>| spec_trim(p))
            =~= split_spec(s@, ',').take(i as int).map_values(|p: Seq<char>| spec_trim(p)).push(spec_trim(parts[i as int]@)));
        i = i + 1;
    }
    assert(split_spec(s@, ',').take(n as int) =~= split_spec(s@, ','));
    r
}

/// The texts that an optional list of strings holds.
pub open spec fn opt_texts(o: Option<Vec<String>>) -> Option<Seq<Seq<char>>> {
    match o {
        Some(v) => Some(v.deep_view()),
        None => None,
    }
}

/// The texts that an optional string holds.
pub open spec fn opt_text(o: Option<String>) -> Option<Seq<char>> {
    match o {
        Some(s) => Some(s@),
        None => None,
    }
}

/// The optional comma list, split and trimmed.
fn opt_comma_list(o: Option<String>) -> (r: Option<Vec<String>>)
    ensures
        opt_texts(r) == match o {
            Some(s) => Some(comma_list_spec(s@)),
            None => None::<Seq<Seq<char>>>,
        },
{
    match o {
        Some(s) => Some(comma_list(s.as_str())),
        None => None,
    }
}

/// The query parameters for listing issues: the status filter read from
/// `--status`, the projects and environments split at commas and trimmed, the
/// sort order and page size as given, no cursor, and the time range as given.
pub fn list_issues_params(options: ListOptions) -> (r: ListIssuesParams)
    ensures
        opt_texts(r.project) == match options.project {
            Some(s) => Some(comma_list_spec(s@)),
            None => None::<Seq<Seq<char>>>,
        },
        r.status == match options.status {
            Some(s) => status_filter_spec(s@),
            None => None,
        },
        opt_text(r.query) == opt_text(options.query),
        opt_text(r.sort) == Some(options.sort@),
        r.limit == Some(options.limit),
        r.cursor is None,
        opt_texts(r.environment) == match options.environment {
            Some(s) => Some(comma_list_spec(s@)),
            None => None::<Seq<Seq<char>>>,
        },
        opt_text(r.stats_period) == opt_text(options.period),
        opt_text(r.start) == opt_text(options.start),
        opt_text(r.end) == opt_text(options.end),
{
    let status_filter = match &options.status {
        Some(s) => status_filter(s.as_str()),
        None => None,
    };
    let projects = opt_comma_list(options.project);
    let environments = opt_comma_list(options.environment);
    ListIssuesParams {
        project: projects,
        query: options.query,
        status: status_filter,
        sort: Some(options.sort),
        limit: Some(options.limit),
        cursor: None,
        environment: environments,
        stats_period: options.period,
        start: options.start,
        end: options.end,
    }
}

} // verus!
