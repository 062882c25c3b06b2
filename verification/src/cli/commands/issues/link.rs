//! Linking issues to an external tracker: reading a Linear URL, settling the
//! external project and identifier, and the request for each issue.

use vstd::prelude::*;
use crate::api::models::issue::{CreateExternalIssue, SentryAppInstallation};
use crate::error::SentryCliError;
use crate::text::{
    last_index_of, lemma_split_concat, lemma_split_free, lemma_split_nonempty, rsplit_once,
    slice_chars, split_on, split_spec, starts_with, starts_with_spec, text_eq, owned, parse_u64,
    parse_u64_spec,
};

verus! {

/// The address that every Linear issue URL begins with.
pub open spec fn linear_prefix() -> Seq<char> {
    "https://linear.app/"@
}

/// The (project, identifier) that a URL of the form
/// `https://linear.app/{workspace}/issue/{KEY-123}/...` names: the identifier is the
/// third path segment, the project is the part of it before its last hyphen.
pub open spec fn linear_url_spec(url: Seq<char>) -> Option<(Seq<char>, Seq<char>)> {
    if !starts_with_spec(url, linear_prefix()) {
        None
    } else {
        let segments = split_spec(url.skip(linear_prefix().len() as int), '/');
        if segments.len() >= 3 && segments[1] == "issue"@ {
            match last_index_of(segments[2], '-') {
                Some(i) => Some((segments[2].take(i), segments[2])),
                None => None,
            }
        } else {
            None
        }
    }
}

/// The pair of texts that an optional pair of strings holds.
pub open spec fn pair_view(r: Option<(String, String)>) -> Option<(Seq<char>, Seq<char>)> {
    match r {
        Some(p) => Some((p.0@, p.1@)),
        None => None,
    }
}

/// Parses a Linear URL into (project, identifier).
///
/// Expected format: `https://linear.app/{workspace}/issue/{KEY-123}/...`
pub fn parse_linear_url(url: &str) -> (r: Option<(String, String)>)
    ensures
        pair_view(r) == linear_url_spec(url@),
{
    if !starts_with(url, "https://linear.app/") {
        return None;
    }
    let n = url.unicode_len();
    let m = "https://linear.app/".unicode_len();
    let path = slice_chars(url, m, n);
    assert(path@ =~= url@.skip(linear_prefix().len() as int));
    let segments = split_on(path.as_str(), '/');
    proof {
        lemma_split_nonempty(path@, '/');
    }
    if segments.len() >= 3 && text_eq(segments[1].as_str(), "issue") {
        assert(segments.deep_view()[1] == segments[1]@);
        assert(segments.deep_view()[2] == segments[2]@);
        let identifier = &segments[2];
        match rsplit_once(identifier.as_str(), '-') {
            Some((project, _)) => Some((project, identifier.clone())),
            None => None,
        }
    } else {
        proof {
            if segments.len() >= 3 {
                assert(segments.deep_view()[1] == segments[1]@);
            }
        }
        None
    }
}

/// The last hyphen of `key-num` is the one after `key` when `num` holds none.
pub proof fn lemma_last_index_after(x: Seq<char>, y: Seq<char>, c: char)
    requires
        !y.contains(c),
    ensures
        last_index_of(x.push(c) + y, c) == Some(x.len() as int),
    decreases y.len(),
{
    if y.len() == 0 {
        assert(x.push(c) + y =~= x.push(c));
    } else {
        let s = x.push(c) + y;
        assert(s.drop_last() =~= x.push(c) + y.drop_last());
        assert(s.last() == y.last());
        assert(y[y.len() - 1] == y.last());
        assert(!y.drop_last().contains(c)) by {
            if y.drop_last().contains(c) {
                let k = choose|k: int| 0 <= k < y.drop_last().len() && y.drop_last()[k] == c;
                assert(y[k] == c);
            }
        }
        lemma_last_index_after(x, y.drop_last(), c);
    }
}

/// A Linear issue URL built from a workspace, a project key and an issue number
/// (optionally followed by `/` and more) parses back into that project key and
/// the identifier `{key}-{number}`.
pub proof fn lemma_linear_url_roundtrip(
    workspace: Seq<char>,
    key: Seq<char>,
    number: Seq<char>,
    rest: Seq<char>,
    with_rest: bool,
)
    requires
        !workspace.contains('/'),
        !key.contains('/'),
        !number.contains('/'),
        !number.contains('-'),
    ensures
        ({
            let identifier = key.push('-') + number;
            let tail = if with_rest { seq!['/'] + rest } else { Seq::<char>::empty() };
            let url = linear_prefix() + workspace.push('/') + "issue"@.push('/') + identifier + tail;
            linear_url_spec(url) == Some((key, identifier))
        }),
{
    reveal_strlit("issue");
    let identifier = key.push('-') + number;
    let tail = if with_rest { seq!['/'] + rest } else { Seq::<char>::empty() };
    let url = linear_prefix() + workspace.push('/') + "issue"@.push('/') + identifier + tail;
    let path = workspace.push('/') + ("issue"@.push('/') + (identifier + tail));
    assert(url =~= linear_prefix() + path);
    assert(url.take(linear_prefix().len() as int) =~= linear_prefix());
    assert(url.skip(linear_prefix().len() as int) =~= path);
    assert(!identifier.contains('/')) by {
        if identifier.contains('/') {
            let k = choose|k: int| 0 <= k < identifier.len() && identifier[k] == '/';
            if k < key.len() {
                assert(key[k] == '/');
            } else if k > key.len() {
                assert(number[k - key.len() - 1] == '/');
            }
        }
    }
    assert(!"issue"@.contains('/')) by {
        assert("issue"@ =~= seq!['i', 's', 's', 'u', 'e']);
    }
    lemma_split_concat(workspace, "issue"@.push('/') + (identifier + tail), '/');
    lemma_split_concat("issue"@, identifier + tail, '/');
    lemma_split_free(workspace, '/');
    lemma_split_free("issue"@, '/');
    let rest_segments = split_spec(identifier + tail, '/');
    if with_rest {
        assert(identifier + tail =~= identifier.push('/') + rest);
        lemma_split_concat(identifier, rest, '/');
        lemma_split_free(identifier, '/');
        lemma_split_nonempty(rest, '/');
    } else {
        assert(identifier + tail =~= identifier);
        lemma_split_free(identifier, '/');
    }
    assert(rest_segments[0] == identifier);
    let segments = split_spec(path, '/');
    assert(segments =~= seq![workspace] + (seq!["issue"@] + rest_segments));
    assert(segments[1] == "issue"@);
    assert(segments[2] == identifier);
    lemma_last_index_after(key, number, '-');
    assert(identifier.take(key.len() as int) =~= key);
}


/// The text that an optional string holds.
pub open spec fn opt_text(o: Option<String>) -> Option<Seq<char>> {
    match o {
        Some(s) => Some(s@),
        None => None,
    }
}

/// The external project and identifier for a link: each given one is used; a
/// missing one is read from the URL when it is a Linear issue URL; when one can be
/// found neither way, the error message says which (the project is looked at first).
pub open spec fn link_target_spec(
    url: Seq<char>,
    project: Option<Seq<char>>,
    identifier: Option<Seq<char>>,
) -> Result<(Seq<char>, Seq<char>), Seq<char>> {
    let parsed = linear_url_spec(url);
    let p = match project {
        Some(p) => Some(p),
        None => match parsed {
            Some(x) => Some(x.0),
            None => None,
        },
    };
    let i = match identifier {
        Some(i) => Some(i),
        None => match parsed {
            Some(x) => Some(x.1),
            None => None,
        },
    };
    match p {
        None => Err("Could not infer --project from URL. Provide it explicitly."@),
        Some(p) => match i {
            None => Err("Could not infer --identifier from URL. Provide it explicitly."@),
            Some(i) => Ok((p, i)),
        },
    }
}

/// Settles the external project and identifier of a link from the options given
/// and, for those not given, from the URL.
pub fn resolve_link_target(
    url: &str,
    explicit_project: Option<String>,
    explicit_identifier: Option<String>,
) -> (r: Result<(String, String), SentryCliError>)
    ensures
        match link_target_spec(url@, opt_text(explicit_project), opt_text(explicit_identifier)) {
            Ok(p) => r matches Ok(x) && x.0@ == p.0 && x.1@ == p.1,
            Err(m) => r matches Err(SentryCliError::Validation(e)) && e@ == m,
        },
{
    match (explicit_project, explicit_identifier) {
        (Some(p), Some(id)) => Ok((p, id)),
        (explicit_p, explicit_id) => {
            let parsed = parse_linear_url(url);
            let project = match explicit_p {
                Some(p) => p,
                None => match &parsed {
                    Some((p, _)) => p.clone(),
                    None => {
                        return Err(SentryCliError::Validation(
                            owned("Could not infer --project from URL. Provide it explicitly."),
                        ));
                    },
                },
            };
            let identifier = match explicit_id {
                Some(id) => id,
                None => match &parsed {
                    Some((_, id)) => id.clone(),
                    None => {
                        return Err(SentryCliError::Validation(
                            owned("Could not infer --identifier from URL. Provide it explicitly."),
                        ));
                    },
                },
            };
            Ok((project, identifier))
        },
    }
}

/// The position of the first installation of the integration app `integration`,
/// or a not-found error naming it.
pub fn find_installation(installations: &Vec<SentryAppInstallation>, integration: &str) -> (r: Result<usize, SentryCliError>)
    ensures
        match r {
            Ok(i) => i < installations.len() && installations@[i as int].app.slug@ == integration@
                && forall|j: int| 0 <= j < i ==> (#[trigger] installations@[j]).app.slug@ != integration@,
            Err(e) => {
                &&& forall|j: int| 0 <= j < installations.len() ==> (#[trigger] installations@[j]).app.slug@ != integration@
                &&& e matches SentryCliError::NotFound(m)
                &&& m@ == "No installation found for integration '"@ + integration@ + "'"@
            },
        },
{
    let n = installations.len();
    let mut i: usize = 0;
    while i < n
        invariant
            n == installations.len(),
            i <= n,
            forall|j: int| 0 <= j < i ==> (#[trigger] installations@[j]).app.slug@ != integration@,
        decreases n - i,
    {
        if text_eq(installations[i].app.slug.as_str(), integration) {
            return Ok(i);
        }
        i = i + 1;
    }
    let mut m = owned("No installation found for integration '");
    m.append(integration);
    m.append("'");
    Err(SentryCliError::NotFound(m))
}

/// The request that links the issue `issue_id` to the external issue at `url`:
/// the issue id must be a number (as `str::parse::<u64>` reads it), else a
/// validation error names it.
pub fn link_request(issue_id: &str, url: &str, project: &str, identifier: &str) -> (r: Result<CreateExternalIssue, SentryCliError>)
    ensures
        match parse_u64_spec(issue_id@) {
            Some(n) => r matches Ok(body) && body.issue_id == n && body.web_url@ == url@
                && body.project@ == project@ && body.identifier@ == identifier@,
            None => r matches Err(SentryCliError::Validation(m))
                && m@ == "Issue ID '"@ + issue_id@ + "' must be numeric for external issue linking"@,
        },
{
    match parse_u64(issue_id) {
        Some(numeric_id) => Ok(CreateExternalIssue {
            issue_id: numeric_id,
            web_url: owned(url),
            project: owned(project),
            identifier: owned(identifier),
        }),
        None => {
            let mut m = owned("Issue ID '");
            m.append(issue_id);
            m.append("' must be numeric for external issue linking");
            Err(SentryCliError::Validation(m))
        },
    }
}

/// The message shown once an issue is linked.
pub fn link_message(issue_id: &str, identifier: &str, external_id: &str) -> (r: String)
    ensures
        r@ == "Linked issue "@ + issue_id@ + " to "@ + identifier@ + " ("@ + external_id@ + ")"@,
{
    let mut m = owned("Linked issue ");
    m.append(issue_id);
    m.append(" to ");
    m.append(identifier);
    m.append(" (");
    m.append(external_id);
    m.append(")");
    m
}

} // verus!
