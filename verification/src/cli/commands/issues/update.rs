//! The changes that the bulk issue commands (resolve, unresolve, assign,
//! ignore, merge) ask the API to make.

use vstd::prelude::*;
use crate::api::models::issue::{IssueStatus, IssueUpdate, StatusDetails};
use crate::error::SentryCliError;
use crate::text::owned;

verus! {

/// An update that changes nothing.
fn no_change() -> (u: IssueUpdate)
    ensures
        u.status is None && u.assigned_to is None && u.has_seen is None && u.is_bookmarked is None,
        u.merge is None && u.ignore_duration is None && u.ignore_count is None && u.ignore_window is None,
        u.status_details is None,
{
    IssueUpdate {
        status: None,
        assigned_to: None,
        has_seen: None,
        is_bookmarked: None,
        merge: None,
        ignore_duration: None,
        ignore_count: None,
        ignore_window: None,
        status_details: None,
    }
}

/// `Some(true)` for a flag that is set, nothing otherwise.
pub open spec fn flag(b: bool) -> Option<bool> {
    if b { Some(true) } else { None }
}

fn flag_of(b: bool) -> (r: Option<bool>)
    ensures
        r == flag(b),
{
    if b { Some(true) } else { None }
}

/// Marks issues resolved; in a release, or in the next one, when asked.
pub fn resolve_update(in_release: Option<String>, in_next_release: bool) -> (u: IssueUpdate)
    ensures
        u.status == Some(IssueStatus::Resolved),
        u.assigned_to is None && u.has_seen is None && u.is_bookmarked is None && u.merge is None,
        u.ignore_duration is None && u.ignore_count is None && u.ignore_window is None,
        (in_release is None && !in_next_release) <==> u.status_details is None,
        u.status_details matches Some(d) ==> {
            &&& d.in_release == in_release
            &&& d.in_next_release == flag(in_next_release)
            &&& d.ignore_duration is None && d.ignore_count is None && d.ignore_until_escalating is None
        },
{
    let mut u = no_change();
    u.status = Some(IssueStatus::Resolved);
    if in_release.is_some() || in_next_release {
        u.status_details = Some(StatusDetails {
            in_release,
            in_next_release: flag_of(in_next_release),
            ignore_duration: None,
            ignore_count: None,
            ignore_until_escalating: None,
        });
    }
    u
}

/// Marks issues unresolved.
pub fn unresolve_update() -> (u: IssueUpdate)
    ensures
        u.status == Some(IssueStatus::Unresolved),
        u.assigned_to is None && u.has_seen is None && u.is_bookmarked is None && u.merge is None,
        u.ignore_duration is None && u.ignore_count is None && u.ignore_window is None,
        u.status_details is None,
{
    let mut u = no_change();
    u.status = Some(IssueStatus::Unresolved);
    u
}

/// Assigns issues to `to`, or removes their assignee (an empty assignee) with
/// `unassign`, which wins; with neither, a validation error.
pub fn assign_update(to: Option<String>, unassign: bool) -> (r: Result<IssueUpdate, SentryCliError>)
    ensures
        unassign ==> (r matches Ok(u) && u.assigned_to matches Some(a) && a@.len() == 0),
        !unassign ==> match to {
            Some(t) => r matches Ok(u) && u.assigned_to == Some(t),
            None => r matches Err(SentryCliError::Validation(m)) && m@ == "Specify --to or --unassign"@,
        },
        r matches Ok(u) ==> {
            &&& u.status is None && u.has_seen is None && u.is_bookmarked is None && u.merge is None
            &&& u.ignore_duration is None && u.ignore_count is None && u.ignore_window is None
            &&& u.status_details is None
        },
{
    if unassign {
        let mut u = no_change();
        u.assigned_to = Some(String::new());
        return Ok(u);
    }
    match to {
        Some(t) => {
            let mut u = no_change();
            u.assigned_to = Some(t);
            Ok(u)
        },
        None => Err(SentryCliError::Validation(owned("Specify --to or --unassign"))),
    }
}

/// Marks issues ignored; for a number of minutes, until a number of further
/// events, or until they escalate, when asked.
pub fn ignore_update(duration: Option<u64>, count: Option<u64>, until_escalating: bool) -> (u: IssueUpdate)
    ensures
        u.status == Some(IssueStatus::Ignored),
        u.assigned_to is None && u.has_seen is None && u.is_bookmarked is None && u.merge is None,
        u.ignore_duration is None && u.ignore_count is None && u.ignore_window is None,
        (duration is None && count is None && !until_escalating) <==> u.status_details is None,
        u.status_details matches Some(d) ==> {
            &&& d.ignore_duration == duration
            &&& d.ignore_count == count
            &&& d.ignore_until_escalating == flag(until_escalating)
            &&& d.in_release is None && d.in_next_release is None
        },
{
    let mut u = no_change();
    u.status = Some(IssueStatus::Ignored);
    if duration.is_some() || count.is_some() || until_escalating {
        u.status_details = Some(StatusDetails {
            in_release: None,
            in_next_release: None,
            ignore_duration: duration,
            ignore_count: count,
            ignore_until_escalating: flag_of(until_escalating),
        });
    }
    u
}

/// Merges issues: the update, and the issues it applies to, the primary first.
pub fn merge_update(primary_id: String, other_ids: Vec<String>) -> (r: (IssueUpdate, Vec<String>))
    ensures
        r.0.merge == Some(true),
        r.0.status is None && r.0.assigned_to is None && r.0.has_seen is None && r.0.is_bookmarked is None,
        r.0.ignore_duration is None && r.0.ignore_count is None && r.0.ignore_window is None,
        r.0.status_details is None,
        r.1@ == seq![primary_id] + other_ids@,
{
    let mut u = no_change();
    u.merge = Some(true);
    let mut ids: Vec<String> = Vec::new();
    ids.push(primary_id);
    let mut rest = other_ids;
    ids.append(&mut rest);
    (u, ids)
}

} // verus!
