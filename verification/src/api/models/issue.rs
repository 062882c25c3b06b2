//! Issues, their updates, comments, tags and external links.

use vstd::prelude::*;
use crate::api::models::common::{Actor, ProjectRef};
use crate::api::models::event::Event;
use crate::time::Timestamp;

verus! {

#[derive(Debug)]
pub struct Issue {
    pub id: String,
    pub short_id: String,
    pub title: String,
    pub status: IssueStatus,
    pub level: String,
    pub count: String,
    pub user_count: u64,
    pub first_seen: Timestamp,
    pub last_seen: Timestamp,
    pub permalink: String,
    pub project: ProjectRef,
    pub assigned_to: Option<Actor>,
    pub is_bookmarked: bool,
    pub is_subscribed: bool,
    pub has_seen: bool,
    pub metadata: IssueMetadata,
    pub culprit: Option<String>,
}

#[derive(Debug, Clone, Copy, PartialEq, Eq, Structural)]
pub enum IssueStatus {
    Resolved,
    Unresolved,
    Ignored,
    Reprocessing,
}

/// The name of a status, as the API writes it and the tool displays it.
pub open spec fn status_text(s: IssueStatus) -> Seq<char> {
    match s {
        IssueStatus::Resolved => "resolved"@,
        IssueStatus::Unresolved => "unresolved"@,
        IssueStatus::Ignored => "ignored"@,
        IssueStatus::Reprocessing => "reprocessing"@,
    }
}

impl IssueStatus {
    /// The name of the status: `resolved`, `unresolved`, `ignored` or `reprocessing`.
    pub fn to_string(&self) -> (r: String)
        ensures
            r@ == status_text(*self),
    {
        match self {
            IssueStatus::Resolved => String::from_str("resolved"),
            IssueStatus::Unresolved => String::from_str("unresolved"),
            IssueStatus::Ignored => String::from_str("ignored"),
            IssueStatus::Reprocessing => String::from_str("reprocessing"),
        }
    }
}

#[derive(Debug)]
pub struct IssueMetadata {
    pub value: Option<String>,
    pub filename: Option<String>,
    pub function: Option<String>,
}

#[derive(Debug)]
pub struct IssueUpdate {
    pub status: Option<IssueStatus>,
    pub assigned_to: Option<String>,
    pub has_seen: Option<bool>,
    pub is_bookmarked: Option<bool>,
    pub merge: Option<bool>,
    pub ignore_duration: Option<u64>,
    pub ignore_count: Option<u64>,
    pub ignore_window: Option<u64>,
    pub status_details: Option<StatusDetails>,
}

#[derive(Debug)]
pub struct StatusDetails {
    pub in_release: Option<String>,
    pub in_next_release: Option<bool>,
    pub ignore_duration: Option<u64>,
    pub ignore_count: Option<u64>,
    pub ignore_until_escalating: Option<bool>,
}

#[derive(Debug)]
pub struct NoteData {
    pub text: String,
}

#[derive(Debug)]
pub struct Note {
    pub id: String,
    pub data: NoteData,
    pub user: Option<Actor>,
    pub date_created: Timestamp,
}

impl Note {
    /// The text of the comment.
    pub fn text(&self) -> (r: &str)
        ensures
            r@ == self.data.text@,
    {
        self.data.text.as_str()
    }
}

#[derive(Debug)]
pub struct CreateNote {
    pub text: String,
}

#[derive(Debug)]
pub struct ListIssuesParams {
    pub project: Option<Vec<String>>,
    pub query: Option<String>,
    pub status: Option<IssueStatus>,
    pub sort: Option<String>,
    pub limit: Option<u32>,
    pub cursor: Option<String>,
    pub environment: Option<Vec<String>>,
    pub stats_period: Option<String>,
    pub start: Option<String>,
    pub end: Option<String>,
}

#[derive(Debug)]
pub struct SentryAppInstallation {
    pub uuid: String,
    pub status: String,
    pub app: SentryApp,
}

#[derive(Debug)]
pub struct SentryApp {
    pub slug: String,
    pub name: Option<String>,
    pub uuid: String,
}

#[derive(Debug)]
pub struct CreateExternalIssue {
    pub issue_id: u64,
    pub web_url: String,
    pub project: String,
    pub identifier: String,
}

#[derive(Debug)]
pub struct ExternalIssue {
    pub id: String,
    pub issue_id: String,
    pub service_type: String,
    pub display_name: String,
    pub web_url: String,
}

/// Combined issue + latest event for detailed JSON output.
#[derive(Debug)]
pub struct IssueDetail {
    pub issue: Issue,
    pub latest_event: Option<Event>,
}

#[derive(Debug)]
pub struct TagDetails {
    pub key: String,
    pub total_values: u64,
    pub top_values: Vec<TagValue>,
}

#[derive(Debug)]
pub struct TagValue {
    pub value: String,
    pub count: u64,
    pub first_seen: Option<String>,
    pub last_seen: Option<String>,
}

} // verus!
