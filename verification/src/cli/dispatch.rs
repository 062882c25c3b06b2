//! What each command line asks the tool to do, as one action with its values.

use vstd::prelude::*;
use crate::cli::args::{
    sort_name, Commands, CompletionShell, ConfigCommands, EventsCommands, IssuesCommands, ReleasesCommands,
};
use crate::cli::commands::events::ListOptions as EventListOptions;
use crate::cli::commands::issues::ListOptions as IssueListOptions;
use crate::cli::commands::releases::ListOptions as ReleaseListOptions;

verus! {

/// One thing the tool does for a command line.
#[allow(inconsistent_fields)]
pub enum Action {
    ListIssues(IssueListOptions),
    ViewIssue { issue_id: String },
    ResolveIssues { issue_ids: Vec<String>, in_release: Option<String>, in_next_release: bool },
    UnresolveIssues { issue_ids: Vec<String> },
    AssignIssues { issue_ids: Vec<String>, to: Option<String>, unassign: bool },
    IgnoreIssues { issue_ids: Vec<String>, duration: Option<u64>, count: Option<u64>, until_escalating: bool },
    DeleteIssues { issue_ids: Vec<String>, confirm: bool },
    MergeIssues { primary_id: String, other_ids: Vec<String> },
    ListComments { issue_id: String },
    AddComment { issue_id: String, text: String },
    IssueTag { issue_id: String, tag_key: String },
    ListExternalIssues { issue_id: String },
    LinkIssues {
        issue_ids: Vec<String>,
        url: String,
        project: Option<String>,
        identifier: Option<String>,
        integration: String,
    },
    ListReleases(ReleaseListOptions),
    ViewRelease { version: String },
    ListEvents(EventListOptions),
    ViewEvent { event_id: String, project: String },
    ListAttachments { event_id: String, project: String },
    DownloadAttachment { event_id: String, project: String, output: String, id: Option<String> },
    InitConfig,
    ShowConfig,
    SetConfig { key: String, value: String },
    Completions { shell: CompletionShell },
}

/// Whether the action talks to the Sentry API (every action but the
/// configuration commands and completions).
pub open spec fn uses_api_spec(a: Action) -> bool {
    !(a is InitConfig || a is ShowConfig || a is SetConfig || a is Completions)
}

/// `a` is what the `issues` subcommand `c` asks for. The list options carry the
/// sort order by its name; `comment` lists the comments when asked to or when
/// given no text, and adds the text otherwise.
pub open spec fn issues_action(c: IssuesCommands, a: Action) -> bool {
    match c {
        IssuesCommands::List { project, status, query, sort, limit, all, environment, period, start, end } => {
            &&& a matches Action::ListIssues(o)
            &&& o.project == project && o.status == status && o.query == query
            &&& o.sort@ == sort_name(sort)
            &&& o.limit == limit && o.all == all
            &&& o.environment == environment && o.period == period && o.start == start && o.end == end
        },
        IssuesCommands::View { issue_id } => a == Action::ViewIssue { issue_id },
        IssuesCommands::Resolve { issue_ids, in_release, in_next_release } =>
            a == Action::ResolveIssues { issue_ids, in_release, in_next_release },
        IssuesCommands::Unresolve { issue_ids } => a == Action::UnresolveIssues { issue_ids },
        IssuesCommands::Assign { issue_ids, to, unassign } => a == Action::AssignIssues { issue_ids, to, unassign },
        IssuesCommands::Ignore { issue_ids, duration, count, until_escalating } =>
            a == Action::IgnoreIssues { issue_ids, duration, count, until_escalating },
        IssuesCommands::Delete { issue_ids, confirm } => a == Action::DeleteIssues { issue_ids, confirm },
        IssuesCommands::Merge { primary_id, other_ids } => a == Action::MergeIssues { primary_id, other_ids },
        IssuesCommands::Comment { issue_id, text, list } => match text {
            Some(t) => if list {
                a == Action::ListComments { issue_id }
            } else {
                a == Action::AddComment { issue_id, text: t }
            },
            None => a == Action::ListComments { issue_id },
        },
        IssuesCommands::Tags { issue_id, tag_key } => a == Action::IssueTag { issue_id, tag_key },
        IssuesCommands::Links { issue_id } => a == Action::ListExternalIssues { issue_id },
        IssuesCommands::Link { issue_ids, url, project, identifier, integration } =>
            a == Action::LinkIssues { issue_ids, url, project, identifier, integration },
    }
}

/// `a` is what the command `c` asks for. `events attachments` downloads when
/// asked to and lists the attachments otherwise.
pub open spec fn command_action(c: Commands, a: Action) -> bool {
    match c {
        Commands::Issues { command } => issues_action(command, a),
        Commands::Releases { command } => match command {
            ReleasesCommands::List { query, limit, all } =>
                a matches Action::ListReleases(o) && o.query == query && o.limit == limit && o.all == all,
            ReleasesCommands::View { version } => a == Action::ViewRelease { version },
        },
        Commands::Events { command } => match command {
            EventsCommands::List { issue_id, limit, all } =>
                a matches Action::ListEvents(o) && o.issue_id == issue_id && o.limit == limit && o.all == all,
            EventsCommands::View { event_id, project } => a == Action::ViewEvent { event_id, project },
            EventsCommands::Attachments { event_id, project, download, output, id } => if download {
                a == Action::DownloadAttachment { event_id, project, output, id }
            } else {
                a == Action::ListAttachments { event_id, project }
            },
        },
        Commands::Config { command } => match command {
            ConfigCommands::Init => a == Action::InitConfig,
            ConfigCommands::Show => a == Action::ShowConfig,
            ConfigCommands::SetValue { key, value } => a == Action::SetConfig { key, value },
        },
        Commands::Completions { shell } => a == Action::Completions { shell },
    }
}

impl Action {
    /// Whether the action talks to the Sentry API, and so needs a client.
    pub fn uses_api(&self) -> (r: bool)
        ensures
            r == uses_api_spec(*self),
    {
        match self {
            Action::InitConfig | Action::ShowConfig | Action::SetConfig { .. } | Action::Completions { .. } => false,
            _ => true,
        }
    }
}

fn issues_action_for(command: IssuesCommands) -> (r: Action)
    ensures
        issues_action(command, r),
{
    match command {
        IssuesCommands::List { project, status, query, sort, limit, all, environment, period, start, end } => {
            Action::ListIssues(IssueListOptions {
                project,
                status,
                query,
                sort: sort.to_string(),
                limit,
                all,
                environment,
                period,
                start,
                end,
            })
        },
        IssuesCommands::View { issue_id } => Action::ViewIssue { issue_id },
        IssuesCommands::Resolve { issue_ids, in_release, in_next_release } =>
            Action::ResolveIssues { issue_ids, in_release, in_next_release },
        IssuesCommands::Unresolve { issue_ids } => Action::UnresolveIssues { issue_ids },
        IssuesCommands::Assign { issue_ids, to, unassign } => Action::AssignIssues { issue_ids, to, unassign },
        IssuesCommands::Ignore { issue_ids, duration, count, until_escalating } =>
            Action::IgnoreIssues { issue_ids, duration, count, until_escalating },
        IssuesCommands::Delete { issue_ids, confirm } => Action::DeleteIssues { issue_ids, confirm },
        IssuesCommands::Merge { primary_id, other_ids } => Action::MergeIssues { primary_id, other_ids },
        IssuesCommands::Comment { issue_id, text, list } => {
            if list {
                Action::ListComments { issue_id }
            } else {
                match text {
                    Some(t) => Action::AddComment { issue_id, text: t },
                    None => Action::ListComments { issue_id },
                }
            }
        },
        IssuesCommands::Tags { issue_id, tag_key } => Action::IssueTag { issue_id, tag_key },
        IssuesCommands::Links { issue_id } => Action::ListExternalIssues { issue_id },
        IssuesCommands::Link { issue_ids, url, project, identifier, integration } =>
            Action::LinkIssues { issue_ids, url, project, identifier, integration },
    }
}

/// The action that a parsed command line asks for.
pub fn action_for(command: Commands) -> (r: Action)
    ensures
        command_action(command, r),
{
    match command {
        Commands::Issues { command } => issues_action_for(command),
        Commands::Releases { command } => match command {
            ReleasesCommands::List { query, limit, all } =>
                Action::ListReleases(ReleaseListOptions { query, limit, all }),
            ReleasesCommands::View { version } => Action::ViewRelease { version },
        },
        Commands::Events { command } => match command {
            EventsCommands::List { issue_id, limit, all } =>
                Action::ListEvents(EventListOptions { issue_id, limit, all }),
            EventsCommands::View { event_id, project } => Action::ViewEvent { event_id, project },
            EventsCommands::Attachments { event_id, project, download, output, id } => {
                if download {
                    Action::DownloadAttachment { event_id, project, output, id }
                } else {
                    Action::ListAttachments { event_id, project }
                }
            },
        },
        Commands::Config { command } => match command {
            ConfigCommands::Init => Action::InitConfig,
            ConfigCommands::Show => Action::ShowConfig,
            ConfigCommands::SetValue { key, value } => Action::SetConfig { key, value },
        },
        Commands::Completions { shell } => Action::Completions { shell },
    }
}

} // verus!
