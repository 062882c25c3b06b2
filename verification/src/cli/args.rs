//! The commands and options of the command-line tool, as plain values.

use vstd::prelude::*;

verus! {

/// How results are printed.
#[derive(Debug, Clone, Copy, PartialEq, Eq, Structural)]
pub enum OutputFormat {
    Table,
    Json,
    Compact,
}

impl Default for OutputFormat {
    /// Tables, unless another format is asked for.
    fn default() -> (r: OutputFormat)
        ensures
            r == OutputFormat::Table,
    {
        OutputFormat::Table
    }
}

/// The order in which issues are listed.
#[derive(Debug, Clone, Copy, PartialEq, Eq, Structural)]
pub enum SortBy {
    Date,
    New,
    Freq,
    User,
    Inbox,
    Trends,
}

impl Default for SortBy {
    /// By date, unless another order is asked for.
    fn default() -> (r: SortBy)
        ensures
            r == SortBy::Date,
    {
        SortBy::Date
    }
}

/// The name of a sort order, as the API takes it.
pub open spec fn sort_name(s: SortBy) -> Seq<char> {
    match s {
        SortBy::Date => "date"@,
        SortBy::New => "new"@,
        SortBy::Freq => "freq"@,
        SortBy::User => "user"@,
        SortBy::Inbox => "inbox"@,
        SortBy::Trends => "trends"@,
    }
}

impl SortBy {
    /// The name of the sort order: `date`, `new`, `freq`, `user`, `inbox` or `trends`.
    pub fn to_string(&self) -> (r: String)
        ensures
            r@ == sort_name(*self),
    {
        match self {
            SortBy::Date => String::from_str("date"),
            SortBy::New => String::from_str("new"),
            SortBy::Freq => String::from_str("freq"),
            SortBy::User => String::from_str("user"),
            SortBy::Inbox => String::from_str("inbox"),
            SortBy::Trends => String::from_str("trends"),
        }
    }
}

/// Different sort orders have different names.
pub proof fn lemma_sort_names_distinct(a: SortBy, b: SortBy)
    requires
        a != b,
    ensures
        sort_name(a) != sort_name(b),
{
    reveal_strlit("date");
    reveal_strlit("new");
    reveal_strlit("freq");
    reveal_strlit("user");
    reveal_strlit("inbox");
    reveal_strlit("trends");
    if sort_name(a).len() == sort_name(b).len() {
        assert(sort_name(a)[0] != sort_name(b)[0]);
    }
}

/// The shells that completions can be generated for.
#[derive(Debug, Clone, Copy, PartialEq, Eq, Structural)]
pub enum CompletionShell {
    Bash,
    Elvish,
    Fish,
    PowerShell,
    Zsh,
}

/// The top-level commands.
#[allow(inconsistent_fields)]
pub enum Commands {
    Issues { command: IssuesCommands },
    Releases { command: ReleasesCommands },
    Events { command: EventsCommands },
    Config { command: ConfigCommands },
    Completions { shell: CompletionShell },
}

/// The `issues` subcommands.
pub enum IssuesCommands {
    List {
        project: Option<String>,
        status: Option<String>,
        query: Option<String>,
        sort: SortBy,
        limit: u32,
        all: bool,
        environment: Option<String>,
        period: Option<String>,
        start: Option<String>,
        end: Option<String>,
    },
    View { issue_id: String },
    Resolve { issue_ids: Vec<String>, in_release: Option<String>, in_next_release: bool },
    Unresolve { issue_ids: Vec<String> },
    Assign { issue_ids: Vec<String>, to: Option<String>, unassign: bool },
    Ignore { issue_ids: Vec<String>, duration: Option<u64>, count: Option<u64>, until_escalating: bool },
    Delete { issue_ids: Vec<String>, confirm: bool },
    Merge { primary_id: String, other_ids: Vec<String> },
    Comment { issue_id: String, text: Option<String>, list: bool },
    Tags { issue_id: String, tag_key: String },
    Links { issue_id: String },
    Link {
        issue_ids: Vec<String>,
        url: String,
        project: Option<String>,
        identifier: Option<String>,
        integration: String,
    },
}

/// The `config` subcommands.
pub enum ConfigCommands {
    Init,
    Show,
    /// `config set KEY VALUE`.
    SetValue { key: String, value: String },
}

/// The `releases` subcommands.
pub enum ReleasesCommands {
    List { query: Option<String>, limit: u32, all: bool },
    View { version: String },
}

/// The `events` subcommands.
pub enum EventsCommands {
    List { issue_id: String, limit: u32, all: bool },
    View { event_id: String, project: String },
    Attachments { event_id: String, project: String, download: bool, output: String, id: Option<String> },
}

} // verus!
