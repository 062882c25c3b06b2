//! The text of tables and details that commands print.

use vstd::prelude::*;
use crate::api::models::event::EventListItem;
use crate::api::models::issue::{status_text, Issue, IssueStatus, Note};
use crate::api::models::release::Release;
use crate::style::{painted, paint, Tone};
use crate::text::{decimal, owned, push_decimal, slice_chars, u64_to_string};
use crate::time::{
    elapsed_seconds, format_ymd, parse_rfc3339, spec_chrono_valid, spec_elapsed_seconds, spec_format_ymd,
    spec_parse_rfc3339, Timestamp,
};

verus! {

/// The text cut to at most `max_len` characters: a longer text keeps its first
/// `max_len - 3` characters followed by `...`.
pub open spec fn truncate_spec(s: Seq<char>, max_len: nat) -> Seq<char> {
    if s.len() <= max_len {
        s
    } else {
        s.take(max_len - 3) + "..."@
    }
}

/// Cuts a text to at most `max_len` characters, marking a cut with `...`.
pub fn truncate_string(s: &str, max_len: usize) -> (r: String)
    requires
        s@.len() <= max_len || max_len >= 3,
    ensures
        r@ == truncate_spec(s@, max_len as nat),
{
    if s.unicode_len() <= max_len {
        owned(s)
    } else {
        let mut t = slice_chars(s, 0, max_len - 3);
        assert(s@.subrange(0, max_len - 3) =~= s@.take(max_len - 3));
        t.append("...");
        t
    }
}

/// A truncated text is never longer than the limit.
pub proof fn lemma_truncate_len(s: Seq<char>, max_len: nat)
    requires
        max_len >= 3,
    ensures
        truncate_spec(s, max_len).len() <= max_len,
{
    reveal_strlit("...");
}

/// Truncating twice to the same limit is truncating once.
pub proof fn lemma_truncate_idempotent(s: Seq<char>, max_len: nat)
    requires
        max_len >= 3,
    ensures
        truncate_spec(truncate_spec(s, max_len), max_len) == truncate_spec(s, max_len),
{
    lemma_truncate_len(s, max_len);
}

/// The tone in which a status is shown.
pub open spec fn status_tone(s: IssueStatus) -> Tone {
    match s {
        IssueStatus::Resolved => Tone::Green,
        IssueStatus::Unresolved => Tone::Red,
        IssueStatus::Ignored => Tone::Yellow,
        IssueStatus::Reprocessing => Tone::Cyan,
    }
}

/// The capitalised name of a status, as the details show it.
pub open spec fn status_title(s: IssueStatus) -> Seq<char> {
    match s {
        IssueStatus::Resolved => "Resolved"@,
        IssueStatus::Unresolved => "Unresolved"@,
        IssueStatus::Ignored => "Ignored"@,
        IssueStatus::Reprocessing => "Reprocessing"@,
    }
}

/// The capitalised status name in its colour.
pub fn format_status(status: &IssueStatus) -> (r: String)
    ensures
        painted(r@, status_tone(*status), status_title(*status)),
{
    match status {
        IssueStatus::Resolved => paint("Resolved", Tone::Green),
        IssueStatus::Unresolved => paint("Unresolved", Tone::Red),
        IssueStatus::Ignored => paint("Ignored", Tone::Yellow),
        IssueStatus::Reprocessing => paint("Reprocessing", Tone::Cyan),
    }
}

/// The status name in its colour.
pub fn format_status_colored(status: &IssueStatus) -> (r: String)
    ensures
        painted(r@, status_tone(*status), status_text(*status)),
{
    let name = status.to_string();
    paint(name.as_str(), status_tone_of(status))
}

fn status_tone_of(status: &IssueStatus) -> (t: Tone)
    ensures
        t == status_tone(*status),
{
    match status {
        IssueStatus::Resolved => Tone::Green,
        IssueStatus::Unresolved => Tone::Red,
        IssueStatus::Ignored => Tone::Yellow,
        IssueStatus::Reprocessing => Tone::Cyan,
    }
}

/// How long ago something happened, from the whole seconds elapsed since and its
/// date: under a minute is `just now`; then whole minutes, hours or days (under an
/// hour, a day, a week); a week or more shows the date.
pub open spec fn relative_text(elapsed: int, date: Seq<char>) -> Seq<char> {
    if elapsed < 60 {
        "just now"@
    } else if elapsed / 60 < 60 {
        decimal((elapsed / 60) as nat) + " min ago"@
    } else if elapsed / 3600 < 24 {
        decimal((elapsed / 3600) as nat) + " hr ago"@
    } else if elapsed / 86400 < 7 {
        decimal((elapsed / 86400) as nat) + " days ago"@
    } else {
        date
    }
}

/// How long before `now` the time `t` was, as the tables show it.
pub open spec fn relative_from(t: (i64, u32), now: (i64, u32)) -> Seq<char> {
    relative_text(spec_elapsed_seconds(now.0, now.1, t.0, t.1) as int, spec_format_ymd(t.0, t.1))
}

/// How long before `now` the time `dt` was.
pub fn format_relative_time_at(dt: &Timestamp, now: &Timestamp) -> (r: String)
    ensures
        r@ == relative_from(dt@, now@),
{
    let secs = elapsed_seconds(now, dt);
    if secs < 60 {
        owned("just now")
    } else if secs / 60 < 60 {
        let mut r = String::new();
        push_decimal(&mut r, (secs / 60) as u64);
        r.append(" min ago");
        r
    } else if secs / 3600 < 24 {
        let mut r = String::new();
        push_decimal(&mut r, (secs / 3600) as u64);
        r.append(" hr ago");
        r
    } else if secs / 86400 < 7 {
        let mut r = String::new();
        push_decimal(&mut r, (secs / 86400) as u64);
        r.append(" days ago");
        r
    } else {
        format_ymd(dt)
    }
}

/// `cell` tells how long ago the time `t` was, measured against some reading of
/// the clock; or, when the clock gives no time that chrono represents (a clock
/// set before 1970), it shows the date of `t`.
pub open spec fn clock_relative(cell: Seq<char>, t: (i64, u32)) -> bool {
    ||| exists|now: (i64, u32)| spec_chrono_valid(now.0, now.1) && cell == #[trigger] relative_from(t, now)
    ||| cell == spec_format_ymd(t.0, t.1)
}

/// How long ago the time `dt` was, measured against the clock.
pub fn format_relative_time(dt: &Timestamp) -> (r: String)
    ensures
        clock_relative(r@, dt@),
{
    match Timestamp::now() {
        Some(now) => format_relative_time_at(dt, &now),
        None => format_ymd(dt),
    }
}

/// tabled's rendering, in the rounded style, of a table whose first record is the
/// header row.
pub uninterp spec fn spec_rounded_table(records: Seq<Seq<Seq<char>>>) -> Seq<char>;

/// tabled's `Builder::from(records).build().with(Style::rounded()).to_string()`.
/// Trusted: the text is the named `spec_rounded_table` of the records.
#[verifier::external_body]
fn tabled_rounded(records: &Vec<Vec<String>>) -> (r: String)
    ensures
        r@ == spec_rounded_table(records.deep_view()),
{
    let mut table = tabled::builder::Builder::from(records.clone()).build();
    table.with(tabled::settings::Style::rounded());
    table.to_string()
}

/// A row of plain texts.
fn row_of(cells: Vec<String>) -> (r: Vec<String>)
    ensures
        r.deep_view() == cells.deep_view(),
{
    cells
}

/// The header row of the issues table.
pub open spec fn issue_header() -> Seq<Seq<char>> {
    seq!["ID"@, "Short ID"@, "Title"@, "Status"@, "Events"@, "Last Seen"@]
}

/// A row of the issues table shows the issue: its ids, its title cut to 50
/// characters, its status in colour, its event count, and how long ago it was last
/// seen (as `clock_relative` says).
pub open spec fn issue_row_shown(row: Seq<Seq<char>>, issue: Issue) -> bool {
    &&& row.len() == 6
    &&& row[0] == issue.id@
    &&& row[1] == issue.short_id@
    &&& row[2] == truncate_spec(issue.title@, 50)
    &&& painted(row[3], status_tone(issue.status), status_text(issue.status))
    &&& row[4] == issue.count@
    &&& clock_relative(row[5], issue.last_seen@)
}

/// The row of the issues table for one issue.
pub fn issue_row(issue: &Issue) -> (r: Vec<String>)
    ensures
        issue_row_shown(r.deep_view(), *issue),
{
    let cells = vec![
        issue.id.clone(),
        issue.short_id.clone(),
        truncate_string(issue.title.as_str(), 50),
        format_status_colored(&issue.status),
        issue.count.clone(),
        format_relative_time(&issue.last_seen),
    ];
    let r = row_of(cells);
    assert(r.deep_view()[5] == cells[5]@);
    r
}

/// The lines that list issues: a note when there are none; otherwise the rounded
/// table of their rows under the header, and the count.
pub fn issues_table_text(issues: &[Issue]) -> (r: Vec<String>)
    ensures
        issues@.len() == 0 ==> r.deep_view() == seq!["No issues found."@],
        issues@.len() > 0 ==> {
            &&& r.deep_view().len() == 2
            &&& r.deep_view()[1] == "Showing "@ + decimal(issues@.len()) + " issue(s)"@
            &&& exists|rows: Seq<Seq<Seq<char>>>| {
                &&& rows.len() == issues@.len()
                &&& (forall|i: int| 0 <= i < rows.len() ==> issue_row_shown(#[trigger] rows[i], issues@[i]))
                &&& r.deep_view()[0] == spec_rounded_table(seq![issue_header()] + rows)
            }
        },
{
    let n = issues.len();
    if n == 0 {
        let r = vec![owned("No issues found.")];
        assert(r.deep_view() =~= seq!["No issues found."@]);
        return r;
    }
    let header = vec![owned("ID"), owned("Short ID"), owned("Title"), owned("Status"), owned("Events"), owned("Last Seen")];
    let mut records: Vec<Vec<String>> = Vec::new();
    records.push(header);
    assert(records.deep_view()[0] =~= issue_header());
    let mut i: usize = 0;
    while i < n
        invariant
            n == issues@.len(),
            i <= n,
            records.deep_view().len() == i + 1,
            records.deep_view()[0] == issue_header(),
            forall|j: int| 0 <= j < i ==> issue_row_shown(#[trigger] records.deep_view()[j + 1], issues@[j]),
        decreases n - i,
    {
        let row = issue_row(&issues[i]);
        let ghost prev = records.deep_view();
        records.push(row);
        assert(records.deep_view() =~= prev.push(row.deep_view()));
        i = i + 1;
    }
    let r = finish_table(&records, n, " issue(s)");
    proof {
        let rows = records.deep_view().skip(1);
        assert(seq![issue_header()] + rows =~= records.deep_view());
        assert forall|i: int| 0 <= i < rows.len() implies issue_row_shown(#[trigger] rows[i], issues@[i]) by {
            assert(rows[i] == records.deep_view()[i + 1]);
        }
    }
    r
}


/// The two lines under which a non-empty table is printed: the table and the count.
fn finish_table(records: &Vec<Vec<String>>, n: usize, noun: &str) -> (r: Vec<String>)
    ensures
        r.deep_view() == seq![spec_rounded_table(records.deep_view()), "Showing "@ + decimal(n as nat) + noun@],
{
    let table = tabled_rounded(records);
    let mut count = owned("Showing ");
    push_decimal(&mut count, n as u64);
    count.append(noun);
    let r = vec![table, count];
    assert(r.deep_view() =~= seq![spec_rounded_table(records.deep_view()), "Showing "@ + decimal(n as nat) + noun@]);
    r
}

/// The cell for a time given as RFC 3339 text: how long ago it was (against the
/// clock, as `clock_relative` says) when chrono reads the text, `-` otherwise.
pub open spec fn time_cell_shown(cell: Seq<char>, text: Seq<char>) -> bool {
    match spec_parse_rfc3339(text) {
        Some(t) => clock_relative(cell, t),
        None => cell == "-"@,
    }
}

/// How long ago the time written in RFC 3339 `text` was, or `-` when it cannot be read.
fn time_cell(text: &str) -> (r: String)
    ensures
        time_cell_shown(r@, text@),
{
    match parse_rfc3339(text) {
        Some(t) => format_relative_time(&t),
        None => owned("-"),
    }
}

/// The header row of the releases table.
pub open spec fn release_header() -> Seq<Seq<char>> {
    seq!["Version"@, "Created"@, "Projects"@, "New Issues"@]
}

/// The projects cell of a release: `-` for none, the slug of a single one, else
/// how many.
pub open spec fn projects_cell(release: Release) -> Seq<char> {
    if release.projects@.len() == 0 {
        "-"@
    } else if release.projects@.len() == 1 {
        release.projects@[0].slug@
    } else {
        decimal(release.projects@.len()) + " projects"@
    }
}

/// A row of the releases table shows the release: its version, how long ago it was
/// created, its projects and its count of new issues.
pub open spec fn release_row_shown(row: Seq<Seq<char>>, release: Release) -> bool {
    &&& row.len() == 4
    &&& row[0] == release.version@
    &&& time_cell_shown(row[1], release.date_created@)
    &&& row[2] == projects_cell(release)
    &&& row[3] == decimal(release.new_groups as nat)
}

/// The row of the releases table for one release.
pub fn release_row(release: &Release) -> (r: Vec<String>)
    ensures
        release_row_shown(r.deep_view(), *release),
{
    let n = release.projects.len();
    let projects_str = if n == 0 {
        owned("-")
    } else if n == 1 {
        release.projects[0].slug.clone()
    } else {
        let mut p = u64_to_string(n as u64);
        p.append(" projects");
        p
    };
    let cells = vec![
        release.version.clone(),
        time_cell(release.date_created.as_str()),
        projects_str,
        u64_to_string(release.new_groups as u64),
    ];
    let r = row_of(cells);
    assert(r.deep_view()[1] == cells[1]@);
    r
}

/// The lines that list releases: a note when there are none; otherwise the rounded
/// table of their rows under the header, and the count.
pub fn releases_table_text(releases: &[Release]) -> (r: Vec<String>)
    ensures
        releases@.len() == 0 ==> r.deep_view() == seq!["No releases found."@],
        releases@.len() > 0 ==> {
            &&& r.deep_view().len() == 2
            &&& r.deep_view()[1] == "Showing "@ + decimal(releases@.len()) + " release(s)"@
            &&& exists|rows: Seq<Seq<Seq<char>>>| {
                &&& rows.len() == releases@.len()
                &&& (forall|i: int| 0 <= i < rows.len() ==> release_row_shown(#[trigger] rows[i], releases@[i]))
                &&& r.deep_view()[0] == spec_rounded_table(seq![release_header()] + rows)
            }
        },
{
    let n = releases.len();
    if n == 0 {
        let r = vec![owned("No releases found.")];
        assert(r.deep_view() =~= seq!["No releases found."@]);
        return r;
    }
    let header = vec![owned("Version"), owned("Created"), owned("Projects"), owned("New Issues")];
    let mut records: Vec<Vec<String>> = Vec::new();
    records.push(header);
    assert(records.deep_view()[0] =~= release_header());
    let mut i: usize = 0;
    while i < n
        invariant
            n == releases@.len(),
            i <= n,
            records.deep_view().len() == i + 1,
            records.deep_view()[0] == release_header(),
            forall|j: int| 0 <= j < i ==> release_row_shown(#[trigger] records.deep_view()[j + 1], releases@[j]),
        decreases n - i,
    {
        let row = release_row(&releases[i]);
        let ghost prev = records.deep_view();
        records.push(row);
        assert(records.deep_view() =~= prev.push(row.deep_view()));
        i = i + 1;
    }
    let r = finish_table(&records, n, " release(s)");
    proof {
        let rows = records.deep_view().skip(1);
        assert(seq![release_header()] + rows =~= records.deep_view());
        assert forall|i: int| 0 <= i < rows.len() implies release_row_shown(#[trigger] rows[i], releases@[i]) by {
            assert(rows[i] == records.deep_view()[i + 1]);
        }
    }
    r
}

/// The header row of the events table.
pub open spec fn event_header() -> Seq<Seq<char>> {
    seq!["Event ID"@, "Title"@, "Platform"@, "Created"@]
}

/// The title an event is listed under: its title, else its message, else `<no title>`.
pub open spec fn event_title(event: EventListItem) -> Seq<char> {
    match event.title {
        Some(t) => t@,
        None => match event.message {
            Some(m) => m@,
            None => "<no title>"@,
        },
    }
}

/// A row of the events table shows the event: its event id (else its id), its
/// title cut to 50 characters, its platform (else `-`) and how long ago it was
/// created.
pub open spec fn event_row_shown(row: Seq<Seq<char>>, event: EventListItem) -> bool {
    &&& row.len() == 4
    &&& row[0] == match event.event_id {
        Some(e) => e@,
        None => event.id@,
    }
    &&& row[1] == truncate_spec(event_title(event), 50)
    &&& row[2] == match event.platform {
        Some(p) => p@,
        None => "-"@,
    }
    &&& time_cell_shown(row[3], event.date_created@)
}

/// The row of the events table for one event.
pub fn event_row(event: &EventListItem) -> (r: Vec<String>)
    ensures
        event_row_shown(r.deep_view(), *event),
{
    let event_id = match &event.event_id {
        Some(e) => e.clone(),
        None => event.id.clone(),
    };
    let title = match &event.title {
        Some(t) => truncate_string(t.as_str(), 50),
        None => match &event.message {
            Some(m) => truncate_string(m.as_str(), 50),
            None => truncate_string("<no title>", 50),
        },
    };
    let platform = match &event.platform {
        Some(p) => p.clone(),
        None => owned("-"),
    };
    let cells = vec![event_id, title, platform, time_cell(event.date_created.as_str())];
    let r = row_of(cells);
    assert(r.deep_view()[3] == cells[3]@);
    r
}

/// The lines that list events: a note when there are none; otherwise the rounded
/// table of their rows under the header, and the count.
pub fn events_table_text(events: &[EventListItem]) -> (r: Vec<String>)
    ensures
        events@.len() == 0 ==> r.deep_view() == seq!["No events found."@],
        events@.len() > 0 ==> {
            &&& r.deep_view().len() == 2
            &&& r.deep_view()[1] == "Showing "@ + decimal(events@.len()) + " event(s)"@
            &&& exists|rows: Seq<Seq<Seq<char>>>| {
                &&& rows.len() == events@.len()
                &&& (forall|i: int| 0 <= i < rows.len() ==> event_row_shown(#[trigger] rows[i], events@[i]))
                &&& r.deep_view()[0] == spec_rounded_table(seq![event_header()] + rows)
            }
        },
{
    let n = events.len();
    if n == 0 {
        let r = vec![owned("No events found.")];
        assert(r.deep_view() =~= seq!["No events found."@]);
        return r;
    }
    let header = vec![owned("Event ID"), owned("Title"), owned("Platform"), owned("Created")];
    let mut records: Vec<Vec<String>> = Vec::new();
    records.push(header);
    assert(records.deep_view()[0] =~= event_header());
    let mut i: usize = 0;
    while i < n
        invariant
            n == events@.len(),
            i <= n,
            records.deep_view().len() == i + 1,
            records.deep_view()[0] == event_header(),
            forall|j: int| 0 <= j < i ==> event_row_shown(#[trigger] records.deep_view()[j + 1], events@[j]),
        decreases n - i,
    {
        let row = event_row(&events[i]);
        let ghost prev = records.deep_view();
        records.push(row);
        assert(records.deep_view() =~= prev.push(row.deep_view()));
        i = i + 1;
    }
    let r = finish_table(&records, n, " event(s)");
    proof {
        let rows = records.deep_view().skip(1);
        assert(seq![event_header()] + rows =~= records.deep_view());
        assert forall|i: int| 0 <= i < rows.len() implies event_row_shown(#[trigger] rows[i], events@[i]) by {
            assert(rows[i] == records.deep_view()[i + 1]);
        }
    }
    r
}

/// The header row of the comments table.
pub open spec fn note_header() -> Seq<Seq<char>> {
    seq!["ID"@, "Author"@, "Text"@, "Date"@]
}

/// A row of the comments table shows the comment: its id, its author's name (else
/// `-`), its text cut to 60 characters and how long ago it was written.
pub open spec fn note_row_shown(row: Seq<Seq<char>>, note: Note) -> bool {
    &&& row.len() == 4
    &&& row[0] == note.id@
    &&& row[1] == match note.user {
        Some(u) => u.name@,
        None => "-"@,
    }
    &&& row[2] == truncate_spec(note.data.text@, 60)
    &&& clock_relative(row[3], note.date_created@)
}

/// The row of the comments table for one comment.
pub fn note_row(note: &Note) -> (r: Vec<String>)
    ensures
        note_row_shown(r.deep_view(), *note),
{
    let author = match &note.user {
        Some(u) => u.name.clone(),
        None => owned("-"),
    };
    let cells = vec![
        note.id.clone(),
        author,
        truncate_string(note.text(), 60),
        format_relative_time(&note.date_created),
    ];
    let r = row_of(cells);
    assert(r.deep_view()[3] == cells[3]@);
    r
}

/// The lines that list comments: a note when there are none; otherwise the
/// rounded table of their rows under the header, and the count.
pub fn notes_table_text(notes: &[Note]) -> (r: Vec<String>)
    ensures
        notes@.len() == 0 ==> r.deep_view() == seq!["No comments found."@],
        notes@.len() > 0 ==> {
            &&& r.deep_view().len() == 2
            &&& r.deep_view()[1] == "Showing "@ + decimal(notes@.len()) + " comment(s)"@
            &&& exists|rows: Seq<Seq<Seq<char>>>| {
                &&& rows.len() == notes@.len()
                &&& (forall|i: int| 0 <= i < rows.len() ==> note_row_shown(#[trigger] rows[i], notes@[i]))
                &&& r.deep_view()[0] == spec_rounded_table(seq![note_header()] + rows)
            }
        },
{
    let n = notes.len();
    if n == 0 {
        let r = vec![owned("No comments found.")];
        assert(r.deep_view() =~= seq!["No comments found."@]);
        return r;
    }
    let header = vec![owned("ID"), owned("Author"), owned("Text"), owned("Date")];
    let mut records: Vec<Vec<String>> = Vec::new();
    records.push(header);
    assert(records.deep_view()[0] =~= note_header());
    let mut i: usize = 0;
    while i < n
        invariant
            n == notes@.len(),
            i <= n,
            records.deep_view().len() == i + 1,
            records.deep_view()[0] == note_header(),
            forall|j: int| 0 <= j < i ==> note_row_shown(#[trigger] records.deep_view()[j + 1], notes@[j]),
        decreases n - i,
    {
        let row = note_row(&notes[i]);
        let ghost prev = records.deep_view();
        records.push(row);
        assert(records.deep_view() =~= prev.push(row.deep_view()));
        i = i + 1;
    }
    let r = finish_table(&records, n, " comment(s)");
    proof {
        let rows = records.deep_view().skip(1);
        assert(seq![note_header()] + rows =~= records.deep_view());
        assert forall|i: int| 0 <= i < rows.len() implies note_row_shown(#[trigger] rows[i], notes@[i]) by {
            assert(rows[i] == records.deep_view()[i + 1]);
        }
    }
    r
}

} // verus!
