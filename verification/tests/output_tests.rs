use sntry::api::models::common::{Actor, ProjectRef as IssueProject};
use sntry::api::models::event::{
    Breadcrumb, BreadcrumbsData, ContextEntry, ContextField, ContextScalar, ContextValue, Event, EventEntry,
    EventListItem, EventTag, ExceptionData, ExceptionValue, MessageData, StackFrame, Stacktrace,
};
use sntry::api::models::issue::{Issue, IssueMetadata, IssueStatus, Note, NoteData};
use sntry::api::models::release::{Author, DeployInfo, ProjectRef, Release};
use sntry::cli::args::OutputFormat;
use sntry::output::details::{event_details_lines, issue_detail_lines, release_details_lines};
use sntry::output::table::{
    events_table_text, format_relative_time_at, format_status, format_status_colored, issues_table_text,
    notes_table_text, releases_table_text, truncate_string,
};
use sntry::output::{error_line, get_format, is_quiet, set_format, set_quiet, success_line, OutputState};
use sntry::time::{elapsed_seconds, format_ymd, format_ymd_hms_utc, parse_rfc3339, Timestamp};

fn plain_colors() {
    colored::control::set_override(false);
}

fn joined(lines: &[Vec<String>]) -> Vec<String> {
    lines.iter().map(|pieces| pieces.concat()).collect()
}

/// The text that printing the lines one `println!` each writes.
fn printed(lines: &[Vec<String>]) -> String {
    joined(lines).join("\n")
}

fn ts(secs: i64) -> Timestamp {
    Timestamp::from_parts(secs, 0).unwrap()
}

#[test]
fn output_state_defaults_and_roundtrip() {
    let mut st = OutputState::new();
    assert_eq!(get_format(&st), OutputFormat::Json);
    assert!(!is_quiet(&st));
    for f in [OutputFormat::Table, OutputFormat::Json, OutputFormat::Compact] {
        set_format(&mut st, f);
        assert_eq!(get_format(&st), f);
    }
    set_quiet(&mut st, true);
    assert!(is_quiet(&st));
    assert_eq!(get_format(&st), OutputFormat::Compact);
}

#[test]
fn success_line_respects_quiet_mode() {
    plain_colors();
    let mut st = OutputState::new();
    assert_eq!(success_line(&st, "Done").as_deref(), Some("✓ Done"));
    set_quiet(&mut st, true);
    assert_eq!(success_line(&st, "Done"), None);
    assert_eq!(error_line("Boom"), "✗ Boom");
}

#[test]
fn truncate_string_cuts_with_ellipsis() {
    assert_eq!(truncate_string("hello", 10), "hello");
    assert_eq!(truncate_string("hello", 5), "hello");
    assert_eq!(truncate_string("hello world", 8), "hello...");
    assert_eq!(truncate_string("ééééé", 4), "é...");
    let long = "x".repeat(60);
    assert_eq!(truncate_string(&long, 50).chars().count(), 50);
    assert_eq!(truncate_string(&truncate_string(&long, 50), 50), truncate_string(&long, 50));
}

#[test]
fn status_texts_without_colors() {
    plain_colors();
    assert_eq!(format_status(&IssueStatus::Resolved), "Resolved");
    assert_eq!(format_status(&IssueStatus::Reprocessing), "Reprocessing");
    assert_eq!(format_status_colored(&IssueStatus::Unresolved), "unresolved");
    assert_eq!(format_status_colored(&IssueStatus::Ignored), "ignored");
}

#[test]
fn relative_time_buckets() {
    let now = ts(1_700_000_000);
    assert_eq!(format_relative_time_at(&ts(1_700_000_000 - 59), &now), "just now");
    assert_eq!(format_relative_time_at(&ts(1_700_000_000 + 100), &now), "just now");
    assert_eq!(format_relative_time_at(&ts(1_700_000_000 - 60), &now), "1 min ago");
    assert_eq!(format_relative_time_at(&ts(1_700_000_000 - 3599), &now), "59 min ago");
    assert_eq!(format_relative_time_at(&ts(1_700_000_000 - 3600), &now), "1 hr ago");
    assert_eq!(format_relative_time_at(&ts(1_700_000_000 - 86399), &now), "23 hr ago");
    assert_eq!(format_relative_time_at(&ts(1_700_000_000 - 86400), &now), "1 days ago");
    assert_eq!(format_relative_time_at(&ts(1_700_000_000 - 6 * 86400 - 1), &now), "6 days ago");
    assert_eq!(format_relative_time_at(&ts(1_700_000_000 - 7 * 86400), &now), "2023-11-07");
}

#[test]
fn time_helpers_follow_chrono() {
    let t = ts(1_704_067_200);
    assert_eq!(format_ymd(&t), "2024-01-01");
    assert_eq!(format_ymd_hms_utc(&ts(1_704_067_200 + 3723)), "2024-01-01 01:02:03 UTC");
    assert_eq!(elapsed_seconds(&ts(100), &ts(40)), 60);
    assert_eq!(elapsed_seconds(&ts(40), &ts(100)), -60);
    let parsed = parse_rfc3339("2024-01-01T02:00:00+02:00").unwrap();
    assert_eq!(parsed.secs(), 1_704_067_200);
    assert_eq!(parsed.nanos(), 0);
    assert!(parse_rfc3339("not a date").is_none());
    assert!(Timestamp::from_parts(0, 2_000_000_000).is_none());
}

fn issue(id: &str, title: &str, status: IssueStatus, assigned: Option<Actor>, culprit: Option<&str>) -> Issue {
    Issue {
        id: id.to_string(),
        short_id: format!("PROJ-{id}"),
        title: title.to_string(),
        status,
        level: "error".to_string(),
        count: "42".to_string(),
        user_count: 7,
        first_seen: ts(1_577_836_800),
        last_seen: ts(1_577_923_200),
        permalink: format!("https://sentry.io/issues/{id}/"),
        project: IssueProject { id: "9".to_string(), name: "Backend".to_string(), slug: "backend".to_string() },
        assigned_to: assigned,
        is_bookmarked: false,
        is_subscribed: false,
        has_seen: true,
        metadata: IssueMetadata { value: None, filename: None, function: None },
        culprit: culprit.map(String::from),
    }
}

#[test]
fn issues_table_rounded_with_count() {
    plain_colors();
    assert_eq!(issues_table_text(&[]), vec!["No issues found.".to_string()]);
    let issues = vec![issue("1", "Boom", IssueStatus::Unresolved, None, None)];
    let text = issues_table_text(&issues);
    assert_eq!(text.len(), 2);
    let expected = [
        "╭────┬──────────┬───────┬────────────┬────────┬────────────╮",
        "│ ID │ Short ID │ Title │ Status     │ Events │ Last Seen  │",
        "├────┼──────────┼───────┼────────────┼────────┼────────────┤",
        "│ 1  │ PROJ-1   │ Boom  │ unresolved │ 42     │ 2020-01-02 │",
        "╰────┴──────────┴───────┴────────────┴────────┴────────────╯",
    ]
    .join("\n");
    assert_eq!(text[0], expected);
    assert_eq!(text[1], "Showing 1 issue(s)");
}

#[test]
fn releases_and_events_and_notes_tables() {
    plain_colors();
    assert_eq!(releases_table_text(&[]), vec!["No releases found.".to_string()]);
    assert_eq!(events_table_text(&[]), vec!["No events found.".to_string()]);
    assert_eq!(notes_table_text(&[]), vec!["No comments found.".to_string()]);
    let rel = Release {
        version: "1.0.0".to_string(),
        short_version: None,
        date_created: "2020-01-01T00:00:00Z".to_string(),
        date_released: None,
        new_groups: 3,
        last_event: None,
        first_event: None,
        last_deploy: None,
        authors: vec![],
        projects: vec![
            ProjectRef { slug: "a".to_string(), name: "A".to_string() },
            ProjectRef { slug: "b".to_string(), name: "B".to_string() },
        ],
    };
    let text = releases_table_text(&[rel]);
    assert_eq!(text[1], "Showing 1 release(s)");
    assert!(text[0].contains("│ 1.0.0   │ 2020-01-01 │ 2 projects │ 3          │"), "{}", text[0]);
    let ev = EventListItem {
        id: "e1".to_string(),
        event_id: None,
        message: Some("msg".to_string()),
        date_created: "garbage".to_string(),
        title: None,
        platform: None,
        tags: vec![],
        event_type: None,
    };
    let text = events_table_text(&[ev]);
    assert_eq!(text[1], "Showing 1 event(s)");
    assert!(text[0].contains("│ e1       │ msg   │ -        │ -       │"), "{}", text[0]);
    let note = Note {
        id: "n1".to_string(),
        data: NoteData { text: "y".repeat(70) },
        user: None,
        date_created: ts(1_577_836_800),
    };
    let text = notes_table_text(&[note]);
    assert_eq!(text[1], "Showing 1 comment(s)");
    let shown = format!("│ n1 │ -      │ {}... │ 2020-01-01 │", "y".repeat(57));
    assert!(text[0].contains(&shown), "{}", text[0]);
}

#[test]
fn issue_detail_lines_match_layout() {
    plain_colors();
    let assignee = Actor { id: "1".to_string(), name: "Ann".to_string(), email: None, actor_type: Some("user".to_string()) };
    let i = issue("5", "Broken thing", IssueStatus::Resolved, Some(assignee), Some("app.main"));
    let lines = printed(&issue_detail_lines(&i, None));
    let expected: Vec<String> = vec![
        String::new(),
        "Issue: PROJ-5".to_string(),
        "=".repeat(80),
        format!("{:<12} {}", "Title:", "Broken thing"),
        format!("{:<12} {}", "Status:", "Resolved"),
        format!("{:<12} {}", "Level:", "error"),
        format!("{:<12} {} ({})", "Project:", "Backend", "backend"),
        format!("{:<12} {}", "First Seen:", "2020-01-01 00:00:00 UTC"),
        format!("{:<12} {}", "Last Seen:", "2020-01-02 00:00:00 UTC"),
        String::new(),
        format!("{:<12} {} total ({} users affected)", "Events:", "42", 7),
        String::new(),
        format!("{:<12} {} ({})", "Assigned:", "Ann", "user"),
        format!("{:<12} {}", "Culprit:", "app.main"),
        String::new(),
        format!("{:<12} {}", "Link:", "https://sentry.io/issues/5/"),
        String::new(),
    ];
    assert_eq!(lines, expected.join("\n"));
    let unassigned = joined(&issue_detail_lines(&issue("6", "t", IssueStatus::Ignored, None, None), None));
    assert!(unassigned.contains(&format!("{:<12} {}", "Assigned:", "Unassigned")));
    assert!(!unassigned.iter().any(|l| l.starts_with("Culprit:")));
}

fn frame(function: Option<&str>, lineno: Option<u32>, in_app: bool, context: Option<&str>) -> StackFrame {
    StackFrame {
        filename: Some("src/app.rs".to_string()),
        function: function.map(String::from),
        lineno,
        colno: None,
        context_line: context.map(String::from),
        pre_context: vec![],
        post_context: vec![],
        in_app,
        instruction_addr: None,
        package: None,
        trust: None,
        image_addr: None,
    }
}

fn crumb(i: usize, level: Option<&str>) -> Breadcrumb {
    Breadcrumb {
        timestamp: Some(format!("t{i}")),
        breadcrumb_type: None,
        category: if i % 2 == 0 { Some("http".to_string()) } else { None },
        message: Some(format!("m{i}")),
        level: level.map(String::from),
        data: None,
    }
}

#[test]
fn event_detail_lines_match_layout() {
    plain_colors();
    let exception = |t: &str, frames: Option<Vec<StackFrame>>| ExceptionValue {
        exception_type: t.to_string(),
        value: format!("{t} happened"),
        stacktrace: frames.map(|frames| Stacktrace { frames }),
        mechanism: None,
    };
    let event = Event {
        id: "ev".to_string(),
        message: None,
        entries: vec![
            EventEntry::Exception {
                data: ExceptionData {
                    values: vec![
                        exception(
                            "ValueError",
                            Some(vec![
                                frame(Some("outer"), Some(3), false, None),
                                frame(None, Some(42), true, Some("let x = 1;")),
                                frame(Some("inner"), None, false, Some("ignored")),
                            ]),
                        ),
                        exception("IOError", None),
                    ],
                },
            },
            EventEntry::Message { data: MessageData { formatted: "hello".to_string() } },
            EventEntry::Breadcrumbs { data: BreadcrumbsData { values: (0..12).map(|i| crumb(i, None)).collect() } },
        ],
        tags: vec![EventTag { key: "env".to_string(), value: "prod".to_string() }],
        contexts: vec![
            ContextEntry {
                key: "os".to_string(),
                value: ContextValue::Object(vec![
                    ContextField { key: "name".to_string(), value: ContextScalar::Text("Linux".to_string()) },
                    ContextField { key: "bits".to_string(), value: ContextScalar::Number("64".to_string()) },
                    ContextField { key: "rooted".to_string(), value: ContextScalar::Bool(false) },
                    ContextField { key: "extra".to_string(), value: ContextScalar::Other("[1]".to_string()) },
                ]),
            },
            ContextEntry { key: "flat".to_string(), value: ContextValue::Other("3".to_string()) },
        ],
        breadcrumbs: None,
        user: None,
    };
    let lines = printed(&event_details_lines(&event));
    let mut expected: Vec<String> = vec![String::new(), "=".repeat(80), "Event Details".to_string(), "=".repeat(80)];
    expected.extend([
        String::new(),
        "Exception:".to_string(),
        "  Type: ValueError".to_string(),
        "  Value: ValueError happened".to_string(),
        String::new(),
        "  Stack Trace:".to_string(),
        "    inner in src/app.rs".to_string(),
        "▶   <unknown> in src/app.rs:42".to_string(),
        format!("      {} {}", format!("{:>4}", 42), "let x = 1;"),
        "    outer in src/app.rs:3".to_string(),
        String::new(),
        "Caused by:".to_string(),
        String::new(),
        "Exception:".to_string(),
        "  Type: IOError".to_string(),
        "  Value: IOError happened".to_string(),
        String::new(),
        "Message:".to_string(),
        "hello".to_string(),
        String::new(),
        "Breadcrumbs:".to_string(),
    ]);
    for i in 2..12 {
        let category = if i % 2 == 0 { "http" } else { "default" };
        expected.push(format!("  t{i} [{category}] info: m{i}"));
    }
    expected.extend([
        String::new(),
        "Tags:".to_string(),
        "  env = prod".to_string(),
        String::new(),
        "Context:".to_string(),
        "  os:".to_string(),
        "    name = Linux".to_string(),
        "    bits = 64".to_string(),
        "    rooted = false".to_string(),
    ]);
    assert_eq!(lines, expected.join("\n"));
}

#[test]
fn event_breadcrumbs_field_wins_over_entries() {
    plain_colors();
    let event = Event {
        id: "ev".to_string(),
        message: None,
        entries: vec![EventEntry::Breadcrumbs { data: BreadcrumbsData { values: vec![crumb(1, Some("error"))] } }],
        tags: vec![],
        contexts: vec![],
        breadcrumbs: Some(BreadcrumbsData { values: vec![crumb(2, Some("warning"))] }),
        user: None,
    };
    let lines = printed(&event_details_lines(&event));
    assert!(lines.ends_with("\n\nBreadcrumbs:\n  t2 [http] warning: m2"), "{lines}");
}

#[test]
fn release_detail_lines_match_layout() {
    plain_colors();
    let rel = Release {
        version: "2.0".to_string(),
        short_version: None,
        date_created: "2024-01-01T00:00:00Z".to_string(),
        date_released: Some("2024-01-02T03:04:05+00:00".to_string()),
        new_groups: 4,
        last_event: None,
        first_event: None,
        last_deploy: Some(DeployInfo { id: "d".to_string(), environment: "production".to_string(), date_finished: None }),
        authors: vec![
            Author { name: "Ann".to_string(), email: Some("ann@x.io".to_string()) },
            Author { name: "Bob".to_string(), email: None },
        ],
        projects: vec![ProjectRef { slug: "web".to_string(), name: "Web".to_string() }],
    };
    let lines = printed(&release_details_lines(&rel));
    let expected: Vec<String> = vec![
        String::new(),
        "Release: 2.0".to_string(),
        "=".repeat(80),
        format!("{:<15} {}", "Created:", "2024-01-01 00:00:00 UTC"),
        format!("{:<15} {}", "Released:", "2024-01-02 03:04:05 UTC"),
        format!("{:<15} {}", "New Issues:", 4),
        String::new(),
        "Projects:".to_string(),
        "  • Web (web)".to_string(),
        String::new(),
        "Authors:".to_string(),
        "  • Ann <ann@x.io>".to_string(),
        "  • Bob".to_string(),
        String::new(),
        "Last Deploy: production".to_string(),
        String::new(),
    ];
    assert_eq!(lines, expected.join("\n"));
}
