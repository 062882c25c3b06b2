use sntry::api::models::issue::IssueStatus;
use sntry::cli::args::{OutputFormat, Commands, ConfigCommands, EventsCommands, IssuesCommands, ReleasesCommands, SortBy};
use sntry::cli::commands::events::list::list_events_params;
use sntry::cli::commands::events::ListOptions as EventOptions;
use sntry::cli::commands::issues::comment::comment_added_message;
use sntry::cli::commands::issues::list::{comma_list, list_issues_params, status_filter};
use sntry::cli::commands::issues::ListOptions as IssueOptions;
use sntry::cli::commands::releases::list::list_releases_params;
use sntry::cli::commands::releases::ListOptions as ReleaseOptions;
use sntry::cli::dispatch::{action_for, Action};
use sntry::config::loader::Config;
use sntry::error::SentryCliError;

#[test]
fn status_filter_reads_known_statuses_in_any_case() {
    assert_eq!(status_filter("resolved"), Some(IssueStatus::Resolved));
    assert_eq!(status_filter("UnResolved"), Some(IssueStatus::Unresolved));
    assert_eq!(status_filter("IGNORED"), Some(IssueStatus::Ignored));
    assert_eq!(status_filter("reprocessing"), None);
    assert_eq!(status_filter(""), None);
}

#[test]
fn status_names_read_back_as_filters() {
    for st in [IssueStatus::Resolved, IssueStatus::Unresolved, IssueStatus::Ignored] {
        assert_eq!(status_filter(&st.to_string()), Some(st));
    }
}

#[test]
fn comma_list_trims_items() {
    assert_eq!(comma_list(" a, b ,c"), vec!["a", "b", "c"]);
    assert_eq!(comma_list("single"), vec!["single"]);
    assert_eq!(comma_list("a,,b"), vec!["a", "", "b"]);
    assert_eq!(comma_list(""), vec![""]);
}

fn issue_options() -> IssueOptions {
    IssueOptions {
        project: Some("backend, frontend".to_string()),
        status: Some("Resolved".to_string()),
        query: Some("is:unresolved".to_string()),
        sort: "freq".to_string(),
        limit: 25,
        all: false,
        environment: Some("production".to_string()),
        period: Some("24h".to_string()),
        start: None,
        end: None,
    }
}

#[test]
fn list_issues_params_from_options() {
    let p = list_issues_params(issue_options());
    assert_eq!(p.project, Some(vec!["backend".to_string(), "frontend".to_string()]));
    assert_eq!(p.status, Some(IssueStatus::Resolved));
    assert_eq!(p.query.as_deref(), Some("is:unresolved"));
    assert_eq!(p.sort.as_deref(), Some("freq"));
    assert_eq!(p.limit, Some(25));
    assert_eq!(p.cursor, None);
    assert_eq!(p.environment, Some(vec!["production".to_string()]));
    assert_eq!(p.stats_period.as_deref(), Some("24h"));
    assert_eq!(p.start, None);
    assert_eq!(p.end, None);
}

#[test]
fn list_events_and_releases_params() {
    let e = list_events_params(&EventOptions { issue_id: "1".to_string(), limit: 10, all: true });
    assert_eq!(e.limit, Some(10));
    assert_eq!(e.cursor, None);
    let r = list_releases_params(ReleaseOptions { query: Some("1.2".to_string()), limit: 5, all: false });
    assert_eq!(r.query.as_deref(), Some("1.2"));
    assert_eq!(r.limit, Some(5));
    assert_eq!(r.cursor, None);
}

#[test]
fn sort_names() {
    let all = [SortBy::Date, SortBy::New, SortBy::Freq, SortBy::User, SortBy::Inbox, SortBy::Trends];
    let names: Vec<String> = all.iter().map(|s| s.to_string()).collect();
    assert_eq!(names, vec!["date", "new", "freq", "user", "inbox", "trends"]);
}

fn config(org: Option<&str>, url: Option<&str>, token: Option<&str>) -> Config {
    Config {
        default_org: org.map(String::from),
        server_url: url.map(String::from),
        auth_token: token.map(String::from),
        default_project: None,
    }
}

#[test]
fn auth_token_precedence() {
    let c = config(None, None, Some("file"));
    assert_eq!(c.get_auth_token(Some("flag"), Some("env".to_string())).ok().as_deref(), Some("flag"));
    assert_eq!(c.get_auth_token(None, Some("env".to_string())).ok().as_deref(), Some("env"));
    assert_eq!(c.get_auth_token(None, None).ok().as_deref(), Some("file"));
    match config(None, None, None).get_auth_token(None, None) {
        Err(SentryCliError::Auth(m)) => {
            assert_eq!(m, "No auth token found. Set SENTRY_AUTH_TOKEN or configure in config file")
        }
        _ => panic!("expected an auth error"),
    }
}

#[test]
fn server_url_precedence_and_default() {
    let c = config(None, Some("https://self.hosted"), None);
    assert_eq!(c.get_server_url(Some("https://flag"), Some("https://env".to_string())), "https://flag");
    assert_eq!(c.get_server_url(None, Some("https://env".to_string())), "https://env");
    assert_eq!(c.get_server_url(None, None), "https://self.hosted");
    assert_eq!(Config::default().get_server_url(None, None), "https://sentry.io");
}

#[test]
fn org_precedence() {
    let c = config(Some("file-org"), None, None);
    assert_eq!(c.get_org(Some("flag-org"), Some("env-org".to_string())).ok().as_deref(), Some("flag-org"));
    assert_eq!(c.get_org(None, Some("env-org".to_string())).ok().as_deref(), Some("env-org"));
    assert_eq!(c.get_org(None, None).ok().as_deref(), Some("file-org"));
    match Config::default().get_org(None, None) {
        Err(SentryCliError::Config(m)) => {
            assert_eq!(m, "No organization specified. Use --org or configure default_org");
            assert_eq!(SentryCliError::Config(m.clone()).message(), &m);
        }
        _ => panic!("expected a config error"),
    }
}

#[test]
fn comment_message_text() {
    assert_eq!(comment_added_message("77", "123"), "Comment 77 added to issue 123.");
}

#[test]
fn comment_lists_without_text_or_when_asked() {
    let listing = action_for(Commands::Issues {
        command: IssuesCommands::Comment { issue_id: "5".to_string(), text: None, list: false },
    });
    assert!(matches!(listing, Action::ListComments { ref issue_id } if issue_id == "5"));
    let asked = action_for(Commands::Issues {
        command: IssuesCommands::Comment { issue_id: "5".to_string(), text: Some("hi".to_string()), list: true },
    });
    assert!(matches!(asked, Action::ListComments { .. }));
    let adding = action_for(Commands::Issues {
        command: IssuesCommands::Comment { issue_id: "5".to_string(), text: Some("hi".to_string()), list: false },
    });
    match adding {
        Action::AddComment { issue_id, text } => {
            assert_eq!(issue_id, "5");
            assert_eq!(text, "hi");
        }
        _ => panic!("expected a comment to add"),
    }
}

#[test]
fn list_command_carries_sort_name() {
    let a = action_for(Commands::Issues {
        command: IssuesCommands::List {
            project: None,
            status: None,
            query: None,
            sort: SortBy::Trends,
            limit: 100,
            all: true,
            environment: None,
            period: None,
            start: None,
            end: None,
        },
    });
    match a {
        Action::ListIssues(o) => {
            assert_eq!(o.sort, "trends");
            assert_eq!(o.limit, 100);
            assert!(o.all);
        }
        _ => panic!("expected an issue listing"),
    }
}

#[test]
fn attachments_command_lists_or_downloads() {
    let list = action_for(Commands::Events {
        command: EventsCommands::Attachments {
            event_id: "e".to_string(),
            project: "p".to_string(),
            download: false,
            output: ".".to_string(),
            id: None,
        },
    });
    assert!(matches!(list, Action::ListAttachments { .. }));
    assert!(list.uses_api());
    let download = action_for(Commands::Events {
        command: EventsCommands::Attachments {
            event_id: "e".to_string(),
            project: "p".to_string(),
            download: true,
            output: "/tmp/".to_string(),
            id: Some("9".to_string()),
        },
    });
    match download {
        Action::DownloadAttachment { event_id, project, output, id } => {
            assert_eq!(event_id, "e");
            assert_eq!(project, "p");
            assert_eq!(output, "/tmp/");
            assert_eq!(id.as_deref(), Some("9"));
        }
        _ => panic!("expected a download"),
    }
}

#[test]
fn config_and_release_commands() {
    let set = action_for(Commands::Config {
        command: ConfigCommands::SetValue { key: "default_org".to_string(), value: "acme".to_string() },
    });
    assert!(!set.uses_api());
    assert!(matches!(set, Action::SetConfig { ref key, ref value } if key == "default_org" && value == "acme"));
    let view = action_for(Commands::Releases { command: ReleasesCommands::View { version: "1.0".to_string() } });
    assert!(view.uses_api());
    assert!(matches!(view, Action::ViewRelease { ref version } if version == "1.0"));
}

#[test]
fn defaults_are_table_and_date() {
    assert_eq!(OutputFormat::default(), OutputFormat::Table);
    assert_eq!(SortBy::default(), SortBy::Date);
}
