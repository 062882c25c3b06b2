use sntry::api::models::event::ListEventsParams;
use sntry::api::models::issue::{IssueStatus, ListIssuesParams};
use sntry::api::models::release::ListReleasesParams;
use sntry::api::query::{event_query, issue_query, release_query};
use sntry::cli::commands::issues::update::{
    assign_update, ignore_update, merge_update, resolve_update, unresolve_update,
};
use sntry::config::loader::{server_base, Config};
use sntry::error::SentryCliError;

fn pairs(v: &[(&str, &str)]) -> Vec<(String, String)> {
    v.iter().map(|(a, b)| (a.to_string(), b.to_string())).collect()
}

fn empty_issue_params() -> ListIssuesParams {
    ListIssuesParams {
        project: None,
        query: None,
        status: None,
        sort: None,
        limit: None,
        cursor: None,
        environment: None,
        stats_period: None,
        start: None,
        end: None,
    }
}

#[test]
fn issue_query_in_order() {
    let p = ListIssuesParams {
        project: Some(vec!["a".to_string(), "b".to_string()]),
        query: Some("browser:Chrome".to_string()),
        status: Some(IssueStatus::Unresolved),
        sort: Some("date".to_string()),
        limit: Some(25),
        cursor: Some("0:25:0".to_string()),
        environment: Some(vec!["prod".to_string()]),
        stats_period: Some("14d".to_string()),
        start: Some("s".to_string()),
        end: Some("e".to_string()),
    };
    assert_eq!(
        issue_query(&p),
        pairs(&[
            ("project", "a"),
            ("project", "b"),
            ("query", "is:unresolved browser:Chrome"),
            ("sort", "date"),
            ("limit", "25"),
            ("cursor", "0:25:0"),
            ("environment", "prod"),
            ("statsPeriod", "14d"),
            ("start", "s"),
            ("end", "e"),
        ])
    );
}

#[test]
fn issue_query_status_or_query_alone() {
    assert_eq!(issue_query(&empty_issue_params()), Vec::<(String, String)>::new());
    let mut p = empty_issue_params();
    p.status = Some(IssueStatus::Ignored);
    assert_eq!(issue_query(&p), pairs(&[("query", "is:ignored")]));
    let mut p = empty_issue_params();
    p.query = Some("level:error".to_string());
    assert_eq!(issue_query(&p), pairs(&[("query", "level:error")]));
}

#[test]
fn page_queries() {
    assert_eq!(
        event_query(&ListEventsParams { limit: Some(50), cursor: None }),
        pairs(&[("limit", "50")])
    );
    assert_eq!(
        release_query(&ListReleasesParams { query: Some("1.".to_string()), limit: Some(10), cursor: Some("c".to_string()) }),
        pairs(&[("query", "1."), ("per_page", "10"), ("cursor", "c")])
    );
}

#[test]
fn resolve_and_unresolve_updates() {
    let u = resolve_update(None, false);
    assert_eq!(u.status, Some(IssueStatus::Resolved));
    assert!(u.status_details.is_none());
    let u = resolve_update(Some("1.2.3".to_string()), false);
    let d = u.status_details.unwrap();
    assert_eq!(d.in_release.as_deref(), Some("1.2.3"));
    assert_eq!(d.in_next_release, None);
    let u = resolve_update(None, true);
    assert_eq!(u.status_details.unwrap().in_next_release, Some(true));
    let u = unresolve_update();
    assert_eq!(u.status, Some(IssueStatus::Unresolved));
    assert!(u.status_details.is_none());
}

#[test]
fn assign_updates() {
    let u = assign_update(Some("user@example.com".to_string()), false).ok().unwrap();
    assert_eq!(u.assigned_to.as_deref(), Some("user@example.com"));
    assert_eq!(u.status, None);
    let u = assign_update(Some("team:backend".to_string()), true).ok().unwrap();
    assert_eq!(u.assigned_to.as_deref(), Some(""));
    match assign_update(None, false) {
        Err(SentryCliError::Validation(m)) => assert_eq!(m, "Specify --to or --unassign"),
        _ => panic!("expected a validation error"),
    }
}

#[test]
fn ignore_updates() {
    let u = ignore_update(None, None, false);
    assert_eq!(u.status, Some(IssueStatus::Ignored));
    assert!(u.status_details.is_none());
    let d = ignore_update(Some(1440), Some(100), true).status_details.unwrap();
    assert_eq!(d.ignore_duration, Some(1440));
    assert_eq!(d.ignore_count, Some(100));
    assert_eq!(d.ignore_until_escalating, Some(true));
}

#[test]
fn merge_puts_primary_first() {
    let (u, ids) = merge_update("1".to_string(), vec!["2".to_string(), "3".to_string()]);
    assert_eq!(u.merge, Some(true));
    assert_eq!(ids, vec!["1", "2", "3"]);
}

#[test]
fn config_set_value() {
    let mut c = Config::default();
    assert!(c.set_value("default_org", "acme").is_ok());
    assert!(c.set_value("server_url", "https://self").is_ok());
    assert!(c.set_value("auth_token", "tok").is_ok());
    assert!(c.set_value("default_project", "web").is_ok());
    assert_eq!(c.default_org.as_deref(), Some("acme"));
    assert_eq!(c.server_url.as_deref(), Some("https://self"));
    assert_eq!(c.auth_token.as_deref(), Some("tok"));
    assert_eq!(c.default_project.as_deref(), Some("web"));
    assert_eq!(c.get_org(None, None).ok().as_deref(), Some("acme"));
    match c.set_value("colour", "blue") {
        Err(SentryCliError::Validation(m)) => assert_eq!(m, "Unknown config key: colour"),
        _ => panic!("expected a validation error"),
    }
    assert_eq!(c.default_org.as_deref(), Some("acme"));
}

#[test]
fn server_base_drops_trailing_slashes() {
    for url in ["https://sentry.io", "https://sentry.io/", "https://sentry.io///", "", "/", "a/b/"] {
        assert_eq!(server_base(url), url.trim_end_matches('/'));
    }
}
