use sntry::api::models::issue::{SentryApp, SentryAppInstallation};
use sntry::cli::commands::issues::link::{
    find_installation, link_message, link_request, parse_linear_url, resolve_link_target,
};
use sntry::error::SentryCliError;

#[test]
fn test_parse_linear_url_standard() {
    let url = "https://linear.app/megacrit/issue/PRG-1234/some-title";
    let result = parse_linear_url(url);
    assert_eq!(result, Some(("PRG".to_string(), "PRG-1234".to_string())));
}

#[test]
fn test_parse_linear_url_no_title_suffix() {
    let url = "https://linear.app/megacrit/issue/PRG-5678";
    let result = parse_linear_url(url);
    assert_eq!(result, Some(("PRG".to_string(), "PRG-5678".to_string())));
}

#[test]
fn test_parse_linear_url_different_project() {
    let url = "https://linear.app/acme/issue/ENG-42/fix-bug";
    let result = parse_linear_url(url);
    assert_eq!(result, Some(("ENG".to_string(), "ENG-42".to_string())));
}

#[test]
fn test_parse_linear_url_not_linear() {
    assert_eq!(parse_linear_url("https://example.com/issue/123"), None);
}

#[test]
fn test_parse_linear_url_missing_issue_segment() {
    assert_eq!(parse_linear_url("https://linear.app/megacrit/PRG-1234"), None);
}

#[test]
fn test_parse_linear_url_no_hyphen_in_identifier() {
    assert_eq!(parse_linear_url("https://linear.app/megacrit/issue/nohyphen"), None);
}

#[test]
fn parse_linear_url_splits_at_last_hyphen() {
    assert_eq!(
        parse_linear_url("https://linear.app/w/issue/MY-TEAM-7"),
        Some(("MY-TEAM".to_string(), "MY-TEAM-7".to_string()))
    );
}

#[test]
fn parse_linear_url_empty_identifier_segment() {
    // The identifier segment is present but empty: no hyphen to split at.
    assert_eq!(parse_linear_url("https://linear.app/w/issue/"), None);
}

#[test]
fn parse_linear_url_roundtrip_of_built_url() {
    // Building a URL from a workspace, a key and a number, and reading it back,
    // gives the key and the identifier.
    let url = format!("https://linear.app/{}/issue/{}-{}/{}", "space", "KEY", 99, "title");
    assert_eq!(parse_linear_url(&url), Some(("KEY".to_string(), "KEY-99".to_string())));
}

#[test]
fn resolve_link_target_prefers_explicit_values() {
    let r = resolve_link_target(
        "https://linear.app/w/issue/ABC-1",
        Some("P".to_string()),
        Some("ID-9".to_string()),
    );
    match r {
        Ok((p, i)) => {
            assert_eq!(p, "P");
            assert_eq!(i, "ID-9");
        }
        Err(_) => panic!("expected a target"),
    }
}

#[test]
fn resolve_link_target_fills_missing_from_url() {
    let r = resolve_link_target("https://linear.app/w/issue/ABC-1/t", None, Some("X-2".to_string()));
    match r {
        Ok((p, i)) => {
            assert_eq!(p, "ABC");
            assert_eq!(i, "X-2");
        }
        Err(_) => panic!("expected a target"),
    }
}

#[test]
fn resolve_link_target_reports_missing_project() {
    let r = resolve_link_target("https://example.com/x", None, Some("X-2".to_string()));
    match r {
        Err(SentryCliError::Validation(m)) => {
            assert_eq!(m, "Could not infer --project from URL. Provide it explicitly.")
        }
        _ => panic!("expected a validation error"),
    }
}

#[test]
fn resolve_link_target_reports_missing_identifier() {
    let r = resolve_link_target("https://example.com/x", Some("P".to_string()), None);
    match r {
        Err(SentryCliError::Validation(m)) => {
            assert_eq!(m, "Could not infer --identifier from URL. Provide it explicitly.")
        }
        _ => panic!("expected a validation error"),
    }
}

fn installation(slug: &str, uuid: &str) -> SentryAppInstallation {
    SentryAppInstallation {
        uuid: uuid.to_string(),
        status: "installed".to_string(),
        app: SentryApp { slug: slug.to_string(), name: None, uuid: format!("app-{uuid}") },
    }
}

#[test]
fn find_installation_takes_first_match() {
    let list = vec![installation("github", "u1"), installation("linear", "u2"), installation("linear", "u3")];
    match find_installation(&list, "linear") {
        Ok(i) => assert_eq!(i, 1),
        Err(_) => panic!("expected an installation"),
    }
}

#[test]
fn find_installation_reports_missing_integration() {
    let list = vec![installation("github", "u1")];
    match find_installation(&list, "linear") {
        Err(SentryCliError::NotFound(m)) => assert_eq!(m, "No installation found for integration 'linear'"),
        _ => panic!("expected not found"),
    }
}

#[test]
fn link_request_parses_numeric_issue_id() {
    match link_request("12345", "https://linear.app/w/issue/A-1", "A", "A-1") {
        Ok(body) => {
            assert_eq!(body.issue_id, 12345);
            assert_eq!(body.web_url, "https://linear.app/w/issue/A-1");
            assert_eq!(body.project, "A");
            assert_eq!(body.identifier, "A-1");
        }
        Err(_) => panic!("expected a request"),
    }
}

#[test]
fn link_request_accepts_what_std_parse_accepts() {
    for id in ["+7", "0", "007", "18446744073709551615"] {
        let expected: u64 = id.parse().unwrap();
        match link_request(id, "u", "p", "i") {
            Ok(body) => assert_eq!(body.issue_id, expected),
            Err(_) => panic!("expected a request for {id}"),
        }
    }
}

#[test]
fn link_request_rejects_non_numeric_issue_id() {
    for id in ["PROJ-123", "", "+", "-1", "18446744073709551616", " 1"] {
        assert!(id.parse::<u64>().is_err());
        match link_request(id, "u", "p", "i") {
            Err(SentryCliError::Validation(m)) => assert_eq!(
                m,
                format!("Issue ID '{id}' must be numeric for external issue linking")
            ),
            _ => panic!("expected a validation error for {id:?}"),
        }
    }
}

#[test]
fn link_message_names_issue_and_link() {
    assert_eq!(link_message("42", "ENG-1", "ext-9"), "Linked issue 42 to ENG-1 (ext-9)");
}
