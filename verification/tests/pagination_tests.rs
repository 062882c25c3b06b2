use sntry::api::pagination::next_cursor;

#[test]
fn next_cursor_from_sentry_link_header() {
    let link = "<https://sentry.io/api/0/organizations/acme/issues/?&cursor=0:0:1>; rel=\"previous\"; results=\"false\"; cursor=\"0:0:1\", <https://sentry.io/api/0/organizations/acme/issues/?&cursor=0:100:0>; rel=\"next\"; results=\"true\"; cursor=\"0:100:0\"";
    assert_eq!(next_cursor(link).as_deref(), Some("0:100:0"));
}

#[test]
fn no_next_cursor_when_no_results() {
    let link = "<https://x/?&cursor=0:0:1>; rel=\"previous\"; results=\"false\"; cursor=\"0:0:1\", <https://x/?&cursor=0:100:0>; rel=\"next\"; results=\"false\"; cursor=\"0:100:0\"";
    assert_eq!(next_cursor(link), None);
}

#[test]
fn no_next_cursor_without_next_entry() {
    assert_eq!(next_cursor(""), None);
    assert_eq!(next_cursor("<https://x/>; rel=\"previous\"; results=\"true\"; cursor=\"a\""), None);
}

#[test]
fn next_cursor_needs_a_quoted_cursor() {
    assert_eq!(next_cursor("<https://x/>; rel=\"next\"; results=\"true\""), None);
    assert_eq!(next_cursor("<https://x/>; rel=\"next\"; results=\"true\"; cursor=abc"), None);
    assert_eq!(next_cursor("<https://x/>;rel=\"next\";results=\"true\";cursor=\"\""), Some(String::new()));
    assert_eq!(next_cursor("  <u>  ;  rel=\"next\"  ;  results=\"true\"  ;  cursor=\"7:1:0\"  "), Some("7:1:0".to_string()));
}

#[test]
fn first_next_entry_decides() {
    let link = "<a>; rel=\"next\"; results=\"false\"; cursor=\"1\", <b>; rel=\"next\"; results=\"true\"; cursor=\"2\"";
    assert_eq!(next_cursor(link), None);
}
