use sntry::api::models::issue::IssueStatus;
use sntry::output::table::format_status;
use sntry::output::{error_line, success_line, OutputState};
use sntry::style::{paint, Tone};

#[test]
fn colours_written_as_escape_sequences() {
    colored::control::set_override(true);
    assert_eq!(paint("x", Tone::Plain), "x");
    assert_eq!(paint("x", Tone::Bold), "\x1b[1mx\x1b[0m");
    assert_eq!(paint("x", Tone::Dimmed), "\x1b[2mx\x1b[0m");
    assert_eq!(paint("x", Tone::Red), "\x1b[31mx\x1b[0m");
    assert_eq!(paint("x", Tone::Green), "\x1b[32mx\x1b[0m");
    assert_eq!(paint("x", Tone::Yellow), "\x1b[33mx\x1b[0m");
    assert_eq!(paint("x", Tone::Blue), "\x1b[34mx\x1b[0m");
    assert_eq!(paint("x", Tone::Cyan), "\x1b[36mx\x1b[0m");
    assert_eq!(paint("x", Tone::BoldCyan), "\x1b[1;36mx\x1b[0m");
    assert_eq!(paint("x", Tone::BoldRed), "\x1b[1;31mx\x1b[0m");
    assert_eq!(paint("x", Tone::BoldYellow), "\x1b[1;33mx\x1b[0m");
    assert_eq!(paint("a\x1b[0mb", Tone::Red), "\x1b[31ma\x1b[0m\x1b[31mb\x1b[0m");
    assert_eq!(format_status(&IssueStatus::Resolved), "\x1b[32mResolved\x1b[0m");
    assert_eq!(success_line(&OutputState::new(), "ok").as_deref(), Some("\x1b[32m✓\x1b[0m ok"));
    assert_eq!(error_line("bad"), "\x1b[31m✗\x1b[0m bad");
    colored::control::unset_override();
}
