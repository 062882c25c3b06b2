//! The output settings (format and quiet mode) and the text that commands print.

pub mod details;
pub mod table;

use vstd::prelude::*;
use crate::cli::args::OutputFormat;
use crate::style::{ansi_styled, paint, Tone};

verus! {

/// The output settings of a run: the format as its stored code
/// (0 = Table, 1 = Json, 2 = Compact) and whether success messages are suppressed.
pub struct OutputState {
    format_code: u8,
    quiet: bool,
}

impl View for OutputState {
    type V = (u8, bool);

    closed spec fn view(&self) -> (u8, bool) {
        (self.format_code, self.quiet)
    }
}

/// The code under which a format is stored.
pub open spec fn format_code(f: OutputFormat) -> u8 {
    match f {
        OutputFormat::Table => 0,
        OutputFormat::Json => 1,
        OutputFormat::Compact => 2,
    }
}

/// The format that a stored code stands for; unknown codes stand for Table.
pub open spec fn format_of(code: u8) -> OutputFormat {
    if code == 1 {
        OutputFormat::Json
    } else if code == 2 {
        OutputFormat::Compact
    } else {
        OutputFormat::Table
    }
}

impl OutputState {
    /// The settings before any are made: JSON output, not quiet.
    pub fn new() -> (r: OutputState)
        ensures
            format_of(r@.0) == OutputFormat::Json,
            r@.1 == false,
    {
        OutputState { format_code: 1, quiet: false }
    }
}

/// Sets the output format; quiet mode is kept.
pub fn set_format(state: &mut OutputState, format: OutputFormat)
    ensures
        final(state)@.0 == format_code(format),
        final(state)@.1 == old(state)@.1,
{
    let value: u8 = match format {
        OutputFormat::Table => 0,
        OutputFormat::Json => 1,
        OutputFormat::Compact => 2,
    };
    state.format_code = value;
}

/// The output format.
pub fn get_format(state: &OutputState) -> (r: OutputFormat)
    ensures
        r == format_of(state@.0),
{
    match state.format_code {
        1 => OutputFormat::Json,
        2 => OutputFormat::Compact,
        _ => OutputFormat::Table,
    }
}

/// Sets quiet mode; the format is kept.
pub fn set_quiet(state: &mut OutputState, quiet: bool)
    ensures
        final(state)@.1 == quiet,
        final(state)@.0 == old(state)@.0,
{
    state.quiet = quiet;
}

/// Whether success messages are suppressed.
pub fn is_quiet(state: &OutputState) -> (r: bool)
    ensures
        r == state@.1,
{
    state.quiet
}

/// A green `✓`, a space and the message: what a success prints, unless quiet
/// mode suppresses it.
pub fn success_line(state: &OutputState, message: &str) -> (r: Option<String>)
    ensures
        r is None <==> state@.1,
        r matches Some(line) ==> (line@ == "✓"@ + " "@ + message@
            || line@ == ansi_styled(Tone::Green, "✓"@) + " "@ + message@),
{
    if state.quiet {
        return None;
    }
    let mut line = paint("✓", Tone::Green);
    line.append(" ");
    line.append(message);
    Some(line)
}

/// A red `✗`, a space and the message: what an error prints.
pub fn error_line(message: &str) -> (r: String)
    ensures
        r@ == "✗"@ + " "@ + message@ || r@ == ansi_styled(Tone::Red, "✗"@) + " "@ + message@,
{
    let mut line = paint("✗", Tone::Red);
    line.append(" ");
    line.append(message);
    line
}

/// Reading the format back after setting it gives the format that was set.
pub proof fn lemma_format_roundtrip(f: OutputFormat)
    ensures
        format_of(format_code(f)) == f,
{
}

} // verus!
