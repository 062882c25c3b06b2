//! Event attachments: their sizes in human units, the table that lists them,
//! and the choice of the attachment to download.

use vstd::prelude::*;
use crate::api::models::event::Attachment;
use crate::error::SentryCliError;
use crate::text::{
    last_index_of, decimal, ends_with, ends_with_spec, owned, pad_right, pad_right_spec, push_char, push_decimal, repeat_char,
    repeated, text_eq,
};

verus! {

// ---------------------------------------------------------------- sizes

/// The spacing of 64-bit floats around `n`: 1 below 2^53, doubling with each
/// further bit of `n`, so that a multiple of it keeps 53 significant bits.
pub open spec fn float_step(n: nat) -> nat {
    if n < 0x20_0000_0000_0000 { 1 }
    else if n < 0x40_0000_0000_0000 { 2 }
    else if n < 0x80_0000_0000_0000 { 4 }
    else if n < 0x100_0000_0000_0000 { 8 }
    else if n < 0x200_0000_0000_0000 { 16 }
    else if n < 0x400_0000_0000_0000 { 32 }
    else if n < 0x800_0000_0000_0000 { 64 }
    else if n < 0x1000_0000_0000_0000 { 128 }
    else if n < 0x2000_0000_0000_0000 { 256 }
    else if n < 0x4000_0000_0000_0000 { 512 }
    else if n < 0x8000_0000_0000_0000 { 1024 }
    else { 2048 }
}

/// `a / d` rounded to the nearest integer, a tie going to the even one.
pub open spec fn div_round_even(a: nat, d: nat) -> nat {
    let q = a / d;
    let r = a % d;
    if 2 * r > d || (2 * r == d && q % 2 == 1) { q + 1 } else { q }
}

/// The value of `n` once converted to a 64-bit float: `n` rounded to the nearest
/// multiple of its float spacing, a tie going to the even multiple.
pub open spec fn as_float(n: nat) -> nat {
    float_step(n) * div_round_even(n, float_step(n))
}

/// A count of tenths written with one decimal: `12` is `1.2`.
pub open spec fn tenths_text(t: nat) -> Seq<char> {
    decimal(t / 10) + "."@ + decimal(t % 10)
}

/// A size in bytes for people to read: bytes below 1 KiB; else KiB below 1 MiB;
/// else MiB; KiB and MiB with one decimal, the size (as a 64-bit float)
/// rounded to the nearest tenth, a tie going to the even tenth.
pub open spec fn format_size_spec(bytes: nat) -> Seq<char> {
    if bytes < 1024 {
        decimal(bytes) + " B"@
    } else if bytes < 1024 * 1024 {
        tenths_text(div_round_even(as_float(bytes) * 10, 1024)) + " KB"@
    } else {
        tenths_text(div_round_even(as_float(bytes) * 10, 1024 * 1024)) + " MB"@
    }
}

fn float_step_of(n: u64) -> (p: u64)
    ensures
        p == float_step(n as nat),
        1 <= p <= 2048,
{
    if n < 0x20_0000_0000_0000 { 1 }
    else if n < 0x40_0000_0000_0000 { 2 }
    else if n < 0x80_0000_0000_0000 { 4 }
    else if n < 0x100_0000_0000_0000 { 8 }
    else if n < 0x200_0000_0000_0000 { 16 }
    else if n < 0x400_0000_0000_0000 { 32 }
    else if n < 0x800_0000_0000_0000 { 64 }
    else if n < 0x1000_0000_0000_0000 { 128 }
    else if n < 0x2000_0000_0000_0000 { 256 }
    else if n < 0x4000_0000_0000_0000 { 512 }
    else if n < 0x8000_0000_0000_0000 { 1024 }
    else { 2048 }
}

fn div_round_even_of(a: u128, d: u128) -> (r: u128)
    requires
        1 <= d <= 0x10_0000,
        a <= 0x1_0000_0000_0000_0000_0000_0000,
    ensures
        r == div_round_even(a as nat, d as nat),
        r <= a / d + 1,
        r <= a + 1,
{
    let q = a / d;
    let rem = a % d;
    assert(q <= a) by (nonlinear_arith)
        requires
            d >= 1,
            q == a / d,
    ;
    if 2 * rem > d || (2 * rem == d && q % 2 == 1) {
        q + 1
    } else {
        q
    }
}

/// `n` converted to a 64-bit float, as an exact integer.
fn as_float_of(n: u64) -> (f: u128)
    ensures
        f == as_float(n as nat),
        f <= 0x1_0000_0000_0000_0000 + 2048,
{
    let p = float_step_of(n);
    let m = div_round_even_of(n as u128, p as u128);
    proof {
        let q = (n as int) / (p as int);
        let r = (n as int) % (p as int);
        vstd::arithmetic::div_mod::lemma_fundamental_div_mod(n as int, p as int);
        assert(m * p <= n + p) by (nonlinear_arith)
            requires
                m <= q + 1,
                n == p * q + r,
                0 <= r,
                1 <= p,
        ;
    }
    (p as u128) * m
}

/// Appends `t` tenths written with one decimal.
fn push_tenths(s: &mut String, t: u128)
    requires
        t < 0x1_0000_0000_0000_0000,
    ensures
        final(s)@ == old(s)@ + tenths_text(t as nat),
{
    push_decimal(s, (t / 10) as u64);
    push_char(s, '.');
    push_decimal(s, (t % 10) as u64);
    proof {
        reveal_strlit(".");
    }
    assert(final(s)@ =~= old(s)@ + tenths_text(t as nat));
}

/// A size in bytes for people to read: `512 B`, `1.5 KB`, `2.0 MB`.
pub fn format_size(bytes: u64) -> (r: String)
    ensures
        r@ == format_size_spec(bytes as nat),
{
    let mut s = String::new();
    if bytes < 1024 {
        push_decimal(&mut s, bytes);
        s.append(" B");
        return s;
    }
    let f = as_float_of(bytes);
    if bytes < 1024 * 1024 {
        assert(f < 0x1_0000_0000) by {
            assert(float_step(bytes as nat) == 1);
            assert(div_round_even(bytes as nat, 1) == bytes) by (nonlinear_arith)
                requires
                    bytes >= 0,
            ;
        }
        let t = div_round_even_of(f * 10, 1024);
        push_tenths(&mut s, t);
        s.append(" KB");
    } else {
        let t = div_round_even_of(f * 10, 1024 * 1024);
        let ghost x: int = (f * 10) as int;
        assert(x / 0x10_0000 < 0x1_0000_0000_0000) by {
            vstd::arithmetic::div_mod::lemma_multiply_divide_lt(x, 0x10_0000, 0x1_0000_0000_0000);
        }
        push_tenths(&mut s, t);
        s.append(" MB");
    }
    s
}

// ---------------------------------------------------------------- the listing

/// The size column of an attachment: its size for people to read, or `?`.
pub open spec fn size_cell(size: Option<u64>) -> Seq<char> {
    match size {
        Some(b) => format_size_spec(b as nat),
        None => "?"@,
    }
}

/// A line of four left-aligned columns 12, 30, 20 and 10 wide, one space apart.
pub open spec fn columns(a: Seq<char>, b: Seq<char>, c: Seq<char>, d: Seq<char>) -> Seq<char> {
    pad_right_spec(a, 12) + " "@ + pad_right_spec(b, 30) + " "@ + pad_right_spec(c, 20) + " "@ + pad_right_spec(d, 10)
}

/// The line that lists one attachment: its id, name, type and size.
pub open spec fn attachment_line_spec(a: Attachment) -> Seq<char> {
    columns(a.id@, a.name@, a.attachment_type@, size_cell(a.size))
}

/// The listing of the attachments of the event `event_id`: a heading, a rule of
/// 75 `-` and a line per attachment; or a sentence saying there are none.
pub open spec fn attachments_listing(event_id: Seq<char>, attachments: Seq<Attachment>) -> Seq<Seq<char>> {
    if attachments.len() == 0 {
        seq!["No attachments found for event "@ + event_id]
    } else {
        seq![columns("ID"@, "Name"@, "Type"@, "Size"@), repeated('-', 75)]
            + Seq::new(attachments.len(), |i: int| attachment_line_spec(attachments[i]))
    }
}

fn columns_line(a: &str, b: &str, c: &str, d: &str) -> (r: String)
    ensures
        r@ == columns(a@, b@, c@, d@),
{
    let mut r = pad_right(a, 12);
    r.append(" ");
    let pb = pad_right(b, 30);
    r.append(pb.as_str());
    r.append(" ");
    let pc = pad_right(c, 20);
    r.append(pc.as_str());
    r.append(" ");
    let pd = pad_right(d, 10);
    r.append(pd.as_str());
    r
}

/// The line that lists one attachment.
pub fn attachment_line(a: &Attachment) -> (r: String)
    ensures
        r@ == attachment_line_spec(*a),
{
    let size = match a.size {
        Some(b) => format_size(b),
        None => owned("?"),
    };
    columns_line(a.id.as_str(), a.name.as_str(), a.attachment_type.as_str(), size.as_str())
}

/// The lines that list the attachments of the event `event_id`.
pub fn attachments_table_lines(event_id: &str, attachments: &Vec<Attachment>) -> (r: Vec<String>)
    ensures
        r.deep_view() == attachments_listing(event_id@, attachments@),
{
    let mut out: Vec<String> = Vec::new();
    if attachments.len() == 0 {
        let mut m = owned("No attachments found for event ");
        m.append(event_id);
        out.push(m);
        assert(out.deep_view() =~= attachments_listing(event_id@, attachments@));
        return out;
    }
    out.push(columns_line("ID", "Name", "Type", "Size"));
    out.push(repeat_char('-', 75));
    let n = attachments.len();
    let mut i: usize = 0;
    while i < n
        invariant
            n == attachments.len(),
            i <= n,
            out.deep_view() =~= seq![columns("ID"@, "Name"@, "Type"@, "Size"@), repeated('-', 75)]
                + Seq::new(i as nat, |k: int| attachment_line_spec(attachments@[k])),
        decreases n - i,
    {
        let ghost prev = out.deep_view();
        let line = attachment_line(&attachments[i]);
        out.push(line);
        assert(out.deep_view() =~= prev.push(attachment_line_spec(attachments@[i as int])));
        i = i + 1;
    }
    out
}

// ---------------------------------------------------------------- download

/// Whether an attachment looks like a crash dump: a minidump by its type, or a
/// name ending in `.dmp` or `.mdmp`.
pub open spec fn is_dump(a: Attachment) -> bool {
    ||| a.attachment_type@ == "event.minidump"@
    ||| ends_with_spec(a.name@, ".dmp"@)
    ||| ends_with_spec(a.name@, ".mdmp"@)
}

fn looks_like_dump(a: &Attachment) -> (r: bool)
    ensures
        r == is_dump(*a),
{
    text_eq(a.attachment_type.as_str(), "event.minidump") || ends_with(a.name.as_str(), ".dmp")
        || ends_with(a.name.as_str(), ".mdmp")
}

/// The position of the attachment to download: the first with the id `id` when
/// one is asked for, else the first crash dump, else the first attachment.
/// Without attachments, or without one of the id asked for, a not-found error.
pub fn choose_attachment(attachments: &Vec<Attachment>, id: Option<&str>) -> (r: Result<usize, SentryCliError>)
    ensures
        attachments.len() == 0 ==> (r matches Err(SentryCliError::NotFound(m))
            && m@ == "No attachments found for this event"@),
        attachments.len() > 0 ==> match id {
            Some(want) => match r {
                Ok(i) => i < attachments.len() && attachments@[i as int].id@ == want@
                    && forall|j: int| 0 <= j < i ==> (#[trigger] attachments@[j]).id@ != want@,
                Err(e) => {
                    &&& forall|j: int| 0 <= j < attachments.len() ==> (#[trigger] attachments@[j]).id@ != want@
                    &&& e matches SentryCliError::NotFound(m)
                    &&& m@ == "Attachment "@ + want@ + " not found"@
                },
            },
            None => r matches Ok(i) && i < attachments.len() && ({
                ||| is_dump(attachments@[i as int]) && forall|j: int| 0 <= j < i ==> !is_dump(#[trigger] attachments@[j])
                ||| i == 0 && forall|j: int| 0 <= j < attachments.len() ==> !is_dump(#[trigger] attachments@[j])
            }),
        },
{
    if attachments.len() == 0 {
        return Err(SentryCliError::NotFound(owned("No attachments found for this event")));
    }
    let n = attachments.len();
    let mut i: usize = 0;
    match id {
        Some(want) => {
            while i < n
                invariant
                    n == attachments.len(),
                    n > 0,
                    id == Some(want),
                    i <= n,
                    forall|j: int| 0 <= j < i ==> (#[trigger] attachments@[j]).id@ != want@,
                decreases n - i,
            {
                if text_eq(attachments[i].id.as_str(), want) {
                    return Ok(i);
                }
                i = i + 1;
            }
            let mut m = owned("Attachment ");
            m.append(want);
            m.append(" not found");
            Err(SentryCliError::NotFound(m))
        },
        None => {
            while i < n
                invariant
                    n == attachments.len(),
                    n > 0,
                    id.is_none(),
                    i <= n,
                    forall|j: int| 0 <= j < i ==> !is_dump(#[trigger] attachments@[j]),
                decreases n - i,
            {
                if looks_like_dump(&attachments[i]) {
                    return Ok(i);
                }
                i = i + 1;
            }
            Ok(0)
        },
    }
}

/// The name under which a downloaded attachment is saved: the last component of
/// its name, when the name has one (`found`), else `attachment-` and its id.
pub fn saved_name(found: Option<String>, attachment_id: &str) -> (r: String)
    ensures
        r@ == match found {
            Some(f) => f@,
            None => "attachment-"@ + attachment_id@,
        },
{
    match found {
        Some(f) => f,
        None => {
            let mut r = owned("attachment-");
            r.append(attachment_id);
            r
        },
    }
}

/// Whether `part` stands somewhere in `whole`, as a run of its characters.
pub open spec fn is_part_of(part: Seq<char>, whole: Seq<char>) -> bool {
    exists|i: int| 0 <= i && i + part.len() <= whole.len() && part == #[trigger] whole.subrange(i, i + part.len())
}

/// A name that is a single path component on every platform: not empty, without
/// `/`, `\` or `:`, and neither `.` nor `..`.
pub open spec fn is_plain_file_name(name: Seq<char>) -> bool {
    &&& name.len() > 0
    &&& !name.contains('/')
    &&& !name.contains('\\')
    &&& !name.contains(':')
    &&& name != "."@
    &&& name != ".."@
}

/// A path without what ends it but names no further component: trailing `/`
/// and trailing `/.`.
pub open spec fn strip_path_end(s: Seq<char>) -> Seq<char>
    decreases s.len(),
{
    if s.len() > 0 && s.last() == '/' {
        strip_path_end(s.drop_last())
    } else if s.len() >= 2 && s.last() == '.' && s[s.len() - 2] == '/' {
        strip_path_end(s.take(s.len() - 2))
    } else {
        s
    }
}

/// The last part of a path: what follows the last `/` once trailing `/` and `/.`
/// are set aside (the whole path when it holds no `/`).
pub open spec fn last_path_part(name: Seq<char>) -> Seq<char> {
    let t = strip_path_end(name);
    match last_index_of(t, '/') {
        Some(i) => t.skip(i + 1),
        None => t,
    }
}

/// The last component of the path `name`: std's `Path::file_name`, as text
/// (`to_string_lossy`, which keeps the text of a `&str` as it is). Trusted: a
/// component found is a non-empty run of the name's characters, holds no `/`,
/// and is neither `.` nor `..`. When the last part of the path (after its last
/// `/`, trailing `/` and `/.` set aside, as `Path::components` normalises them)
/// is a single component on every platform, that part is the component found.
/// Other names (those whose last part holds `\\` or `:`, or is `..`) rest on the
/// platform's path rules, and the contract leaves them unsaid.
#[verifier::external_body]
fn path_file_name(name: &str) -> (r: Option<String>)
    ensures
        r matches Some(f) ==> f@.len() > 0 && !f@.contains('/') && f@ != "."@ && f@ != ".."@ && is_part_of(f@, name@),
        r matches Some(f) ==> (is_plain_file_name(last_path_part(name@)) ==> f@ == last_path_part(name@)),
        r is None ==> !is_plain_file_name(last_path_part(name@)),
{
    match std::path::Path::new(name).file_name() {
        Some(n) => Some(n.to_string_lossy().to_string()),
        None => None,
    }
}

/// The name under which the attachment `a` is saved: the last component of its
/// name, else `attachment-` and its id. Unless it is that default, it is a
/// non-empty part of the attachment's name that holds no `/` and is neither `.`
/// nor `..`, so that it stays in the directory it is saved into. When the last
/// part of the attachment's name (after its last `/`) is a single component, that
/// part is the name it is saved under: `logs/report.txt` is saved as `report.txt`.
pub fn attachment_save_name(a: &Attachment) -> (r: String)
    ensures
        r@ == "attachment-"@ + a.id@ || (r@.len() > 0 && !r@.contains('/') && r@ != "."@ && r@ != ".."@
            && is_part_of(r@, a.name@)),
        is_plain_file_name(last_path_part(a.name@)) ==> r@ == last_path_part(a.name@),
{
    let found = path_file_name(a.name.as_str());
    saved_name(found, a.id.as_str())
}

/// Whether the output path names a directory to save into: it is one already,
/// or it ends with `/`.
pub fn is_directory_target(output: &str, is_dir: bool) -> (r: bool)
    ensures
        r == (is_dir || ends_with_spec(output@, "/"@)),
{
    is_dir || ends_with(output, "/")
}

/// The message after a download: `Downloaded NAME (SIZE) to PATH`.
pub fn download_message(name: &str, bytes: u64, path: &str) -> (r: String)
    ensures
        r@ == "Downloaded "@ + name@ + " ("@ + format_size_spec(bytes as nat) + ") to "@ + path@,
{
    let mut r = owned("Downloaded ");
    r.append(name);
    r.append(" (");
    let size = format_size(bytes);
    r.append(size.as_str());
    r.append(") to ");
    r.append(path);
    r
}

} // verus!
