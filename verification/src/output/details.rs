//! The detailed views of an issue, an event and a release, as lines of coloured
//! pieces.

use vstd::prelude::*;
use crate::api::models::event::{
    Breadcrumb, BreadcrumbsData, ContextEntry, ContextField, ContextScalar, ContextValue, Event, EventEntry,
    EventTag, ExceptionValue, StackFrame,
};
use crate::style::{
    appended, emit0, emit1, emit3, emit4, emit5, emit6, lemma_appended_none, lines_match, LinePlan, Tone,
};
use crate::api::models::issue::Issue;
use crate::api::models::release::Release;
use crate::output::table::{status_title, status_tone};
use crate::text::{
    decimal, owned, pad_left, pad_left_spec, pad_right, pad_right_spec, push_decimal, repeat_char, repeated, text_eq,
    u64_to_string,
};
use crate::time::{format_ymd_hms_utc, parse_rfc3339, spec_format_ymd_hms_utc, spec_parse_rfc3339};

verus! {

/// A piece without styling.
pub open spec fn plain(t: Seq<char>) -> (Tone, Seq<char>) {
    (Tone::Plain, t)
}

/// The text of an optional string, or `default` when it is absent.
pub open spec fn text_or(o: Option<String>, default: Seq<char>) -> Seq<char> {
    match o {
        Some(s) => s@,
        None => default,
    }
}

/// The separator line of 80 `=`.
pub open spec fn separator() -> Seq<char> {
    repeated('=', 80)
}

/// The text of an optional string, or `default` when it is absent.
fn string_or(o: &Option<String>, default: &str) -> (r: String)
    ensures
        r@ == text_or(*o, default@),
{
    match o {
        Some(s) => s.clone(),
        None => owned(default),
    }
}

/// `prefix` followed by `rest`.
fn joined(prefix: &str, rest: &str) -> (r: String)
    ensures
        r@ == prefix@ + rest@,
{
    let mut r = owned(prefix);
    r.append(rest);
    r
}

// ---------------------------------------------------------------- stack frames

/// The lines of one stack frame: a marker (`▶ ` in green for the application's own
/// code), the function in cyan and the file dimmed, with the line number when
/// known; then the source line under its right-aligned line number, when both are
/// known.
pub open spec fn frame_plan(f: StackFrame) -> Seq<LinePlan> {
    let marker = if f.in_app { (Tone::Green, "▶ "@) } else { plain("  "@) };
    let function = text_or(f.function, "<unknown>"@);
    let filename = text_or(f.filename, "<unknown>"@);
    let head = match f.lineno {
        Some(n) => seq![marker, plain("  "@), (Tone::Cyan, function), plain(" in "@), (Tone::Dimmed, filename), plain(":"@ + decimal(n as nat))],
        None => seq![marker, plain("  "@), (Tone::Cyan, function), plain(" in "@), (Tone::Dimmed, filename)],
    };
    let context = match f.context_line {
        Some(cl) => match f.lineno {
            Some(n) => seq![seq![plain("      "@), (Tone::Dimmed, pad_left_spec(decimal(n as nat), 4)), plain(" "@ + cl@)]],
            None => Seq::<LinePlan>::empty(),
        },
        None => Seq::<LinePlan>::empty(),
    };
    seq![head] + context
}

fn frame_lines(
    out: &mut Vec<Vec<String>>,
    f: &StackFrame,
    Ghost(base): Ghost<Seq<Seq<Seq<char>>>>,
    Ghost(plan): Ghost<Seq<LinePlan>>,
) -> (g: Ghost<Seq<LinePlan>>)
    requires
        appended(base, old(out).deep_view(), plan),
    ensures
        g@ == plan + frame_plan(*f),
        appended(base, final(out).deep_view(), g@),
{
    let (marker, marker_tone) = if f.in_app {
        (owned("▶ "), Tone::Green)
    } else {
        (owned("  "), Tone::Plain)
    };
    let function = string_or(&f.function, "<unknown>");
    let filename = string_or(&f.filename, "<unknown>");
    let g = match f.lineno {
        Some(n) => {
            let mut tail = owned(":");
            push_decimal(&mut tail, n as u64);
            emit6(out, marker, marker_tone, owned("  "), Tone::Plain, function, Tone::Cyan, owned(" in "), Tone::Plain,
                filename, Tone::Dimmed, tail, Tone::Plain, Ghost(base), Ghost(plan))
        },
        None => emit5(out, marker, marker_tone, owned("  "), Tone::Plain, function, Tone::Cyan, owned(" in "), Tone::Plain,
            filename, Tone::Dimmed, Ghost(base), Ghost(plan)),
    };
    let g2 = match &f.context_line {
        Some(cl) => match f.lineno {
            Some(n) => {
                let num = u64_to_string(n as u64);
                emit3(out, owned("      "), Tone::Plain, pad_left(num.as_str(), 4), Tone::Dimmed, joined(" ", cl.as_str()),
                    Tone::Plain, Ghost(base), g)
            },
            None => g,
        },
        None => g,
    };
    assert(g2@ =~= plan + frame_plan(*f));
    g2
}

/// The lines of stack frames, most recent (last) first.
pub open spec fn frames_rev_plan(fs: Seq<StackFrame>) -> Seq<LinePlan>
    decreases fs.len(),
{
    if fs.len() == 0 {
        Seq::<LinePlan>::empty()
    } else {
        frames_rev_plan(fs.drop_first()) + frame_plan(fs[0])
    }
}

fn frames_rev_lines(
    out: &mut Vec<Vec<String>>,
    frames: &Vec<StackFrame>,
    Ghost(base): Ghost<Seq<Seq<Seq<char>>>>,
    Ghost(plan): Ghost<Seq<LinePlan>>,
) -> (g: Ghost<Seq<LinePlan>>)
    requires
        appended(base, old(out).deep_view(), plan),
    ensures
        g@ == plan + frames_rev_plan(frames@),
        appended(base, final(out).deep_view(), g@),
{
    let n = frames.len();
    let mut j: usize = n;
    let mut g: Ghost<Seq<LinePlan>> = Ghost(plan);
    assert(frames@.skip(n as int) =~= Seq::<StackFrame>::empty());
    assert(plan + frames_rev_plan(frames@.skip(n as int)) =~= plan);
    while j > 0
        invariant
            n == frames@.len(),
            j <= n,
            g@ == plan + frames_rev_plan(frames@.skip(j as int)),
            appended(base, out.deep_view(), g@),
        decreases j,
    {
        let ghost prev = g@;
        g = frame_lines(out, &frames[j - 1], Ghost(base), g);
        proof {
            let s = frames@.skip(j - 1);
            assert(s.drop_first() =~= frames@.skip(j as int));
            assert(s[0] == frames@[j - 1]);
            assert(g@ =~= plan + frames_rev_plan(s));
        }
        j = j - 1;
    }
    assert(frames@.skip(0) =~= frames@);
    g
}

// ---------------------------------------------------------------- exceptions

/// The lines of one exception: its heading, its type in red, its value, and its
/// stack trace when it has one.
pub open spec fn exception_plan(e: ExceptionValue) -> Seq<LinePlan> {
    seq![
        seq![plain("\n"@), (Tone::BoldRed, "Exception"@), plain(":"@)],
        seq![plain("  "@), (Tone::Bold, "Type"@), plain(": "@), (Tone::Red, e.exception_type@)],
        seq![plain("  "@), (Tone::Bold, "Value"@), plain(": "@ + e.value@)],
    ] + match e.stacktrace {
        Some(st) => seq![seq![plain("\n  "@), (Tone::Bold, "Stack Trace"@), plain(":"@)]] + frames_rev_plan(st.frames@),
        None => Seq::<LinePlan>::empty(),
    }
}

fn exception_lines(
    out: &mut Vec<Vec<String>>,
    e: &ExceptionValue,
    Ghost(base): Ghost<Seq<Seq<Seq<char>>>>,
    Ghost(plan): Ghost<Seq<LinePlan>>,
) -> (g: Ghost<Seq<LinePlan>>)
    requires
        appended(base, old(out).deep_view(), plan),
    ensures
        g@ == plan + exception_plan(*e),
        appended(base, final(out).deep_view(), g@),
{
    let g = emit3(out, owned("\n"), Tone::Plain, owned("Exception"), Tone::BoldRed, owned(":"), Tone::Plain, Ghost(base), Ghost(plan));
    let g = emit4(out, owned("  "), Tone::Plain, owned("Type"), Tone::Bold, owned(": "), Tone::Plain, e.exception_type.clone(),
        Tone::Red, Ghost(base), g);
    let g = emit3(out, owned("  "), Tone::Plain, owned("Value"), Tone::Bold, joined(": ", e.value.as_str()), Tone::Plain,
        Ghost(base), g);
    let ghost g3 = g@;
    let g = match &e.stacktrace {
        Some(st) => {
            let g = emit3(out, owned("\n  "), Tone::Plain, owned("Stack Trace"), Tone::Bold, owned(":"), Tone::Plain, Ghost(base), g);
            frames_rev_lines(out, &st.frames, Ghost(base), g)
        },
        None => g,
    };
    assert(g@ =~= plan + exception_plan(*e));
    g
}

/// The line that introduces an exception caused by the one before.
pub open spec fn caused_by_plan() -> Seq<LinePlan> {
    seq![seq![plain("\n"@), (Tone::BoldYellow, "Caused by:"@)]]
}

/// The lines of a chain of exceptions, each after the first introduced as its cause.
pub open spec fn exceptions_plan(vs: Seq<ExceptionValue>) -> Seq<LinePlan>
    decreases vs.len(),
{
    if vs.len() == 0 {
        Seq::<LinePlan>::empty()
    } else {
        exceptions_plan(vs.drop_last()) + (if vs.len() > 1 { caused_by_plan() } else { Seq::<LinePlan>::empty() })
            + exception_plan(vs.last())
    }
}

fn exceptions_lines(
    out: &mut Vec<Vec<String>>,
    values: &Vec<ExceptionValue>,
    Ghost(base): Ghost<Seq<Seq<Seq<char>>>>,
    Ghost(plan): Ghost<Seq<LinePlan>>,
) -> (g: Ghost<Seq<LinePlan>>)
    requires
        appended(base, old(out).deep_view(), plan),
    ensures
        g@ == plan + exceptions_plan(values@),
        appended(base, final(out).deep_view(), g@),
{
    let n = values.len();
    let mut i: usize = 0;
    let mut g: Ghost<Seq<LinePlan>> = Ghost(plan);
    assert(values@.take(0) =~= Seq::<ExceptionValue>::empty());
    assert(plan + exceptions_plan(values@.take(0)) =~= plan);
    while i < n
        invariant
            n == values@.len(),
            i <= n,
            g@ == plan + exceptions_plan(values@.take(i as int)),
            appended(base, out.deep_view(), g@),
        decreases n - i,
    {
        if i > 0 {
            g = emit2_caused_by(out, Ghost(base), g);
        }
        g = exception_lines(out, &values[i], Ghost(base), g);
        proof {
            let s = values@.take(i + 1);
            assert(s.drop_last() =~= values@.take(i as int));
            assert(s.last() == values@[i as int]);
            assert(g@ =~= plan + exceptions_plan(s));
        }
        i = i + 1;
    }
    assert(values@.take(n as int) =~= values@);
    g
}

fn emit2_caused_by(
    out: &mut Vec<Vec<String>>,
    Ghost(base): Ghost<Seq<Seq<Seq<char>>>>,
    Ghost(plan): Ghost<Seq<LinePlan>>,
) -> (g: Ghost<Seq<LinePlan>>)
    requires
        appended(base, old(out).deep_view(), plan),
    ensures
        g@ == plan + caused_by_plan(),
        appended(base, final(out).deep_view(), g@),
{
    let g = crate::style::emit2(out, owned("\n"), Tone::Plain, owned("Caused by:"), Tone::BoldYellow, Ghost(base), Ghost(plan));
    assert(g@ =~= plan + caused_by_plan());
    g
}

// ---------------------------------------------------------------- entries

/// The lines that an entry of an event prints: an exception chain, or a message
/// under its heading; other entries print nothing here.
pub open spec fn entry_plan(e: EventEntry) -> Seq<LinePlan> {
    match e {
        EventEntry::Exception { data } => exceptions_plan(data.values@),
        EventEntry::Message { data } => seq![
            seq![plain("\n"@), (Tone::Bold, "Message"@), plain(":"@)],
            seq![plain(data.formatted@)],
        ],
        _ => Seq::<LinePlan>::empty(),
    }
}

/// The lines of the entries of an event, in order.
pub open spec fn entries_plan(es: Seq<EventEntry>) -> Seq<LinePlan>
    decreases es.len(),
{
    if es.len() == 0 {
        Seq::<LinePlan>::empty()
    } else {
        entries_plan(es.drop_last()) + entry_plan(es.last())
    }
}

fn entry_lines(
    out: &mut Vec<Vec<String>>,
    e: &EventEntry,
    Ghost(base): Ghost<Seq<Seq<Seq<char>>>>,
    Ghost(plan): Ghost<Seq<LinePlan>>,
) -> (g: Ghost<Seq<LinePlan>>)
    requires
        appended(base, old(out).deep_view(), plan),
    ensures
        g@ == plan + entry_plan(*e),
        appended(base, final(out).deep_view(), g@),
{
    match e {
        EventEntry::Exception { data } => exceptions_lines(out, &data.values, Ghost(base), Ghost(plan)),
        EventEntry::Message { data } => {
            let g = emit3(out, owned("\n"), Tone::Plain, owned("Message"), Tone::Bold, owned(":"), Tone::Plain, Ghost(base), Ghost(plan));
            let g = emit1(out, data.formatted.clone(), Tone::Plain, Ghost(base), g);
            assert(g@ =~= plan + entry_plan(*e));
            g
        },
        _ => {
            assert(plan + entry_plan(*e) =~= plan);
            Ghost(plan)
        },
    }
}

fn entries_lines(
    out: &mut Vec<Vec<String>>,
    entries: &Vec<EventEntry>,
    Ghost(base): Ghost<Seq<Seq<Seq<char>>>>,
    Ghost(plan): Ghost<Seq<LinePlan>>,
) -> (g: Ghost<Seq<LinePlan>>)
    requires
        appended(base, old(out).deep_view(), plan),
    ensures
        g@ == plan + entries_plan(entries@),
        appended(base, final(out).deep_view(), g@),
{
    let n = entries.len();
    let mut i: usize = 0;
    let mut g: Ghost<Seq<LinePlan>> = Ghost(plan);
    assert(entries@.take(0) =~= Seq::<EventEntry>::empty());
    assert(plan + entries_plan(entries@.take(0)) =~= plan);
    while i < n
        invariant
            n == entries@.len(),
            i <= n,
            g@ == plan + entries_plan(entries@.take(i as int)),
            appended(base, out.deep_view(), g@),
        decreases n - i,
    {
        g = entry_lines(out, &entries[i], Ghost(base), g);
        proof {
            let s = entries@.take(i + 1);
            assert(s.drop_last() =~= entries@.take(i as int));
            assert(s.last() == entries@[i as int]);
            assert(g@ =~= plan + entries_plan(s));
        }
        i = i + 1;
    }
    assert(entries@.take(n as int) =~= entries@);
    g
}

// ---------------------------------------------------------------- breadcrumbs

/// The level of a breadcrumb, `info` when it has none.
pub open spec fn crumb_level(b: Breadcrumb) -> Seq<char> {
    text_or(b.level, "info"@)
}

/// The tone of a breadcrumb's message: red for errors, yellow for warnings.
pub open spec fn crumb_tone(level: Seq<char>) -> Tone {
    if level == "error"@ {
        Tone::Red
    } else if level == "warning"@ {
        Tone::Yellow
    } else {
        Tone::Plain
    }
}

/// The line of one breadcrumb: its time dimmed, its category in cyan (`default`
/// when none), its level and its message in the level's tone.
pub open spec fn crumb_plan(b: Breadcrumb) -> LinePlan {
    seq![
        plain("  "@),
        (Tone::Dimmed, text_or(b.timestamp, ""@)),
        plain(" ["@),
        (Tone::Cyan, text_or(b.category, "default"@)),
        plain("] "@ + crumb_level(b) + ": "@),
        (crumb_tone(crumb_level(b)), text_or(b.message, ""@)),
    ]
}

/// The lines of breadcrumbs, in order.
pub open spec fn crumbs_plan(bs: Seq<Breadcrumb>) -> Seq<LinePlan>
    decreases bs.len(),
{
    if bs.len() == 0 {
        Seq::<LinePlan>::empty()
    } else {
        crumbs_plan(bs.drop_last()).push(crumb_plan(bs.last()))
    }
}

/// Where the shown breadcrumbs start: only the last 10 are shown.
pub open spec fn crumbs_start(n: nat) -> int {
    if n > 10 { n - 10 } else { 0 }
}

/// The breadcrumbs section: nothing when there are none; otherwise its heading and
/// the last 10 breadcrumbs.
pub open spec fn breadcrumbs_plan(bs: Seq<Breadcrumb>) -> Seq<LinePlan> {
    if bs.len() == 0 {
        Seq::<LinePlan>::empty()
    } else {
        seq![seq![plain("\n"@), (Tone::Bold, "Breadcrumbs"@), plain(":"@)]] + crumbs_plan(bs.skip(crumbs_start(bs.len())))
    }
}

/// One line per breadcrumb.
proof fn lemma_crumbs_len(bs: Seq<Breadcrumb>)
    ensures
        crumbs_plan(bs).len() == bs.len(),
        forall|i: int| 0 <= i < bs.len() ==> #[trigger] crumbs_plan(bs)[i] == crumb_plan(bs[i]),
    decreases bs.len(),
{
    if bs.len() > 0 {
        lemma_crumbs_len(bs.drop_last());
        assert forall|i: int| 0 <= i < bs.len() implies #[trigger] crumbs_plan(bs)[i] == crumb_plan(bs[i]) by {
            if i < bs.len() - 1 {
                assert(bs.drop_last()[i] == bs[i]);
            }
        }
    }
}

/// The breadcrumbs section shows at most the last 10 breadcrumbs, under a heading:
/// line `k + 1` shows breadcrumb `len - shown + k`.
pub proof fn lemma_breadcrumbs_last_ten(bs: Seq<Breadcrumb>)
    requires
        bs.len() > 0,
    ensures
        breadcrumbs_plan(bs).len() == 1 + (if bs.len() > 10 { 10 } else { bs.len() as int }),
        forall|k: int| 0 <= k < breadcrumbs_plan(bs).len() - 1 ==> #[trigger] breadcrumbs_plan(bs)[k + 1]
            == crumb_plan(bs[bs.len() - (breadcrumbs_plan(bs).len() - 1) + k]),
{
    let shown = bs.skip(crumbs_start(bs.len()));
    lemma_crumbs_len(shown);
    assert forall|k: int| 0 <= k < breadcrumbs_plan(bs).len() - 1 implies #[trigger] breadcrumbs_plan(bs)[k + 1]
        == crumb_plan(bs[bs.len() - (breadcrumbs_plan(bs).len() - 1) + k]) by {
        assert(breadcrumbs_plan(bs)[k + 1] == crumbs_plan(shown)[k]);
        assert(shown[k] == bs[crumbs_start(bs.len()) + k]);
    }
}

fn crumb_lines(
    out: &mut Vec<Vec<String>>,
    b: &Breadcrumb,
    Ghost(base): Ghost<Seq<Seq<Seq<char>>>>,
    Ghost(plan): Ghost<Seq<LinePlan>>,
) -> (g: Ghost<Seq<LinePlan>>)
    requires
        appended(base, old(out).deep_view(), plan),
    ensures
        g@ == plan.push(crumb_plan(*b)),
        appended(base, final(out).deep_view(), g@),
{
    let timestamp = string_or(&b.timestamp, "");
    let category = string_or(&b.category, "default");
    let level = string_or(&b.level, "info");
    let message = string_or(&b.message, "");
    let tone = if text_eq(level.as_str(), "error") {
        Tone::Red
    } else if text_eq(level.as_str(), "warning") {
        Tone::Yellow
    } else {
        Tone::Plain
    };
    let mut mid = joined("] ", level.as_str());
    mid.append(": ");
    emit6(out, owned("  "), Tone::Plain, timestamp, Tone::Dimmed, owned(" ["), Tone::Plain, category, Tone::Cyan, mid,
        Tone::Plain, message, tone, Ghost(base), Ghost(plan))
}

fn breadcrumbs_lines(
    out: &mut Vec<Vec<String>>,
    bs: &Vec<Breadcrumb>,
    Ghost(base): Ghost<Seq<Seq<Seq<char>>>>,
    Ghost(plan): Ghost<Seq<LinePlan>>,
) -> (g: Ghost<Seq<LinePlan>>)
    requires
        appended(base, old(out).deep_view(), plan),
    ensures
        g@ == plan + breadcrumbs_plan(bs@),
        appended(base, final(out).deep_view(), g@),
{
    let n = bs.len();
    if n == 0 {
        assert(plan + breadcrumbs_plan(bs@) =~= plan);
        return Ghost(plan);
    }
    let g0 = emit3(out, owned("\n"), Tone::Plain, owned("Breadcrumbs"), Tone::Bold, owned(":"), Tone::Plain, Ghost(base), Ghost(plan));
    let start: usize = if n > 10 { n - 10 } else { 0 };
    let mut i: usize = start;
    let mut g: Ghost<Seq<LinePlan>> = g0;
    assert(bs@.subrange(start as int, start as int) =~= Seq::<Breadcrumb>::empty());
    assert(g0@ + crumbs_plan(bs@.subrange(start as int, start as int)) =~= g0@);
    while i < n
        invariant
            n == bs@.len(),
            start <= i <= n,
            g@ == g0@ + crumbs_plan(bs@.subrange(start as int, i as int)),
            appended(base, out.deep_view(), g@),
        decreases n - i,
    {
        g = crumb_lines(out, &bs[i], Ghost(base), g);
        proof {
            let s = bs@.subrange(start as int, i + 1);
            assert(s.drop_last() =~= bs@.subrange(start as int, i as int));
            assert(s.last() == bs@[i as int]);
            assert(g@ =~= g0@ + crumbs_plan(s));
        }
        i = i + 1;
    }
    assert(bs@.subrange(start as int, n as int) =~= bs@.skip(crumbs_start(bs@.len())));
    assert(g@ =~= plan + breadcrumbs_plan(bs@));
    g
}

/// The breadcrumbs of the first breadcrumbs entry, if any.
pub open spec fn entries_breadcrumbs(es: Seq<EventEntry>) -> Option<BreadcrumbsData>
    decreases es.len(),
{
    if es.len() == 0 {
        None
    } else {
        match es[0] {
            EventEntry::Breadcrumbs { data } => Some(data),
            _ => entries_breadcrumbs(es.drop_first()),
        }
    }
}

/// The breadcrumbs an event shows: its own, else those of its first breadcrumbs entry.
pub open spec fn event_breadcrumbs(e: Event) -> Option<BreadcrumbsData> {
    match e.breadcrumbs {
        Some(b) => Some(b),
        None => entries_breadcrumbs(e.entries@),
    }
}

fn find_breadcrumbs(event: &Event) -> (r: Option<&BreadcrumbsData>)
    ensures
        match r {
            Some(d) => event_breadcrumbs(*event) == Some(*d),
            None => event_breadcrumbs(*event) is None,
        },
{
    match &event.breadcrumbs {
        Some(b) => return Some(b),
        None => {},
    }
    let n = event.entries.len();
    let mut i: usize = 0;
    assert(event.entries@.skip(0) =~= event.entries@);
    while i < n
        invariant
            n == event.entries@.len(),
            i <= n,
            event.breadcrumbs is None,
            entries_breadcrumbs(event.entries@) == entries_breadcrumbs(event.entries@.skip(i as int)),
        decreases n - i,
    {
        let ghost s = event.entries@.skip(i as int);
        assert(s[0] == event.entries@[i as int]);
        match &event.entries[i] {
            EventEntry::Breadcrumbs { data } => return Some(data),
            _ => {},
        }
        assert(s.drop_first() =~= event.entries@.skip(i + 1));
        i = i + 1;
    }
    assert(event.entries@.skip(n as int) =~= Seq::<EventEntry>::empty());
    None
}

// ---------------------------------------------------------------- tags and contexts

/// The line of one tag: its key in cyan and its value.
pub open spec fn tag_plan(t: EventTag) -> LinePlan {
    seq![plain("  "@), (Tone::Cyan, t.key@), plain(" = "@ + t.value@)]
}

/// The lines of tags, in order.
pub open spec fn tags_plan(ts: Seq<EventTag>) -> Seq<LinePlan>
    decreases ts.len(),
{
    if ts.len() == 0 {
        Seq::<LinePlan>::empty()
    } else {
        tags_plan(ts.drop_last()).push(tag_plan(ts.last()))
    }
}

/// The tags section: nothing when there are none; otherwise its heading and a
/// line per tag.
pub open spec fn tags_section_plan(ts: Seq<EventTag>) -> Seq<LinePlan> {
    if ts.len() == 0 {
        Seq::<LinePlan>::empty()
    } else {
        seq![seq![plain("\n"@), (Tone::Bold, "Tags"@), plain(":"@)]] + tags_plan(ts)
    }
}

fn tags_lines(
    out: &mut Vec<Vec<String>>,
    tags: &Vec<EventTag>,
    Ghost(base): Ghost<Seq<Seq<Seq<char>>>>,
    Ghost(plan): Ghost<Seq<LinePlan>>,
) -> (g: Ghost<Seq<LinePlan>>)
    requires
        appended(base, old(out).deep_view(), plan),
    ensures
        g@ == plan + tags_section_plan(tags@),
        appended(base, final(out).deep_view(), g@),
{
    let n = tags.len();
    if n == 0 {
        assert(plan + tags_section_plan(tags@) =~= plan);
        return Ghost(plan);
    }
    let g0 = emit3(out, owned("\n"), Tone::Plain, owned("Tags"), Tone::Bold, owned(":"), Tone::Plain, Ghost(base), Ghost(plan));
    let mut i: usize = 0;
    let mut g: Ghost<Seq<LinePlan>> = g0;
    assert(tags@.take(0) =~= Seq::<EventTag>::empty());
    assert(g0@ + tags_plan(tags@.take(0)) =~= g0@);
    while i < n
        invariant
            n == tags@.len(),
            i <= n,
            g@ == g0@ + tags_plan(tags@.take(i as int)),
            appended(base, out.deep_view(), g@),
        decreases n - i,
    {
        let t = &tags[i];
        g = emit3(out, owned("  "), Tone::Plain, t.key.clone(), Tone::Cyan, joined(" = ", t.value.as_str()), Tone::Plain, Ghost(base), g);
        proof {
            let s = tags@.take(i + 1);
            assert(s.drop_last() =~= tags@.take(i as int));
            assert(s.last() == tags@[i as int]);
            assert(g@ =~= g0@ + tags_plan(s));
        }
        i = i + 1;
    }
    assert(tags@.take(n as int) =~= tags@);
    assert(g@ =~= plan + tags_section_plan(tags@));
    g
}

/// The line of a context field: a string, number or boolean value is shown after
/// its key; other values are not shown.
pub open spec fn field_plan(f: ContextField) -> Seq<LinePlan> {
    match f.value {
        ContextScalar::Text(s) => seq![seq![plain("    "@ + f.key@ + " = "@ + s@)]],
        ContextScalar::Number(n) => seq![seq![plain("    "@ + f.key@ + " = "@ + n@)]],
        ContextScalar::Bool(b) => seq![seq![plain("    "@ + f.key@ + " = "@ + (if b { "true"@ } else { "false"@ }))]],
        ContextScalar::Other(_) => Seq::<LinePlan>::empty(),
    }
}

/// The lines of context fields, in order.
pub open spec fn fields_plan(fs: Seq<ContextField>) -> Seq<LinePlan>
    decreases fs.len(),
{
    if fs.len() == 0 {
        Seq::<LinePlan>::empty()
    } else {
        fields_plan(fs.drop_last()) + field_plan(fs.last())
    }
}

/// The lines of one context: an object shows its key in cyan and then its fields;
/// other values are not shown.
pub open spec fn context_plan(c: ContextEntry) -> Seq<LinePlan> {
    match c.value {
        ContextValue::Object(fields) => seq![seq![plain("  "@), (Tone::Cyan, c.key@), plain(":"@)]] + fields_plan(fields@),
        ContextValue::Other(_) => Seq::<LinePlan>::empty(),
    }
}

/// The lines of contexts, in order.
pub open spec fn contexts_plan(cs: Seq<ContextEntry>) -> Seq<LinePlan>
    decreases cs.len(),
{
    if cs.len() == 0 {
        Seq::<LinePlan>::empty()
    } else {
        contexts_plan(cs.drop_last()) + context_plan(cs.last())
    }
}

/// The context section: nothing when there are no contexts; otherwise its heading
/// and the lines of each context.
pub open spec fn contexts_section_plan(cs: Seq<ContextEntry>) -> Seq<LinePlan> {
    if cs.len() == 0 {
        Seq::<LinePlan>::empty()
    } else {
        seq![seq![plain("\n"@), (Tone::Bold, "Context"@), plain(":"@)]] + contexts_plan(cs)
    }
}

fn field_lines(
    out: &mut Vec<Vec<String>>,
    f: &ContextField,
    Ghost(base): Ghost<Seq<Seq<Seq<char>>>>,
    Ghost(plan): Ghost<Seq<LinePlan>>,
) -> (g: Ghost<Seq<LinePlan>>)
    requires
        appended(base, old(out).deep_view(), plan),
    ensures
        g@ == plan + field_plan(*f),
        appended(base, final(out).deep_view(), g@),
{
    let mut head = joined("    ", f.key.as_str());
    head.append(" = ");
    let g = match &f.value {
        ContextScalar::Text(s) => {
            head.append(s.as_str());
            emit1(out, head, Tone::Plain, Ghost(base), Ghost(plan))
        },
        ContextScalar::Number(n) => {
            head.append(n.as_str());
            emit1(out, head, Tone::Plain, Ghost(base), Ghost(plan))
        },
        ContextScalar::Bool(b) => {
            if *b {
                head.append("true");
            } else {
                head.append("false");
            }
            emit1(out, head, Tone::Plain, Ghost(base), Ghost(plan))
        },
        ContextScalar::Other(_) => Ghost(plan),
    };
    assert(g@ =~= plan + field_plan(*f));
    g
}

fn context_lines(
    out: &mut Vec<Vec<String>>,
    c: &ContextEntry,
    Ghost(base): Ghost<Seq<Seq<Seq<char>>>>,
    Ghost(plan): Ghost<Seq<LinePlan>>,
) -> (g: Ghost<Seq<LinePlan>>)
    requires
        appended(base, old(out).deep_view(), plan),
    ensures
        g@ == plan + context_plan(*c),
        appended(base, final(out).deep_view(), g@),
{
    match &c.value {
        ContextValue::Object(fields) => {
            let g0 = emit3(out, owned("  "), Tone::Plain, c.key.clone(), Tone::Cyan, owned(":"), Tone::Plain, Ghost(base), Ghost(plan));
            let n = fields.len();
            let mut i: usize = 0;
            let mut g: Ghost<Seq<LinePlan>> = g0;
            assert(fields@.take(0) =~= Seq::<ContextField>::empty());
            assert(g0@ + fields_plan(fields@.take(0)) =~= g0@);
            while i < n
                invariant
                    n == fields@.len(),
                    i <= n,
                    g@ == g0@ + fields_plan(fields@.take(i as int)),
                    appended(base, out.deep_view(), g@),
                decreases n - i,
            {
                g = field_lines(out, &fields[i], Ghost(base), g);
                proof {
                    let s = fields@.take(i + 1);
                    assert(s.drop_last() =~= fields@.take(i as int));
                    assert(s.last() == fields@[i as int]);
                    assert(g@ =~= g0@ + fields_plan(s));
                }
                i = i + 1;
            }
            assert(fields@.take(n as int) =~= fields@);
            assert(g@ =~= plan + context_plan(*c));
            g
        },
        ContextValue::Other(_) => {
            assert(plan + context_plan(*c) =~= plan);
            Ghost(plan)
        },
    }
}

fn contexts_lines(
    out: &mut Vec<Vec<String>>,
    cs: &Vec<ContextEntry>,
    Ghost(base): Ghost<Seq<Seq<Seq<char>>>>,
    Ghost(plan): Ghost<Seq<LinePlan>>,
) -> (g: Ghost<Seq<LinePlan>>)
    requires
        appended(base, old(out).deep_view(), plan),
    ensures
        g@ == plan + contexts_section_plan(cs@),
        appended(base, final(out).deep_view(), g@),
{
    let n = cs.len();
    if n == 0 {
        assert(plan + contexts_section_plan(cs@) =~= plan);
        return Ghost(plan);
    }
    let g0 = emit3(out, owned("\n"), Tone::Plain, owned("Context"), Tone::Bold, owned(":"), Tone::Plain, Ghost(base), Ghost(plan));
    let mut i: usize = 0;
    let mut g: Ghost<Seq<LinePlan>> = g0;
    assert(cs@.take(0) =~= Seq::<ContextEntry>::empty());
    assert(g0@ + contexts_plan(cs@.take(0)) =~= g0@);
    while i < n
        invariant
            n == cs@.len(),
            i <= n,
            g@ == g0@ + contexts_plan(cs@.take(i as int)),
            appended(base, out.deep_view(), g@),
        decreases n - i,
    {
        g = context_lines(out, &cs[i], Ghost(base), g);
        proof {
            let s = cs@.take(i + 1);
            assert(s.drop_last() =~= cs@.take(i as int));
            assert(s.last() == cs@[i as int]);
            assert(g@ =~= g0@ + contexts_plan(s));
        }
        i = i + 1;
    }
    assert(cs@.take(n as int) =~= cs@);
    assert(g@ =~= plan + contexts_section_plan(cs@));
    g
}


// ---------------------------------------------------------------- event details

/// The detailed view of an event: a heading between separators, its entries, its
/// breadcrumbs, its tags and its contexts.
pub open spec fn event_details_plan(e: Event) -> Seq<LinePlan> {
    seq![
        Seq::<(Tone, Seq<char>)>::empty(),
        seq![plain(separator())],
        seq![(Tone::BoldCyan, "Event Details"@)],
        seq![plain(separator())],
    ] + entries_plan(e.entries@) + match event_breadcrumbs(e) {
        Some(d) => breadcrumbs_plan(d.values@),
        None => Seq::<LinePlan>::empty(),
    } + tags_section_plan(e.tags@) + contexts_section_plan(e.contexts@)
}

fn event_details_into(
    out: &mut Vec<Vec<String>>,
    event: &Event,
    Ghost(base): Ghost<Seq<Seq<Seq<char>>>>,
    Ghost(plan): Ghost<Seq<LinePlan>>,
) -> (g: Ghost<Seq<LinePlan>>)
    requires
        appended(base, old(out).deep_view(), plan),
    ensures
        g@ == plan + event_details_plan(*event),
        appended(base, final(out).deep_view(), g@),
{
    let g = emit0(out, Ghost(base), Ghost(plan));
    let g = emit1(out, repeat_char('=', 80), Tone::Plain, Ghost(base), g);
    let g = emit1(out, owned("Event Details"), Tone::BoldCyan, Ghost(base), g);
    let g = emit1(out, repeat_char('=', 80), Tone::Plain, Ghost(base), g);
    let g = entries_lines(out, &event.entries, Ghost(base), g);
    let g = match find_breadcrumbs(event) {
        Some(data) => breadcrumbs_lines(out, &data.values, Ghost(base), g),
        None => g,
    };
    let g = tags_lines(out, &event.tags, Ghost(base), g);
    let g = contexts_lines(out, &event.contexts, Ghost(base), g);
    assert(g@ =~= plan + event_details_plan(*event));
    g
}

/// The lines that show an event in detail.
pub fn event_details_lines(event: &Event) -> (r: Vec<Vec<String>>)
    ensures
        lines_match(r.deep_view(), event_details_plan(*event)),
{
    let mut out: Vec<Vec<String>> = Vec::new();
    let ghost base = out.deep_view();
    proof {
        lemma_appended_none(base);
    }
    let g = event_details_into(&mut out, event, Ghost(base), Ghost(Seq::<LinePlan>::empty()));
    assert(out.deep_view().skip(0) =~= out.deep_view());
    assert(Seq::<LinePlan>::empty() + event_details_plan(*event) =~= event_details_plan(*event));
    out
}

// ---------------------------------------------------------------- issue details

/// A label in bold, padded to `width` characters.
pub open spec fn label(text: Seq<char>, width: nat) -> (Tone, Seq<char>) {
    (Tone::Bold, pad_right_spec(text, width))
}

/// The assignee line: the assignee's name and email (else its type, else
/// `unknown`), or `Unassigned` dimmed.
pub open spec fn assigned_plan(issue: Issue) -> LinePlan {
    match issue.assigned_to {
        Some(a) => seq![
            label("Assigned:"@, 12),
            plain(" "@ + a.name@ + " ("@ + match a.email {
                Some(e) => e@,
                None => text_or(a.actor_type, "unknown"@),
            } + ")"@),
        ],
        None => seq![label("Assigned:"@, 12), plain(" "@), (Tone::Dimmed, "Unassigned"@)],
    }
}

/// The heading and the labelled fields of an issue, up to its event count.
pub open spec fn issue_head_plan(issue: Issue) -> Seq<LinePlan> {
    seq![
        Seq::<(Tone, Seq<char>)>::empty(),
        seq![(Tone::Bold, "Issue"@), plain(": "@), (Tone::Cyan, issue.short_id@)],
        seq![plain(separator())],
        seq![label("Title:"@, 12), plain(" "@ + issue.title@)],
        seq![label("Status:"@, 12), plain(" "@), (status_tone(issue.status), status_title(issue.status))],
        seq![label("Level:"@, 12), plain(" "@ + issue.level@)],
        seq![label("Project:"@, 12), plain(" "@ + issue.project.name@ + " ("@ + issue.project.slug@ + ")"@)],
        seq![label("First Seen:"@, 12), plain(" "@ + spec_format_ymd_hms_utc(issue.first_seen@.0, issue.first_seen@.1))],
        seq![label("Last Seen:"@, 12), plain(" "@ + spec_format_ymd_hms_utc(issue.last_seen@.0, issue.last_seen@.1))],
        Seq::<(Tone, Seq<char>)>::empty(),
        seq![label("Events:"@, 12), plain(" "@ + issue.count@ + " total ("@ + decimal(issue.user_count as nat) + " users affected)"@)],
        Seq::<(Tone, Seq<char>)>::empty(),
    ]
}

/// The culprit line, when the culprit is known.
pub open spec fn culprit_plan(issue: Issue) -> Seq<LinePlan> {
    match issue.culprit {
        Some(c) => seq![seq![label("Culprit:"@, 12), plain(" "@ + c@)]],
        None => Seq::<LinePlan>::empty(),
    }
}

/// The detailed view of an issue: its fields under labels, its assignee, its
/// culprit when known, its link, and the event's details when there is one.
pub open spec fn issue_detail_plan(issue: Issue, event: Option<Event>) -> Seq<LinePlan> {
    issue_head_plan(issue) + seq![assigned_plan(issue)] + culprit_plan(issue) + seq![
        Seq::<(Tone, Seq<char>)>::empty(),
        seq![label("Link:"@, 12), plain(" "@), (Tone::Blue, issue.permalink@)],
    ] + match event {
        Some(e) => event_details_plan(e),
        None => Seq::<LinePlan>::empty(),
    } + seq![Seq::<(Tone, Seq<char>)>::empty()]
}

/// The event that an optional reference points to.
pub open spec fn deref_event(event: Option<&Event>) -> Option<Event> {
    match event {
        Some(e) => Some(*e),
        None => None,
    }
}

fn issue_head_lines(
    out: &mut Vec<Vec<String>>,
    issue: &Issue,
    Ghost(base): Ghost<Seq<Seq<Seq<char>>>>,
    Ghost(plan): Ghost<Seq<LinePlan>>,
) -> (g: Ghost<Seq<LinePlan>>)
    requires
        appended(base, old(out).deep_view(), plan),
    ensures
        g@ == plan + issue_head_plan(*issue),
        appended(base, final(out).deep_view(), g@),
{
    let g = emit0(out, Ghost(base), Ghost(plan));
    let g = emit3(out, owned("Issue"), Tone::Bold, owned(": "), Tone::Plain, issue.short_id.clone(), Tone::Cyan, Ghost(base), g);
    let g = emit1(out, repeat_char('=', 80), Tone::Plain, Ghost(base), g);
    let g = emit2_label(out, "Title:", 12, joined(" ", issue.title.as_str()), Ghost(base), g);
    let g = emit3(out, pad_right("Status:", 12), Tone::Bold, owned(" "), Tone::Plain, owned_status_title(issue),
        status_tone_exec(issue), Ghost(base), g);
    let g = emit2_label(out, "Level:", 12, joined(" ", issue.level.as_str()), Ghost(base), g);
    let mut project = joined(" ", issue.project.name.as_str());
    project.append(" (");
    project.append(issue.project.slug.as_str());
    project.append(")");
    let g = emit2_label(out, "Project:", 12, project, Ghost(base), g);
    let first = format_ymd_hms_utc(&issue.first_seen);
    let g = emit2_label(out, "First Seen:", 12, joined(" ", first.as_str()), Ghost(base), g);
    let last = format_ymd_hms_utc(&issue.last_seen);
    let g = emit2_label(out, "Last Seen:", 12, joined(" ", last.as_str()), Ghost(base), g);
    let g = emit0(out, Ghost(base), g);
    let mut events = joined(" ", issue.count.as_str());
    events.append(" total (");
    push_decimal(&mut events, issue.user_count);
    events.append(" users affected)");
    let g = emit2_label(out, "Events:", 12, events, Ghost(base), g);
    let g = emit0(out, Ghost(base), g);
    assert(g@ =~= plan + issue_head_plan(*issue));
    g
}

fn assigned_lines(
    out: &mut Vec<Vec<String>>,
    issue: &Issue,
    Ghost(base): Ghost<Seq<Seq<Seq<char>>>>,
    Ghost(plan): Ghost<Seq<LinePlan>>,
) -> (g: Ghost<Seq<LinePlan>>)
    requires
        appended(base, old(out).deep_view(), plan),
    ensures
        g@ == plan.push(assigned_plan(*issue)),
        appended(base, final(out).deep_view(), g@),
{
    match &issue.assigned_to {
        Some(a) => {
            let contact = match &a.email {
                Some(e) => e.clone(),
                None => string_or(&a.actor_type, "unknown"),
            };
            let mut who = joined(" ", a.name.as_str());
            who.append(" (");
            who.append(contact.as_str());
            who.append(")");
            assert(contact@ == match a.email {
                Some(e) => e@,
                None => text_or(a.actor_type, "unknown"@),
            });
            assert(who@ =~= " "@ + a.name@ + " ("@ + contact@ + ")"@);
            let g = emit2_label(out, "Assigned:", 12, who, Ghost(base), Ghost(plan));
            assert(assigned_plan(*issue) =~= seq![label("Assigned:"@, 12), plain(who@)]);
            g
        },
        None => emit3(out, pad_right("Assigned:", 12), Tone::Bold, owned(" "), Tone::Plain, owned("Unassigned"), Tone::Dimmed,
            Ghost(base), Ghost(plan)),
    }
}

/// The lines that show an issue in detail, with the details of `event` when given.
pub fn issue_detail_lines(issue: &Issue, event: Option<&Event>) -> (r: Vec<Vec<String>>)
    ensures
        lines_match(r.deep_view(), issue_detail_plan(*issue, deref_event(event))),
{
    let mut out: Vec<Vec<String>> = Vec::new();
    let ghost base = out.deep_view();
    proof {
        lemma_appended_none(base);
    }
    let g = issue_head_lines(&mut out, issue, Ghost(base), Ghost(Seq::<LinePlan>::empty()));
    let g = assigned_lines(&mut out, issue, Ghost(base), g);
    let ghost g2 = g@;
    let g = match &issue.culprit {
        Some(c) => emit2_label(&mut out, "Culprit:", 12, joined(" ", c.as_str()), Ghost(base), g),
        None => g,
    };
    assert(g@ =~= g2 + culprit_plan(*issue));
    let g = emit0(&mut out, Ghost(base), g);
    let g = emit3(&mut out, pad_right("Link:", 12), Tone::Bold, owned(" "), Tone::Plain, issue.permalink.clone(), Tone::Blue,
        Ghost(base), g);
    let ghost g3 = g@;
    let g = match event {
        Some(e) => event_details_into(&mut out, e, Ghost(base), g),
        None => g,
    };
    assert(g@ =~= g3 + match deref_event(event) {
        Some(e) => event_details_plan(e),
        None => Seq::<LinePlan>::empty(),
    });
    let g = emit0(&mut out, Ghost(base), g);
    assert(g@ =~= issue_detail_plan(*issue, deref_event(event)));
    assert(out.deep_view().skip(0) =~= out.deep_view());
    out
}

/// The capitalised status name of an issue.
fn owned_status_title(issue: &Issue) -> (r: String)
    ensures
        r@ == status_title(issue.status),
{
    match issue.status {
        crate::api::models::issue::IssueStatus::Resolved => owned("Resolved"),
        crate::api::models::issue::IssueStatus::Unresolved => owned("Unresolved"),
        crate::api::models::issue::IssueStatus::Ignored => owned("Ignored"),
        crate::api::models::issue::IssueStatus::Reprocessing => owned("Reprocessing"),
    }
}

/// The tone of an issue's status.
fn status_tone_exec(issue: &Issue) -> (t: Tone)
    ensures
        t == status_tone(issue.status),
{
    match issue.status {
        crate::api::models::issue::IssueStatus::Resolved => Tone::Green,
        crate::api::models::issue::IssueStatus::Unresolved => Tone::Red,
        crate::api::models::issue::IssueStatus::Ignored => Tone::Yellow,
        crate::api::models::issue::IssueStatus::Reprocessing => Tone::Cyan,
    }
}

/// Prints a bold label padded to `width`, then `rest`.
fn emit2_label(
    out: &mut Vec<Vec<String>>,
    text: &str,
    width: usize,
    rest: String,
    Ghost(base): Ghost<Seq<Seq<Seq<char>>>>,
    Ghost(plan): Ghost<Seq<LinePlan>>,
) -> (g: Ghost<Seq<LinePlan>>)
    requires
        appended(base, old(out).deep_view(), plan),
    ensures
        g@ == plan.push(seq![label(text@, width as nat), plain(rest@)]),
        appended(base, final(out).deep_view(), g@),
{
    crate::style::emit2(out, pad_right(text, width), Tone::Bold, rest, Tone::Plain, Ghost(base), Ghost(plan))
}

// ---------------------------------------------------------------- release details

/// The line of a release time under its label, when chrono reads the RFC 3339 text.
pub open spec fn release_time_plan(name: Seq<char>, text: Seq<char>) -> Seq<LinePlan> {
    match spec_parse_rfc3339(text) {
        Some(t) => seq![seq![label(name, 15), plain(" "@ + spec_format_ymd_hms_utc(t.0, t.1))]],
        None => Seq::<LinePlan>::empty(),
    }
}

/// The line of a project of a release: its name and slug.
pub open spec fn project_line(p: crate::api::models::release::ProjectRef) -> Seq<char> {
    "  • "@ + p.name@ + " ("@ + p.slug@ + ")"@
}

/// The line of an author of a release: the name, and the email when known.
pub open spec fn author_line(a: crate::api::models::release::Author) -> Seq<char> {
    "  • "@ + a.name@ + match a.email {
        Some(e) => " <"@ + e@ + ">"@,
        None => Seq::<char>::empty(),
    }
}

/// The projects section of a release: nothing when it has none; otherwise its
/// heading and a line per project.
pub open spec fn projects_plan(ps: Seq<crate::api::models::release::ProjectRef>) -> Seq<LinePlan> {
    if ps.len() == 0 {
        Seq::<LinePlan>::empty()
    } else {
        seq![seq![plain("\n"@), (Tone::Bold, "Projects"@), plain(":"@)]] + Seq::new(ps.len(), |i: int| seq![plain(project_line(ps[i]))])
    }
}

/// The authors section of a release: nothing when it has none; otherwise its
/// heading and a line per author.
pub open spec fn authors_plan(authors: Seq<crate::api::models::release::Author>) -> Seq<LinePlan> {
    if authors.len() == 0 {
        Seq::<LinePlan>::empty()
    } else {
        seq![seq![plain("\n"@), (Tone::Bold, "Authors"@), plain(":"@)]] + Seq::new(authors.len(), |i: int| seq![plain(author_line(authors[i]))])
    }
}

/// The detailed view of a release: its version, when it was created and released,
/// its new issues, its projects, its authors and its last deploy.
pub open spec fn release_details_plan(r: Release) -> Seq<LinePlan> {
    seq![
        Seq::<(Tone, Seq<char>)>::empty(),
        seq![(Tone::Bold, "Release"@), plain(": "@), (Tone::Cyan, r.version@)],
        seq![plain(separator())],
    ] + release_time_plan("Created:"@, r.date_created@) + match r.date_released {
        Some(d) => release_time_plan("Released:"@, d@),
        None => Seq::<LinePlan>::empty(),
    } + seq![seq![label("New Issues:"@, 15), plain(" "@ + decimal(r.new_groups as nat))]]
        + projects_plan(r.projects@) + authors_plan(r.authors@) + match r.last_deploy {
        Some(d) => seq![seq![plain("\n"@), (Tone::Bold, "Last Deploy"@), plain(": "@), (Tone::Green, d.environment@)]],
        None => Seq::<LinePlan>::empty(),
    } + seq![Seq::<(Tone, Seq<char>)>::empty()]
}

fn release_time_lines(
    out: &mut Vec<Vec<String>>,
    name: &str,
    text: &str,
    Ghost(base): Ghost<Seq<Seq<Seq<char>>>>,
    Ghost(plan): Ghost<Seq<LinePlan>>,
) -> (g: Ghost<Seq<LinePlan>>)
    requires
        appended(base, old(out).deep_view(), plan),
    ensures
        g@ == plan + release_time_plan(name@, text@),
        appended(base, final(out).deep_view(), g@),
{
    match parse_rfc3339(text) {
        Some(t) => {
            let when = format_ymd_hms_utc(&t);
            let g = emit2_label(out, name, 15, joined(" ", when.as_str()), Ghost(base), Ghost(plan));
            assert(g@ =~= plan + release_time_plan(name@, text@));
            g
        },
        None => {
            assert(plan + release_time_plan(name@, text@) =~= plan);
            Ghost(plan)
        },
    }
}

fn projects_lines(
    out: &mut Vec<Vec<String>>,
    ps: &Vec<crate::api::models::release::ProjectRef>,
    Ghost(base): Ghost<Seq<Seq<Seq<char>>>>,
    Ghost(plan): Ghost<Seq<LinePlan>>,
) -> (g: Ghost<Seq<LinePlan>>)
    requires
        appended(base, old(out).deep_view(), plan),
    ensures
        g@ == plan + projects_plan(ps@),
        appended(base, final(out).deep_view(), g@),
{
    let n = ps.len();
    if n == 0 {
        assert(plan + projects_plan(ps@) =~= plan);
        return Ghost(plan);
    }
    let g0 = emit3(out, owned("\n"), Tone::Plain, owned("Projects"), Tone::Bold, owned(":"), Tone::Plain, Ghost(base), Ghost(plan));
    let mut i: usize = 0;
    let mut g: Ghost<Seq<LinePlan>> = g0;
    assert(g0@ + Seq::new(0, |k: int| seq![plain(project_line(ps@[k]))]) =~= g0@);
    while i < n
        invariant
            n == ps@.len(),
            i <= n,
            g@ == g0@ + Seq::new(i as nat, |k: int| seq![plain(project_line(ps@[k]))]),
            appended(base, out.deep_view(), g@),
        decreases n - i,
    {
        let p = &ps[i];
        let mut line = joined("  • ", p.name.as_str());
        line.append(" (");
        line.append(p.slug.as_str());
        line.append(")");
        assert(line@ == project_line(ps@[i as int]));
        g = emit1(out, line, Tone::Plain, Ghost(base), g);
        assert(g@ =~= g0@ + Seq::new((i + 1) as nat, |k: int| seq![plain(project_line(ps@[k]))]));
        i = i + 1;
    }
    assert(g@ =~= plan + projects_plan(ps@));
    g
}

fn authors_lines(
    out: &mut Vec<Vec<String>>,
    authors: &Vec<crate::api::models::release::Author>,
    Ghost(base): Ghost<Seq<Seq<Seq<char>>>>,
    Ghost(plan): Ghost<Seq<LinePlan>>,
) -> (g: Ghost<Seq<LinePlan>>)
    requires
        appended(base, old(out).deep_view(), plan),
    ensures
        g@ == plan + authors_plan(authors@),
        appended(base, final(out).deep_view(), g@),
{
    let n = authors.len();
    if n == 0 {
        assert(plan + authors_plan(authors@) =~= plan);
        return Ghost(plan);
    }
    let g0 = emit3(out, owned("\n"), Tone::Plain, owned("Authors"), Tone::Bold, owned(":"), Tone::Plain, Ghost(base), Ghost(plan));
    let mut i: usize = 0;
    let mut g: Ghost<Seq<LinePlan>> = g0;
    assert(g0@ + Seq::new(0, |k: int| seq![plain(author_line(authors@[k]))]) =~= g0@);
    while i < n
        invariant
            n == authors@.len(),
            i <= n,
            g@ == g0@ + Seq::new(i as nat, |k: int| seq![plain(author_line(authors@[k]))]),
            appended(base, out.deep_view(), g@),
        decreases n - i,
    {
        let a = &authors[i];
        let mut line = joined("  • ", a.name.as_str());
        match &a.email {
            Some(e) => {
                line.append(" <");
                line.append(e.as_str());
                line.append(">");
            },
            None => {
                assert(line@ =~= line@ + Seq::<char>::empty());
            },
        }
        assert(line@ =~= author_line(authors@[i as int]));
        g = emit1(out, line, Tone::Plain, Ghost(base), g);
        assert(g@ =~= g0@ + Seq::new((i + 1) as nat, |k: int| seq![plain(author_line(authors@[k]))]));
        i = i + 1;
    }
    assert(g@ =~= plan + authors_plan(authors@));
    g
}

/// The lines that show a release in detail.
pub fn release_details_lines(release: &Release) -> (r: Vec<Vec<String>>)
    ensures
        lines_match(r.deep_view(), release_details_plan(*release)),
{
    let mut out: Vec<Vec<String>> = Vec::new();
    let ghost base = out.deep_view();
    proof {
        lemma_appended_none(base);
    }
    let g = emit0(&mut out, Ghost(base), Ghost(Seq::<LinePlan>::empty()));
    let g = emit3(&mut out, owned("Release"), Tone::Bold, owned(": "), Tone::Plain, release.version.clone(), Tone::Cyan, Ghost(base), g);
    let g = emit1(&mut out, repeat_char('=', 80), Tone::Plain, Ghost(base), g);
    let g = release_time_lines(&mut out, "Created:", release.date_created.as_str(), Ghost(base), g);
    let g = match &release.date_released {
        Some(d) => release_time_lines(&mut out, "Released:", d.as_str(), Ghost(base), g),
        None => g,
    };
    let g = emit2_label(&mut out, "New Issues:", 15, joined(" ", u64_to_string(release.new_groups as u64).as_str()), Ghost(base), g);
    let g = projects_lines(&mut out, &release.projects, Ghost(base), g);
    let g = authors_lines(&mut out, &release.authors, Ghost(base), g);
    let g = match &release.last_deploy {
        Some(d) => emit4(&mut out, owned("\n"), Tone::Plain, owned("Last Deploy"), Tone::Bold, owned(": "), Tone::Plain,
            d.environment.clone(), Tone::Green, Ghost(base), g),
        None => g,
    };
    let g = emit0(&mut out, Ghost(base), g);
    assert(g@ =~= release_details_plan(*release));
    assert(out.deep_view().skip(0) =~= out.deep_view());
    out
}

} // verus!
