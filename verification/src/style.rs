//! Terminal colours, as the `colored` crate applies them, and text made of
//! lines of coloured pieces.

use vstd::prelude::*;

verus! {

/// The colour and emphasis given to a piece of text.
#[derive(PartialEq, Eq, Structural, Clone, Copy)]
pub enum Tone {
    /// No styling.
    Plain,
    /// `.bold()`
    Bold,
    /// `.dimmed()`
    Dimmed,
    /// `.red()`
    Red,
    /// `.green()`
    Green,
    /// `.yellow()`
    Yellow,
    /// `.blue()`
    Blue,
    /// `.cyan()`
    Cyan,
    /// `.bold().cyan()`
    BoldCyan,
    /// `.bold().red()`
    BoldRed,
    /// `.yellow().bold()`
    BoldYellow,
}

/// The SGR parameters that `colored` writes for a tone (style first, then colour).
pub open spec fn tone_codes(t: Tone) -> Seq<char> {
    match t {
        Tone::Plain => Seq::<char>::empty(),
        Tone::Bold => seq!['1'],
        Tone::Dimmed => seq!['2'],
        Tone::Red => seq!['3', '1'],
        Tone::Green => seq!['3', '2'],
        Tone::Yellow => seq!['3', '3'],
        Tone::Blue => seq!['3', '4'],
        Tone::Cyan => seq!['3', '6'],
        Tone::BoldCyan => seq!['1', ';', '3', '6'],
        Tone::BoldRed => seq!['1', ';', '3', '1'],
        Tone::BoldYellow => seq!['1', ';', '3', '3'],
    }
}

/// The escape sequence that switches a tone on.
pub open spec fn tone_prefix(t: Tone) -> Seq<char> {
    seq!['\x1b', '['] + tone_codes(t) + seq!['m']
}

/// The escape sequence that switches all styling off.
pub open spec fn reset_seq() -> Seq<char> {
    seq!['\x1b', '[', '0', 'm']
}

/// `text` with `style` inserted after every reset sequence in it, as `colored`
/// does so that an inner reset does not end the outer styling.
pub open spec fn escape_resets(text: Seq<char>, style: Seq<char>) -> Seq<char>
    decreases text.len(),
{
    if text.len() < 4 {
        text
    } else if text.take(4) == reset_seq() {
        reset_seq() + style + escape_resets(text.skip(4), style)
    } else {
        seq![text[0]] + escape_resets(text.skip(1), style)
    }
}

/// What `colored` prints for `text` in tone `t` when it colours.
pub open spec fn ansi_styled(t: Tone, text: Seq<char>) -> Seq<char> {
    tone_prefix(t) + escape_resets(text, tone_prefix(t)) + reset_seq()
}

/// `shown` is `text` in tone `t`: the text itself when `t` is plain; otherwise the
/// text itself (colours switched off) or the text in its escape sequences.
pub open spec fn painted(shown: Seq<char>, t: Tone, text: Seq<char>) -> bool {
    if t == Tone::Plain {
        shown == text
    } else {
        shown == text || shown == ansi_styled(t, text)
    }
}

/// `colored`'s `text.bold().to_string()`.
/// Trusted: the text unchanged, or wrapped in the bold escape sequences, depending
/// on whether `colored` colours (its environment and override decide).
#[verifier::external_body]
fn colored_bold(text: &str) -> (r: String)
    ensures
        painted(r@, Tone::Bold, text@),
{
    colored::Colorize::bold(text).to_string()
}

/// `colored`'s `text.dimmed().to_string()`.
/// Trusted: as for `colored_bold`, with the dimmed escape sequences.
#[verifier::external_body]
fn colored_dimmed(text: &str) -> (r: String)
    ensures
        painted(r@, Tone::Dimmed, text@),
{
    colored::Colorize::dimmed(text).to_string()
}

/// `colored`'s `text.red().to_string()`.
/// Trusted: as for `colored_bold`, with the red escape sequences.
#[verifier::external_body]
fn colored_red(text: &str) -> (r: String)
    ensures
        painted(r@, Tone::Red, text@),
{
    colored::Colorize::red(text).to_string()
}

/// `colored`'s `text.green().to_string()`.
/// Trusted: as for `colored_bold`, with the green escape sequences.
#[verifier::external_body]
fn colored_green(text: &str) -> (r: String)
    ensures
        painted(r@, Tone::Green, text@),
{
    colored::Colorize::green(text).to_string()
}

/// `colored`'s `text.yellow().to_string()`.
/// Trusted: as for `colored_bold`, with the yellow escape sequences.
#[verifier::external_body]
fn colored_yellow(text: &str) -> (r: String)
    ensures
        painted(r@, Tone::Yellow, text@),
{
    colored::Colorize::yellow(text).to_string()
}

/// `colored`'s `text.blue().to_string()`.
/// Trusted: as for `colored_bold`, with the blue escape sequences.
#[verifier::external_body]
fn colored_blue(text: &str) -> (r: String)
    ensures
        painted(r@, Tone::Blue, text@),
{
    colored::Colorize::blue(text).to_string()
}

/// `colored`'s `text.cyan().to_string()`.
/// Trusted: as for `colored_bold`, with the cyan escape sequences.
#[verifier::external_body]
fn colored_cyan(text: &str) -> (r: String)
    ensures
        painted(r@, Tone::Cyan, text@),
{
    colored::Colorize::cyan(text).to_string()
}

/// `colored`'s `text.bold().cyan().to_string()`.
/// Trusted: as for `colored_bold`, with the bold-and-cyan escape sequences.
#[verifier::external_body]
fn colored_bold_cyan(text: &str) -> (r: String)
    ensures
        painted(r@, Tone::BoldCyan, text@),
{
    colored::Colorize::cyan(colored::Colorize::bold(text)).to_string()
}

/// `colored`'s `text.bold().red().to_string()`.
/// Trusted: as for `colored_bold`, with the bold-and-red escape sequences.
#[verifier::external_body]
fn colored_bold_red(text: &str) -> (r: String)
    ensures
        painted(r@, Tone::BoldRed, text@),
{
    colored::Colorize::red(colored::Colorize::bold(text)).to_string()
}

/// `colored`'s `text.yellow().bold().to_string()`.
/// Trusted: as for `colored_bold`, with the bold-and-yellow escape sequences.
#[verifier::external_body]
fn colored_bold_yellow(text: &str) -> (r: String)
    ensures
        painted(r@, Tone::BoldYellow, text@),
{
    colored::Colorize::bold(colored::Colorize::yellow(text)).to_string()
}

/// `text` in tone `t`.
pub fn paint(text: &str, t: Tone) -> (r: String)
    ensures
        painted(r@, t, text@),
{
    match t {
        Tone::Plain => String::from_str(text),
        Tone::Bold => colored_bold(text),
        Tone::Dimmed => colored_dimmed(text),
        Tone::Red => colored_red(text),
        Tone::Green => colored_green(text),
        Tone::Yellow => colored_yellow(text),
        Tone::Blue => colored_blue(text),
        Tone::Cyan => colored_cyan(text),
        Tone::BoldCyan => colored_bold_cyan(text),
        Tone::BoldRed => colored_bold_red(text),
        Tone::BoldYellow => colored_bold_yellow(text),
    }
}

/// The plan of one printed line: its pieces, each with its tone.
pub type LinePlan = Seq<(Tone, Seq<char>)>;

/// A printed line, as its pieces, shows what its plan says.
pub open spec fn line_matches(line: Seq<Seq<char>>, plan: LinePlan) -> bool {
    &&& line.len() == plan.len()
    &&& forall|k: int| 0 <= k < line.len() ==> painted(#[trigger] line[k], plan[k].0, plan[k].1)
}

/// Printed lines show, one by one, what the plans say.
pub open spec fn lines_match(lines: Seq<Seq<Seq<char>>>, plans: Seq<LinePlan>) -> bool {
    &&& lines.len() == plans.len()
    &&& forall|i: int| 0 <= i < lines.len() ==> line_matches(#[trigger] lines[i], plans[i])
}

/// `after` is `before` followed by lines that show `plans`.
pub open spec fn appended(before: Seq<Seq<Seq<char>>>, after: Seq<Seq<Seq<char>>>, plans: Seq<LinePlan>) -> bool {
    &&& after.len() == before.len() + plans.len()
    &&& after.take(before.len() as int) == before
    &&& lines_match(after.skip(before.len() as int), plans)
}

/// Nothing added is appending no lines.
pub proof fn lemma_appended_none(a: Seq<Seq<Seq<char>>>)
    ensures
        appended(a, a, Seq::<LinePlan>::empty()),
{
    assert(a.take(a.len() as int) =~= a);
    assert(a.skip(a.len() as int) =~= Seq::<Seq<Seq<char>>>::empty());
}

/// Appending in two steps appends both plans in order.
pub proof fn lemma_appended_trans(
    a: Seq<Seq<Seq<char>>>,
    b: Seq<Seq<Seq<char>>>,
    c: Seq<Seq<Seq<char>>>,
    p: Seq<LinePlan>,
    q: Seq<LinePlan>,
)
    requires
        appended(a, b, p),
        appended(b, c, q),
    ensures
        appended(a, c, p + q),
{
    assert(c.take(a.len() as int) =~= b.take(a.len() as int));
    let tail = c.skip(a.len() as int);
    assert forall|i: int| 0 <= i < tail.len() implies line_matches(#[trigger] tail[i], (p + q)[i]) by {
        if i < p.len() {
            assert(tail[i] == b.skip(a.len() as int)[i]);
        } else {
            assert(tail[i] == c.skip(b.len() as int)[i - p.len()]);
        }
    }
}

/// The plan of a line given as pieces with tones.
pub open spec fn pieces_plan(pieces: Seq<(String, Tone)>) -> LinePlan {
    pieces.map_values(|p: (String, Tone)| (p.1, p.0@))
}

/// Prints one line made of `pieces`, each in its tone.
pub fn emit(out: &mut Vec<Vec<String>>, pieces: Vec<(String, Tone)>)
    ensures
        appended(old(out).deep_view(), final(out).deep_view(), seq![pieces_plan(pieces@)]),
{
    let ghost before = out.deep_view();
    let mut line: Vec<String> = Vec::new();
    let n = pieces.len();
    let mut i: usize = 0;
    while i < n
        invariant
            n == pieces@.len(),
            i <= n,
            line.deep_view().len() == i,
            forall|k: int| 0 <= k < i ==> painted(#[trigger] line.deep_view()[k], pieces@[k].1, pieces@[k].0@),
        decreases n - i,
    {
        let s = paint(pieces[i].0.as_str(), pieces[i].1);
        let ghost prev = line.deep_view();
        line.push(s);
        assert(line.deep_view() =~= prev.push(s@));
        i = i + 1;
    }
    out.push(line);
    proof {
        let after = out.deep_view();
        assert(after.take(before.len() as int) =~= before);
        assert(after.skip(before.len() as int) =~= seq![line.deep_view()]);
        assert(line_matches(line.deep_view(), pieces_plan(pieces@)));
    }
}


/// Prints one line made of `pieces` after lines showing `plan`; the lines then
/// show `plan` followed by the plan of that line.
fn emit_after(
    out: &mut Vec<Vec<String>>,
    pieces: Vec<(String, Tone)>,
    Ghost(base): Ghost<Seq<Seq<Seq<char>>>>,
    Ghost(plan): Ghost<Seq<LinePlan>>,
) -> (g: Ghost<Seq<LinePlan>>)
    requires
        appended(base, old(out).deep_view(), plan),
    ensures
        g@ == plan.push(pieces_plan(pieces@)),
        appended(base, final(out).deep_view(), g@),
{
    let ghost line = pieces_plan(pieces@);
    let ghost mid = out.deep_view();
    emit(out, pieces);
    proof {
        lemma_appended_trans(base, mid, out.deep_view(), plan, seq![line]);
        assert(plan + seq![line] =~= plan.push(line));
    }
    Ghost(plan.push(line))
}

/// Prints a line of 0 piece(s), each in its tone, after lines showing `plan`.
pub fn emit0(
    out: &mut Vec<Vec<String>>,
    Ghost(base): Ghost<Seq<Seq<Seq<char>>>>,
    Ghost(plan): Ghost<Seq<LinePlan>>,
) -> (g: Ghost<Seq<LinePlan>>)
    requires
        appended(base, old(out).deep_view(), plan),
    ensures
        g@ == plan.push(Seq::<(Tone, Seq<char>)>::empty()),
        appended(base, final(out).deep_view(), g@),
{
    let pieces: Vec<(String, Tone)> = Vec::new();
    assert(pieces_plan(pieces@) =~= Seq::<(Tone, Seq<char>)>::empty());
    let g = emit_after(out, pieces, Ghost(base), Ghost(plan));
    g
}

/// Prints a line of 1 piece(s), each in its tone, after lines showing `plan`.
pub fn emit1(
    out: &mut Vec<Vec<String>>, t0: String, k0: Tone,
    Ghost(base): Ghost<Seq<Seq<Seq<char>>>>,
    Ghost(plan): Ghost<Seq<LinePlan>>,
) -> (g: Ghost<Seq<LinePlan>>)
    requires
        appended(base, old(out).deep_view(), plan),
    ensures
        g@ == plan.push(seq![(k0, t0@)]),
        appended(base, final(out).deep_view(), g@),
{
    let pieces: Vec<(String, Tone)> = vec![(t0, k0)];
    assert(pieces_plan(pieces@) =~= seq![(k0, t0@)]);
    let g = emit_after(out, pieces, Ghost(base), Ghost(plan));
    g
}

/// Prints a line of 2 piece(s), each in its tone, after lines showing `plan`.
pub fn emit2(
    out: &mut Vec<Vec<String>>, t0: String, k0: Tone, t1: String, k1: Tone,
    Ghost(base): Ghost<Seq<Seq<Seq<char>>>>,
    Ghost(plan): Ghost<Seq<LinePlan>>,
) -> (g: Ghost<Seq<LinePlan>>)
    requires
        appended(base, old(out).deep_view(), plan),
    ensures
        g@ == plan.push(seq![(k0, t0@), (k1, t1@)]),
        appended(base, final(out).deep_view(), g@),
{
    let pieces: Vec<(String, Tone)> = vec![(t0, k0), (t1, k1)];
    assert(pieces_plan(pieces@) =~= seq![(k0, t0@), (k1, t1@)]);
    let g = emit_after(out, pieces, Ghost(base), Ghost(plan));
    g
}

/// Prints a line of 3 piece(s), each in its tone, after lines showing `plan`.
pub fn emit3(
    out: &mut Vec<Vec<String>>, t0: String, k0: Tone, t1: String, k1: Tone, t2: String, k2: Tone,
    Ghost(base): Ghost<Seq<Seq<Seq<char>>>>,
    Ghost(plan): Ghost<Seq<LinePlan>>,
) -> (g: Ghost<Seq<LinePlan>>)
    requires
        appended(base, old(out).deep_view(), plan),
    ensures
        g@ == plan.push(seq![(k0, t0@), (k1, t1@), (k2, t2@)]),
        appended(base, final(out).deep_view(), g@),
{
    let pieces: Vec<(String, Tone)> = vec![(t0, k0), (t1, k1), (t2, k2)];
    assert(pieces_plan(pieces@) =~= seq![(k0, t0@), (k1, t1@), (k2, t2@)]);
    let g = emit_after(out, pieces, Ghost(base), Ghost(plan));
    g
}

/// Prints a line of 4 piece(s), each in its tone, after lines showing `plan`.
pub fn emit4(
    out: &mut Vec<Vec<String>>, t0: String, k0: Tone, t1: String, k1: Tone, t2: String, k2: Tone, t3: String, k3: Tone,
    Ghost(base): Ghost<Seq<Seq<Seq<char>>>>,
    Ghost(plan): Ghost<Seq<LinePlan>>,
) -> (g: Ghost<Seq<LinePlan>>)
    requires
        appended(base, old(out).deep_view(), plan),
    ensures
        g@ == plan.push(seq![(k0, t0@), (k1, t1@), (k2, t2@), (k3, t3@)]),
        appended(base, final(out).deep_view(), g@),
{
    let pieces: Vec<(String, Tone)> = vec![(t0, k0), (t1, k1), (t2, k2), (t3, k3)];
    assert(pieces_plan(pieces@) =~= seq![(k0, t0@), (k1, t1@), (k2, t2@), (k3, t3@)]);
    let g = emit_after(out, pieces, Ghost(base), Ghost(plan));
    g
}

/// Prints a line of 5 piece(s), each in its tone, after lines showing `plan`.
pub fn emit5(
    out: &mut Vec<Vec<String>>, t0: String, k0: Tone, t1: String, k1: Tone, t2: String, k2: Tone, t3: String, k3: Tone, t4: String, k4: Tone,
    Ghost(base): Ghost<Seq<Seq<Seq<char>>>>,
    Ghost(plan): Ghost<Seq<LinePlan>>,
) -> (g: Ghost<Seq<LinePlan>>)
    requires
        appended(base, old(out).deep_view(), plan),
    ensures
        g@ == plan.push(seq![(k0, t0@), (k1, t1@), (k2, t2@), (k3, t3@), (k4, t4@)]),
        appended(base, final(out).deep_view(), g@),
{
    let pieces: Vec<(String, Tone)> = vec![(t0, k0), (t1, k1), (t2, k2), (t3, k3), (t4, k4)];
    assert(pieces_plan(pieces@) =~= seq![(k0, t0@), (k1, t1@), (k2, t2@), (k3, t3@), (k4, t4@)]);
    let g = emit_after(out, pieces, Ghost(base), Ghost(plan));
    g
}

/// Prints a line of 6 piece(s), each in its tone, after lines showing `plan`.
pub fn emit6(
    out: &mut Vec<Vec<String>>, t0: String, k0: Tone, t1: String, k1: Tone, t2: String, k2: Tone, t3: String, k3: Tone, t4: String, k4: Tone, t5: String, k5: Tone,
    Ghost(base): Ghost<Seq<Seq<Seq<char>>>>,
    Ghost(plan): Ghost<Seq<LinePlan>>,
) -> (g: Ghost<Seq<LinePlan>>)
    requires
        appended(base, old(out).deep_view(), plan),
    ensures
        g@ == plan.push(seq![(k0, t0@), (k1, t1@), (k2, t2@), (k3, t3@), (k4, t4@), (k5, t5@)]),
        appended(base, final(out).deep_view(), g@),
{
    let pieces: Vec<(String, Tone)> = vec![(t0, k0), (t1, k1), (t2, k2), (t3, k3), (t4, k4), (t5, k5)];
    assert(pieces_plan(pieces@) =~= seq![(k0, t0@), (k1, t1@), (k2, t2@), (k3, t3@), (k4, t4@), (k5, t5@)]);
    let g = emit_after(out, pieces, Ghost(base), Ghost(plan));
    g
}

} // verus!
