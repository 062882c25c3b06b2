//! Paging through API results: the cursor of the next page, read from the
//! `Link` header that Sentry sends with each page.
//!
//! The header is a comma-separated list of entries such as
//! `<https://…>; rel="next"; results="true"; cursor="0:100:0"`, each a list of
//! parameters separated by `;`, with spaces around them.

use vstd::prelude::*;
use crate::text::{slice_chars, split_on, split_spec, starts_with, text_eq};

verus! {

/// `s` without the spaces at either end.
pub open spec fn strip_spaces(s: Seq<char>) -> Seq<char>
    decreases s.len(),
{
    if s.len() > 0 && s[0] == ' ' {
        strip_spaces(s.skip(1))
    } else if s.len() > 0 && s.last() == ' ' {
        strip_spaces(s.drop_last())
    } else {
        s
    }
}

/// The parameters of a header entry, each without its surrounding spaces.
pub open spec fn entry_params(entry: Seq<char>) -> Seq<Seq<char>> {
    split_spec(entry, ';').map_values(|p: Seq<char>| strip_spaces(p))
}

/// Whether a parameter is a quoted cursor, `cursor="…"`.
pub open spec fn is_cursor_param(p: Seq<char>) -> bool {
    p.len() >= 9 && p.take(8) == "cursor=\""@ && p.last() == '"'
}

/// The value of the first quoted cursor among the parameters.
pub open spec fn cursor_in(params: Seq<Seq<char>>) -> Option<Seq<char>>
    decreases params.len(),
{
    if params.len() == 0 {
        None
    } else if is_cursor_param(params[0]) {
        Some(params[0].subrange(8, params[0].len() - 1))
    } else {
        cursor_in(params.skip(1))
    }
}

/// The cursor that an entry offers: its cursor, when it says that there are results.
pub open spec fn entry_cursor(entry: Seq<char>) -> Option<Seq<char>> {
    if entry_params(entry).contains("results=\"true\""@) {
        cursor_in(entry_params(entry))
    } else {
        None
    }
}

/// The cursor that the first entry marked `rel="next"` offers.
pub open spec fn next_in(entries: Seq<Seq<char>>) -> Option<Seq<char>>
    decreases entries.len(),
{
    if entries.len() == 0 {
        None
    } else if entry_params(entries[0]).contains("rel=\"next\""@) {
        entry_cursor(entries[0])
    } else {
        next_in(entries.skip(1))
    }
}

/// The cursor of the next page that a `Link` header offers, if any.
pub open spec fn next_cursor_spec(link: Seq<char>) -> Option<Seq<char>> {
    next_in(split_spec(link, ','))
}

/// `s` without the spaces at either end.
fn strip(s: &str) -> (r: String)
    ensures
        r@ == strip_spaces(s@),
{
    let n = s.unicode_len();
    let mut i: usize = 0;
    assert(s@.subrange(0, n as int) =~= s@);
    while i < n && s.get_char(i) == ' '
        invariant
            n == s@.len(),
            i <= n,
            strip_spaces(s@) == strip_spaces(s@.subrange(i as int, n as int)),
        decreases n - i,
    {
        let ghost sub = s@.subrange(i as int, n as int);
        assert(sub[0] == ' ');
        assert(sub.skip(1) =~= s@.subrange(i + 1, n as int));
        i = i + 1;
    }
    let mut j: usize = n;
    while j > i && s.get_char(j - 1) == ' '
        invariant
            n == s@.len(),
            i <= j <= n,
            i < n ==> s@[i as int] != ' ',
            strip_spaces(s@) == strip_spaces(s@.subrange(i as int, j as int)),
        decreases j - i,
    {
        let ghost sub = s@.subrange(i as int, j as int);
        assert(sub.last() == ' ');
        assert(sub[0] == s@[i as int]);
        assert(sub.drop_last() =~= s@.subrange(i as int, j - 1));
        j = j - 1;
    }
    proof {
        let sub = s@.subrange(i as int, j as int);
        if sub.len() > 0 {
            assert(sub[0] == s@[i as int]);
            assert(sub.last() == s@[j - 1]);
        }
    }
    slice_chars(s, i, j)
}

/// The parameters of an entry, each without its surrounding spaces.
fn params_of(entry: &str) -> (r: Vec<String>)
    ensures
        r.deep_view() == entry_params(entry@),
{
    let parts = split_on(entry, ';');
    let n = parts.len();
    let mut r: Vec<String> = Vec::new();
    let mut i: usize = 0;
    while i < n
        invariant
            n == parts.deep_view().len(),
            parts.deep_view() == split_spec(entry@, ';'),
            i <= n,
            r.deep_view() =~= split_spec(entry@, ';').take(i as int).map_values(|p: Seq<char>| strip_spaces(p)),
        decreases n - i,
    {
        let t = strip(parts[i].as_str());
        assert(parts.deep_view()[i as int] == parts[i as int]@);
        let ghost prev = r.deep_view();
        r.push(t);
        assert(r.deep_view() =~= prev.push(t@));
        assert(split_spec(entry@, ';').take(i + 1) =~= split_spec(entry@, ';').take(i as int).push(
            parts.deep_view()[i as int],
        ));
        assert(split_spec(entry@, ';').take(i + 1).map_values(|p: Seq<char>| strip_spaces(p))
            =~= split_spec(entry@, ';').take(i as int).map_values(|p: Seq<char>| strip_spaces(p)).push(
            strip_spaces(parts[i as int]@),
        ));
        i = i + 1;
    }
    assert(split_spec(entry@, ';').take(n as int) =~= split_spec(entry@, ';'));
    r
}

/// Whether one of the texts is `want`.
fn holds(texts: &Vec<String>, want: &str) -> (r: bool)
    ensures
        r == texts.deep_view().contains(want@),
{
    let n = texts.len();
    let mut i: usize = 0;
    while i < n
        invariant
            n == texts.deep_view().len(),
            i <= n,
            forall|k: int| 0 <= k < i ==> texts.deep_view()[k] != want@,
        decreases n - i,
    {
        assert(texts.deep_view()[i as int] == texts[i as int]@);
        if text_eq(texts[i].as_str(), want) {
            return true;
        }
        i = i + 1;
    }
    false
}

/// The value of the first quoted cursor among the parameters.
fn find_cursor(params: &Vec<String>) -> (r: Option<String>)
    ensures
        match r {
            Some(c) => cursor_in(params.deep_view()) == Some(c@),
            None => cursor_in(params.deep_view()) is None,
        },
{
    let n = params.len();
    let mut i: usize = 0;
    assert(params.deep_view().skip(0) =~= params.deep_view());
    while i < n
        invariant
            n == params.deep_view().len(),
            i <= n,
            cursor_in(params.deep_view()) == cursor_in(params.deep_view().skip(i as int)),
        decreases n - i,
    {
        let ghost rest = params.deep_view().skip(i as int);
        let p = params[i].as_str();
        assert(rest[0] == p@);
        let m = p.unicode_len();
        if m >= 9 && starts_with(p, "cursor=\"") && p.get_char(m - 1) == '"' {
            proof {
                reveal_strlit("cursor=\"");
                assert(p@.take(8) == "cursor=\""@);
                assert(p@.last() == '"');
            }
            return Some(slice_chars(p, 8, m - 1));
        }
        proof {
            reveal_strlit("cursor=\"");
            if is_cursor_param(p@) {
                assert(p@.last() == p@[m - 1]);
            }
            assert(rest.skip(1) =~= params.deep_view().skip(i + 1));
        }
        i = i + 1;
    }
    None
}

/// The cursor of the next page that a `Link` header offers: that of the first
/// entry marked `rel="next"`, when the entry says `results="true"` and carries a
/// quoted cursor; `None` when there is no further page.
pub fn next_cursor(link: &str) -> (r: Option<String>)
    ensures
        match r {
            Some(c) => next_cursor_spec(link@) == Some(c@),
            None => next_cursor_spec(link@) is None,
        },
{
    let entries = split_on(link, ',');
    let n = entries.len();
    let mut i: usize = 0;
    assert(entries.deep_view().skip(0) =~= entries.deep_view());
    while i < n
        invariant
            n == entries.deep_view().len(),
            entries.deep_view() == split_spec(link@, ','),
            i <= n,
            next_cursor_spec(link@) == next_in(entries.deep_view().skip(i as int)),
        decreases n - i,
    {
        let ghost rest = entries.deep_view().skip(i as int);
        assert(rest[0] == entries[i as int]@);
        let params = params_of(entries[i].as_str());
        if holds(&params, "rel=\"next\"") {
            if holds(&params, "results=\"true\"") {
                return find_cursor(&params);
            }
            return None;
        }
        assert(rest.skip(1) =~= entries.deep_view().skip(i + 1));
        i = i + 1;
    }
    None
}

} // verus!
