//! The interactive configuration commands: how an answer typed at a prompt
//! is read (a confirmation, a yes/no question with a default, a numbered
//! menu), the popular themes offered first, and the line-by-line preview
//! of a configuration update.

use vstd::prelude::*;

use crate::sse::{segments, string_of_range, trim, trim_bounds};
use crate::text::{all_ascii, ascii_lower, chars_of, lowercase_of, parse_u64, str_eq, to_lowercase, u64_text, views};

verus! {

// ─────────────────────────────────────────────────────────────────────────────
// Answers
// ─────────────────────────────────────────────────────────────────────────────

/// `s` trimmed of Unicode whitespace, as an owned string.
fn trimmed(s: &str) -> (r: String)
    ensures
        r@ == trim(s@),
        all_ascii(s@) ==> all_ascii(r@),
{
    let v = chars_of(s);
    let (a, b) = trim_bounds(&v, 0, v.len());
    assert(v@.subrange(0, v.len() as int) =~= s@);
    let r = string_of_range(&v, a, b);
    assert(all_ascii(s@) ==> all_ascii(r@)) by {
        if all_ascii(s@) {
            assert forall|i: int| 0 <= i < r@.len() implies (#[trigger] r@[i] as u32) < 128 by {
                assert(r@[i] == s@[a + i]);
            }
        }
    }
    r
}

/// Whether an answer confirms: trimmed, it is `y` or `Y`.
pub open spec fn confirms(input: Seq<char>) -> bool {
    trim(input) == seq!['y'] || trim(input) == seq!['Y']
}

/// Whether an answer to an "Overwrite? [y/N]" question confirms (an ASCII
/// case-insensitive `y`, surrounding whitespace ignored).
pub fn is_confirmed(input: &str) -> (r: bool)
    ensures
        r == confirms(input@),
{
    let t = chars_of(trimmed(input).as_str());
    let r = t.len() == 1 && (t[0] == 'y' || t[0] == 'Y');
    assert(r ==> t@ =~= seq![t@[0]]);
    assert(t@ =~= seq!['y'] ==> t@[0] == 'y');
    assert(t@ =~= seq!['Y'] ==> t@[0] == 'Y');
    r
}

/// The value of an answer to a yes/no question: the default when the
/// trimmed answer is empty once lowercased, else whether it is `y` or `yes`.
pub open spec fn yes_no(input: Seq<char>, default: bool) -> bool {
    let l = lowercase_of(trim(input));
    if l.len() == 0 {
        default
    } else {
        l == "y"@ || l == "yes"@
    }
}

/// `yes_no` for an ASCII answer: the lowercase is the ASCII one, so `Y`,
/// `YES`, `Yes` and the like count as yes.
pub open spec fn yes_no_ascii(input: Seq<char>, default: bool) -> bool {
    let l = ascii_lower(trim(input));
    if l.len() == 0 {
        default
    } else {
        l == "y"@ || l == "yes"@
    }
}

/// Reads the answer to a yes/no question with a default.
pub fn answer_to_bool(input: &str, default: bool) -> (r: bool)
    ensures
        r == yes_no(input@, default),
        all_ascii(input@) ==> r == yes_no_ascii(input@, default),
{
    let t = trimmed(input);
    let l = to_lowercase(t.as_str());
    let lv = chars_of(l.as_str());
    if lv.len() == 0 {
        default
    } else {
        str_eq(l.as_str(), "y") || str_eq(l.as_str(), "yes")
    }
}

/// The entry picked in a menu of `count` entries numbered from 1: the
/// trimmed answer read as a number (as `str::parse` reads one), less one,
/// when it is between 1 and `count`.
pub open spec fn menu_pick(input: Seq<char>, count: usize) -> Option<usize> {
    match u64_text(trim(input)) {
        Some(n) => if 1 <= n && n <= count {
            Some((n - 1) as usize)
        } else {
            None
        },
        None => None,
    }
}

/// The index picked in a numbered menu of `count` entries, if the answer
/// names one.
pub fn menu_choice(input: &str, count: usize) -> (r: Option<usize>)
    ensures
        r == menu_pick(input@, count),
{
    let t = trimmed(input);
    match parse_u64(t.as_str()) {
        Some(n) => {
            if 1 <= n && (n as u128) <= (count as u128) {
                Some((n - 1) as usize)
            } else {
                None
            }
        },
        None => None,
    }
}

/// The themes offered first by the setup wizard, in menu order; the first
/// is the default.
pub open spec fn popular_theme_names() -> Seq<Seq<char>> {
    seq![
        "Spy Dark"@,
        "Spy Light"@,
        "Dracula"@,
        "Catppuccin Mocha"@,
        "Tokyo Night"@,
        "Nord"@,
        "Gruvbox Dark"@,
        "Monokai Pro"@,
    ]
}

/// The themes offered first by the setup wizard.
pub fn popular_themes() -> (r: Vec<&'static str>)
    ensures
        r@.len() == popular_theme_names().len(),
        forall|i: int| 0 <= i < r@.len() ==> r@[i]@ == popular_theme_names()[i],
{
    let r = vec![
        "Spy Dark",
        "Spy Light",
        "Dracula",
        "Catppuccin Mocha",
        "Tokyo Night",
        "Nord",
        "Gruvbox Dark",
        "Monokai Pro",
    ];
    proof {
        reveal_strlit("Spy Dark");
        reveal_strlit("Spy Light");
        reveal_strlit("Dracula");
        reveal_strlit("Catppuccin Mocha");
        reveal_strlit("Tokyo Night");
        reveal_strlit("Nord");
        reveal_strlit("Gruvbox Dark");
        reveal_strlit("Monokai Pro");
    }
    r
}

// ─────────────────────────────────────────────────────────────────────────────
// Lines and the update preview
// ─────────────────────────────────────────────────────────────────────────────

/// A line without one trailing `\r`.
pub open spec fn strip_cr(l: Seq<char>) -> Seq<char> {
    if l.len() > 0 && l.last() == '\r' {
        l.drop_last()
    } else {
        l
    }
}

/// The lines of a text as `str::lines` gives them: split at `\n`, a `\r`
/// just before a `\n` dropped, and no empty last line after a final `\n`.
pub open spec fn text_lines(s: Seq<char>) -> Seq<Seq<char>> {
    let w = segments(s);
    let ended = w.drop_last().map_values(|l: Seq<char>| strip_cr(l));
    if w.last().len() == 0 {
        ended
    } else {
        ended.push(w.last())
    }
}

proof fn lemma_segments_step(s: Seq<char>, i: int)
    requires
        0 <= i < s.len(),
    ensures
        s.take(i + 1).drop_last() == s.take(i),
        s.take(i + 1).last() == s[i],
{
    assert(s.take(i + 1).drop_last() =~= s.take(i));
}

/// The lines of a text, as `str::lines` splits it.
pub fn lines_of(s: &str) -> (r: Vec<String>)
    ensures
        views(r@) == text_lines(s@),
{
    let v = chars_of(s);
    let mut out: Vec<String> = Vec::new();
    let mut start: usize = 0;
    let mut i: usize = 0;
    assert(v@.take(0) =~= Seq::<char>::empty());
    while i < v.len()
        invariant
            start <= i <= v.len(),
            v@ == s@,
            segments(v@.take(i as int)).len() >= 1,
            views(out@) == segments(v@.take(i as int)).drop_last().map_values(|l: Seq<char>| strip_cr(l)),
            segments(v@.take(i as int)).last() == v@.subrange(start as int, i as int),
        decreases v.len() - i,
    {
        proof {
            lemma_segments_step(v@, i as int);
        }
        let ghost w = segments(v@.take(i as int));
        if v[i] == '\n' {
            let end = if i > start && v[i - 1] == '\r' { i - 1 } else { i };
            let line = string_of_range(&v, start, end);
            proof {
                let seg = v@.subrange(start as int, i as int);
                if i > start && v@[i - 1] == '\r' {
                    assert(seg.drop_last() =~= v@.subrange(start as int, end as int));
                } else {
                    assert(seg =~= v@.subrange(start as int, end as int));
                }
                assert(line@ == strip_cr(w.last()));
            }
            out.push(line);
            proof {
                let w2 = segments(v@.take(i + 1));
                assert(w2 == w.push(Seq::<char>::empty()));
                assert(w2.drop_last() =~= w);
                assert(w =~= w.drop_last().push(w.last()));
                assert(views(out@) =~= w.drop_last().map_values(|l: Seq<char>| strip_cr(l)).push(strip_cr(w.last())));
                assert(w.map_values(|l: Seq<char>| strip_cr(l)) =~= w.drop_last().map_values(|l: Seq<char>| strip_cr(l)).push(strip_cr(w.last())));
                assert(v@.subrange(i + 1, i + 1) =~= Seq::<char>::empty());
            }
            start = i + 1;
        } else {
            proof {
                let w2 = segments(v@.take(i + 1));
                assert(w2 == w.update(w.len() - 1, w.last().push(v@[i as int])));
                assert(w2.drop_last() =~= w.drop_last());
                assert(v@.subrange(start as int, i as int).push(v@[i as int]) =~= v@.subrange(start as int, i + 1));
            }
        }
        i = i + 1;
    }
    assert(v@.take(v.len() as int) =~= v@);
    if start < v.len() {
        let last = string_of_range(&v, start, v.len());
        out.push(last);
        assert(views(out@) =~= text_lines(s@));
    } else {
        assert(views(out@) =~= text_lines(s@));
    }
    out
}

/// One line of the update preview.
pub enum DiffLine {
    /// The same line in both versions.
    Same(String),
    /// A line only in the new version.
    Added(String),
    /// A line only in the old version.
    Removed(String),
    /// A line that changed: the old, then the new.
    Changed(String, String),
}

/// The line at `i`, or an empty line past the end.
pub open spec fn line_at(lines: Seq<Seq<char>>, i: int) -> Seq<char> {
    if 0 <= i < lines.len() {
        lines[i]
    } else {
        Seq::<char>::empty()
    }
}

/// The preview entry for an old and a new line at the same position:
/// unchanged lines are shown once, an empty old line as an addition, an
/// empty new line as a removal, otherwise the old and the new line.
pub open spec fn diff_entry(d: DiffLine, old: Seq<char>, new: Seq<char>) -> bool {
    if old == new {
        d matches DiffLine::Same(l) && l@ == new
    } else if old.len() == 0 {
        d matches DiffLine::Added(l) && l@ == new
    } else if new.len() == 0 {
        d matches DiffLine::Removed(l) && l@ == old
    } else {
        d matches DiffLine::Changed(o, n) && o@ == old && n@ == new
    }
}

/// The old line that a preview entry shows (empty for an addition).
pub open spec fn old_side(d: DiffLine) -> Seq<char> {
    match d {
        DiffLine::Same(l) => l@,
        DiffLine::Added(_) => Seq::<char>::empty(),
        DiffLine::Removed(l) => l@,
        DiffLine::Changed(o, _) => o@,
    }
}

/// The new line that a preview entry shows (empty for a removal).
pub open spec fn new_side(d: DiffLine) -> Seq<char> {
    match d {
        DiffLine::Same(l) => l@,
        DiffLine::Added(l) => l@,
        DiffLine::Removed(_) => Seq::<char>::empty(),
        DiffLine::Changed(_, n) => n@,
    }
}

fn owned_line(lines: &Vec<String>, i: usize) -> (r: String)
    ensures
        r@ == line_at(views(lines@), i as int),
{
    if i < lines.len() {
        lines[i].clone()
    } else {
        String::new()
    }
}

/// The line-by-line preview of replacing `old` with `new`: one entry per
/// position up to the longer text's line count, comparing the lines at that
/// position (a missing line counts as empty).
pub fn diff_lines(old: &str, new: &str) -> (r: Vec<DiffLine>)
    ensures
        r@.len() == if text_lines(old@).len() >= text_lines(new@).len() {
            text_lines(old@).len()
        } else {
            text_lines(new@).len()
        },
        forall|i: int|
            0 <= i < r@.len() ==> diff_entry(#[trigger] r@[i], line_at(text_lines(old@), i), line_at(text_lines(new@), i)),
{
    let ol = lines_of(old);
    let nl = lines_of(new);
    let n = if ol.len() >= nl.len() { ol.len() } else { nl.len() };
    let mut out: Vec<DiffLine> = Vec::new();
    let mut i: usize = 0;
    while i < n
        invariant
            i <= n,
            n == if ol.len() >= nl.len() { ol.len() } else { nl.len() },
            views(ol@) == text_lines(old@),
            views(nl@) == text_lines(new@),
            out@.len() == i,
            forall|k: int|
                0 <= k < i ==> diff_entry(#[trigger] out@[k], line_at(text_lines(old@), k), line_at(text_lines(new@), k)),
        decreases n - i,
    {
        let o = owned_line(&ol, i);
        let nw = owned_line(&nl, i);
        let same = str_eq(o.as_str(), nw.as_str());
        let o_empty = chars_of(o.as_str()).len() == 0;
        let n_empty = chars_of(nw.as_str()).len() == 0;
        let d = if same {
            DiffLine::Same(nw)
        } else if o_empty {
            DiffLine::Added(nw)
        } else if n_empty {
            DiffLine::Removed(o)
        } else {
            DiffLine::Changed(o, nw)
        };
        out.push(d);
        i = i + 1;
    }
    out
}

/// The preview loses no line: reading its old sides gives the old line and
/// its new sides the new line at every position.
pub proof fn lemma_diff_shows_both_versions(d: DiffLine, old: Seq<char>, new: Seq<char>)
    requires
        diff_entry(d, old, new),
    ensures
        old_side(d) == old,
        new_side(d) == new,
{
}

} // verus!
