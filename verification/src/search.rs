//! Full-text search query preparation: how a user's query is turned into an
//! FTS5 query string in each search mode.

use vstd::prelude::*;

use crate::text::{all_ascii, ascii_upper, chars_of, join, owned, push_char, str_eq, to_uppercase, uppercase_of, views, join_strings};

verus! {

/// Whether `c` has the Unicode White_Space property (`char::is_whitespace`).
pub open spec fn is_ws(c: char) -> bool {
    ||| c == ' '
    ||| ('\u{9}' <= c && c <= '\u{d}')
    ||| c == '\u{85}'
    ||| c == '\u{a0}'
    ||| c == '\u{1680}'
    ||| ('\u{2000}' <= c && c <= '\u{200a}')
    ||| c == '\u{2028}'
    ||| c == '\u{2029}'
    ||| c == '\u{202f}'
    ||| c == '\u{205f}'
    ||| c == '\u{3000}'
}

/// Whether `c` has the Unicode White_Space property.
pub fn is_whitespace(c: char) -> (r: bool)
    ensures
        r == is_ws(c),
{
    c == ' ' || ('\u{9}' <= c && c <= '\u{d}') || c == '\u{85}' || c == '\u{a0}' || c == '\u{1680}'
        || ('\u{2000}' <= c && c <= '\u{200a}') || c == '\u{2028}' || c == '\u{2029}' || c
        == '\u{202f}' || c == '\u{205f}' || c == '\u{3000}'
}

/// The words of `s`: its maximal runs of non-whitespace characters, in order
/// (`str::split_whitespace`).
pub open spec fn words(s: Seq<char>) -> Seq<Seq<char>>
    decreases s.len(),
{
    if s.len() == 0 {
        Seq::empty()
    } else {
        let w = words(s.drop_last());
        let c = s.last();
        if is_ws(c) {
            w
        } else if s.len() >= 2 && !is_ws(s[s.len() - 2]) {
            w.update(w.len() - 1, w.last().push(c))
        } else {
            w.push(seq![c])
        }
    }
}

/// The words of `s` (see `words`).
pub fn split_words(s: &Vec<char>) -> (r: Vec<Vec<char>>)
    ensures
        r@.len() == words(s@).len(),
        forall|k: int| 0 <= k < r@.len() ==> #[trigger] r@[k]@ == words(s@)[k],
{
    let mut out: Vec<Vec<char>> = Vec::new();
    let mut i: usize = 0;
    while i < s.len()
        invariant
            i <= s.len(),
            out@.len() == words(s@.take(i as int)).len(),
            forall|k: int| 0 <= k < out@.len() ==> #[trigger] out@[k]@ == words(s@.take(i as int))[k],
            i > 0 && !is_ws(s@[i - 1]) ==> out@.len() > 0,
        decreases s.len() - i,
    {
        let c = s[i];
        let ghost pre = s@.take(i as int);
        let ghost post = s@.take(i + 1);
        assert(post.drop_last() =~= pre);
        assert(post.last() == c);
        if is_whitespace(c) {
        } else if i >= 1 && !is_whitespace(s[i - 1]) {
            assert(post[post.len() - 2] == s@[i - 1]);
            let mut last = out.pop().unwrap();
            last.push(c);
            out.push(last);
            assert forall|k: int| 0 <= k < out@.len() implies #[trigger] out@[k]@ == words(post)[k] by {}
        } else {
            if i >= 1 {
                assert(post[post.len() - 2] == s@[i - 1]);
            }
            let mut w: Vec<char> = Vec::new();
            w.push(c);
            out.push(w);
            assert(w@ =~= seq![c]);
            assert forall|k: int| 0 <= k < out@.len() implies #[trigger] out@[k]@ == words(post)[k] by {}
        }
        i = i + 1;
    }
    assert(s@.take(s.len() as int) =~= s@);
    out
}

/// Doubles every double quote.
pub open spec fn escape_quotes(s: Seq<char>) -> Seq<char>
    decreases s.len(),
{
    if s.len() == 0 {
        Seq::empty()
    } else {
        escape_quotes(s.drop_last()) + if s.last() == '"' {
            seq!['"', '"']
        } else {
            seq![s.last()]
        }
    }
}

/// Doubles double quotes, drops parentheses and turns colons (column
/// prefixes) into spaces.
pub open spec fn escape_natural(s: Seq<char>) -> Seq<char>
    decreases s.len(),
{
    if s.len() == 0 {
        Seq::empty()
    } else {
        let c = s.last();
        escape_natural(s.drop_last()) + if c == '"' {
            seq!['"', '"']
        } else if c == '(' || c == ')' {
            Seq::empty()
        } else if c == ':' {
            seq![' ']
        } else {
            seq![c]
        }
    }
}

/// How one word of a natural-mode query is rendered: AND, OR and NOT in any
/// case become the upper-case operator; otherwise the word is escaped,
/// keeping one trailing `*` as a prefix wildcard.
pub open spec fn natural_word(w: Seq<char>) -> Seq<char> {
    let up = uppercase_of(w);
    if up == "AND"@ || up == "OR"@ || up == "NOT"@ {
        up
    } else if w.len() > 0 && w.last() == '*' {
        escape_natural(w.drop_last()).push('*')
    } else {
        escape_natural(w)
    }
}

/// `natural_word` for an ASCII word: AND, OR and NOT in any mix of case
/// become the upper-case operator; otherwise the word is escaped as there.
pub open spec fn natural_ascii_word(w: Seq<char>) -> Seq<char> {
    let up = ascii_upper(w);
    if up == "AND"@ || up == "OR"@ || up == "NOT"@ {
        up
    } else if w.len() > 0 && w.last() == '*' {
        escape_natural(w.drop_last()).push('*')
    } else {
        escape_natural(w)
    }
}

/// How an FTS query string is derived from the user's query.
#[derive(Debug, Clone, Copy, PartialEq, Eq, Structural)]
pub enum SearchMode {
    /// The whole query as one quoted phrase (the default, safest).
    Phrase,
    /// Words with AND/OR/NOT and prefix wildcards; other syntax escaped.
    Natural,
    /// The query as given.
    Raw,
}

impl Default for SearchMode {
    fn default() -> (r: Self)
        ensures
            r == SearchMode::Phrase,
    {
        SearchMode::Phrase
    }
}

/// The FTS query for a user query in a mode.
pub open spec fn fts_query(mode: SearchMode, q: Seq<char>) -> Seq<char> {
    match mode {
        SearchMode::Phrase => seq!['"'] + escape_quotes(q) + seq!['"'],
        SearchMode::Natural => join(words(q).map_values(|w: Seq<char>| natural_word(w)), " "@),
        SearchMode::Raw => q,
    }
}

fn push_escaped_quotes(out: &mut String, s: &Vec<char>)
    ensures
        final(out)@ == old(out)@ + escape_quotes(s@),
{
    let mut i: usize = 0;
    while i < s.len()
        invariant
            i <= s.len(),
            out@ == old(out)@ + escape_quotes(s@.take(i as int)),
        decreases s.len() - i,
    {
        let c = s[i];
        assert(s@.take(i + 1).drop_last() =~= s@.take(i as int));
        if c == '"' {
            push_char(out, '"');
            push_char(out, '"');
        } else {
            push_char(out, c);
        }
        assert(out@ =~= old(out)@ + escape_quotes(s@.take(i + 1)));
        i = i + 1;
    }
    assert(s@.take(s.len() as int) =~= s@);
}

fn push_escaped_natural(out: &mut String, s: &Vec<char>, n: usize)
    requires
        n <= s.len(),
    ensures
        final(out)@ == old(out)@ + escape_natural(s@.take(n as int)),
{
    let mut i: usize = 0;
    while i < n
        invariant
            i <= n,
            n <= s.len(),
            out@ == old(out)@ + escape_natural(s@.take(i as int)),
        decreases n - i,
    {
        let c = s[i];
        assert(s@.take(i + 1).drop_last() =~= s@.take(i as int));
        if c == '"' {
            push_char(out, '"');
            push_char(out, '"');
        } else if c == '(' || c == ')' {
        } else if c == ':' {
            push_char(out, ' ');
        } else {
            push_char(out, c);
        }
        assert(out@ =~= old(out)@ + escape_natural(s@.take(i + 1)));
        i = i + 1;
    }
}

fn string_of(v: &Vec<char>) -> (r: String)
    ensures
        r@ == v@,
{
    let mut r = String::new();
    let mut i: usize = 0;
    while i < v.len()
        invariant
            i <= v.len(),
            r@ == v@.take(i as int),
        decreases v.len() - i,
    {
        push_char(&mut r, v[i]);
        assert(v@.take(i as int).push(v@[i as int]) =~= v@.take(i + 1));
        i = i + 1;
    }
    assert(v@.take(v.len() as int) =~= v@);
    r
}

fn render_natural_word(w: &Vec<char>) -> (r: String)
    ensures
        r@ == natural_word(w@),
        all_ascii(w@) ==> natural_word(w@) == natural_ascii_word(w@),
{
    let word = string_of(w);
    let up = to_uppercase(word.as_str());
    if str_eq(up.as_str(), "AND") || str_eq(up.as_str(), "OR") || str_eq(up.as_str(), "NOT") {
        return up;
    }
    let mut out = String::new();
    if w.len() > 0 && w[w.len() - 1] == '*' {
        push_escaped_natural(&mut out, w, w.len() - 1);
        push_char(&mut out, '*');
        assert(w@.take(w.len() - 1) =~= w@.drop_last());
        assert(out@ =~= escape_natural(w@.drop_last()).push('*'));
    } else {
        push_escaped_natural(&mut out, w, w.len());
        assert(w@.take(w.len() as int) =~= w@);
        assert(out@ =~= escape_natural(w@));
    }
    out
}

impl SearchMode {
    /// The FTS query for `query`: in phrase mode the query in double quotes
    /// with its quotes doubled; in natural mode its whitespace-separated
    /// words rendered by `natural_word` and joined by single spaces; in raw
    /// mode the query unchanged.
    ///
    /// For natural mode, an ASCII word is rendered by `natural_ascii_word`:
    /// and/or/not in any case are operators.
    pub fn process(self, query: &str) -> (r: String)
        ensures
            r@ == fts_query(self, query@),
            self == SearchMode::Natural ==> forall|k: int|
                0 <= k < words(query@).len() && all_ascii(#[trigger] words(query@)[k]) ==> natural_word(words(query@)[k])
                    == natural_ascii_word(words(query@)[k]),
    {
        match self {
            SearchMode::Phrase => {
                let q = chars_of(query);
                let mut out = String::new();
                push_char(&mut out, '"');
                push_escaped_quotes(&mut out, &q);
                push_char(&mut out, '"');
                assert(out@ =~= seq!['"'] + escape_quotes(query@) + seq!['"']);
                out
            },
            SearchMode::Natural => {
                let q = chars_of(query);
                let ws = split_words(&q);
                let mut rendered: Vec<String> = Vec::new();
                let mut i: usize = 0;
                while i < ws.len()
                    invariant
                        i <= ws.len(),
                        q@ == query@,
                        ws@.len() == words(q@).len(),
                        forall|k: int| 0 <= k < ws@.len() ==> #[trigger] ws@[k]@ == words(q@)[k],
                        rendered@.len() == i,
                        forall|k: int| 0 <= k < i ==> #[trigger] rendered@[k]@ == natural_word(words(q@)[k]),
                        forall|k: int|
                            0 <= k < i && all_ascii(#[trigger] words(q@)[k]) ==> natural_word(words(q@)[k])
                                == natural_ascii_word(words(q@)[k]),
                    decreases ws.len() - i,
                {
                    let r = render_natural_word(&ws[i]);
                    rendered.push(r);
                    i = i + 1;
                }
                let ghost target = words(query@).map_values(|w: Seq<char>| natural_word(w));
                assert(views(rendered@) =~= target);
                proof {
                    reveal_strlit(" ");
                }
                join_strings(&rendered, " ")
            },
            SearchMode::Raw => owned(query),
        }
    }
}

/// Type of a recovered context match.
#[derive(Debug, Clone, Copy, PartialEq, Eq, Structural)]
pub enum MatchType {
    Thinking,
    UserPrompt,
    AssistantResponse,
}

/// Raw mode hands the query over unchanged.
pub proof fn lemma_raw_is_identity(q: Seq<char>)
    ensures
        fts_query(SearchMode::Raw, q) == q,
{
}

/// A phrase query is quoted: it starts and ends with a double quote and is
/// at least two characters long.
pub proof fn lemma_phrase_is_quoted(q: Seq<char>)
    ensures
        fts_query(SearchMode::Phrase, q).len() >= 2,
        fts_query(SearchMode::Phrase, q)[0] == '"',
        fts_query(SearchMode::Phrase, q).last() == '"',
{
}

/// Whether `c` does not occur in `s`.
pub open spec fn lacks(s: Seq<char>, c: char) -> bool {
    forall|i: int| 0 <= i < s.len() ==> s[i] != c
}

/// Natural-mode escaping leaves no colon (a column filter in FTS5) and no
/// parenthesis: colons become spaces, parentheses are dropped.
pub proof fn lemma_escape_natural_drops_syntax(s: Seq<char>)
    ensures
        lacks(escape_natural(s), ':'),
        lacks(escape_natural(s), '('),
        lacks(escape_natural(s), ')'),
    decreases s.len(),
{
    if s.len() > 0 {
        lemma_escape_natural_drops_syntax(s.drop_last());
        let c = s.last();
        let tail = if c == '"' {
            seq!['"', '"']
        } else if c == '(' || c == ')' {
            Seq::empty()
        } else if c == ':' {
            seq![' ']
        } else {
            seq![c]
        };
        let e = escape_natural(s.drop_last());
        assert(escape_natural(s) == e + tail);
        assert forall|i: int| 0 <= i < escape_natural(s).len() implies escape_natural(s)[i] != ':' && escape_natural(s)[i]
            != '(' && escape_natural(s)[i] != ')' by {
            if i < e.len() {
                assert(escape_natural(s)[i] == e[i]);
            } else {
                assert(escape_natural(s)[i] == tail[i - e.len()]);
            }
        }
    }
}

/// A rendered natural-mode word holds no colon.
pub proof fn lemma_natural_word_has_no_colon(w: Seq<char>)
    ensures
        lacks(natural_word(w), ':'),
{
    reveal_strlit("AND");
    reveal_strlit("OR");
    reveal_strlit("NOT");
    let up = uppercase_of(w);
    if up == "AND"@ || up == "OR"@ || up == "NOT"@ {
    } else if w.len() > 0 && w.last() == '*' {
        lemma_escape_natural_drops_syntax(w.drop_last());
        let e = escape_natural(w.drop_last());
        assert forall|i: int| 0 <= i < e.push('*').len() implies e.push('*')[i] != ':' by {
            if i < e.len() {
                assert(e.push('*')[i] == e[i]);
            }
        }
    } else {
        lemma_escape_natural_drops_syntax(w);
    }
}

proof fn lemma_join_lacks(parts: Seq<Seq<char>>, sep: Seq<char>, c: char)
    requires
        lacks(sep, c),
        forall|k: int| 0 <= k < parts.len() ==> lacks(#[trigger] parts[k], c),
    ensures
        lacks(join(parts, sep), c),
    decreases parts.len(),
{
    if parts.len() > 1 {
        lemma_join_lacks(parts.drop_last(), sep, c);
        let a = join(parts.drop_last(), sep);
        let l = parts.last();
        assert(lacks(l, c)) by {
            assert(l == parts[parts.len() - 1]);
        }
        let j = a + sep + l;
        assert forall|i: int| 0 <= i < j.len() implies j[i] != c by {
            if i < a.len() {
                assert(j[i] == a[i]);
            } else if i < a.len() + sep.len() {
                assert(j[i] == sep[i - a.len()]);
            } else {
                assert(j[i] == l[i - a.len() - sep.len()]);
            }
        }
    } else if parts.len() == 1 {
        assert(lacks(parts[0], c));
    }
}

/// A natural-mode query holds no colon, whatever the user typed, so FTS5
/// never reads a word as a column filter.
pub proof fn lemma_natural_query_has_no_colon(q: Seq<char>)
    ensures
        lacks(fts_query(SearchMode::Natural, q), ':'),
{
    let ws = words(q).map_values(|w: Seq<char>| natural_word(w));
    assert forall|k: int| 0 <= k < ws.len() implies lacks(#[trigger] ws[k], ':') by {
        lemma_natural_word_has_no_colon(words(q)[k]);
    }
    reveal_strlit(" ");
    lemma_join_lacks(ws, " "@, ':');
}

} // verus!
