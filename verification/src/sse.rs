//! Reading a streamed (Server-Sent Events) Messages API response: content
//! blocks are accumulated from their deltas and emitted when they stop; the
//! model and token usage are collected from the message events.
//!
//! The body is read segment by segment, a segment being what lies between
//! two `\n`. Each segment is trimmed of Unicode whitespace before use, so a
//! `\r` before the `\n` and a last, empty segment make no difference: the
//! segments read are those that `str::lines` gives, trimmed.

use vstd::prelude::*;

use crate::json::{get_str, get_u64_or_zero, json_get, json_of, parse_json, str_member, u64_member, JsonValue};
use crate::search::{is_ws, is_whitespace};
use crate::text::{chars_of, contains_seq, contains_str, push_str};

verus! {

// ─────────────────────────────────────────────────────────────────────────────
// Segments, trimming and data lines
// ─────────────────────────────────────────────────────────────────────────────

/// The segments of `s` between `\n` characters (always at least one).
pub open spec fn segments(s: Seq<char>) -> Seq<Seq<char>>
    decreases s.len(),
{
    if s.len() == 0 {
        seq![Seq::<char>::empty()]
    } else {
        let w = segments(s.drop_last());
        if s.last() == '\n' {
            w.push(Seq::<char>::empty())
        } else {
            w.update(w.len() - 1, w.last().push(s.last()))
        }
    }
}

proof fn lemma_segments_nonempty(s: Seq<char>)
    ensures
        segments(s).len() >= 1,
    decreases s.len(),
{
    if s.len() > 0 {
        lemma_segments_nonempty(s.drop_last());
    }
}

/// `s` without leading whitespace.
pub open spec fn trim_start(s: Seq<char>) -> Seq<char>
    decreases s.len(),
{
    if s.len() > 0 && is_ws(s[0]) {
        trim_start(s.drop_first())
    } else {
        s
    }
}

/// `s` without trailing whitespace.
pub open spec fn trim_end(s: Seq<char>) -> Seq<char>
    decreases s.len(),
{
    if s.len() > 0 && is_ws(s.last()) {
        trim_end(s.drop_last())
    } else {
        s
    }
}

/// `s` without leading and trailing whitespace (`str::trim`).
pub open spec fn trim(s: Seq<char>) -> Seq<char> {
    trim_end(trim_start(s))
}

/// The JSON text of a `data:` line: the trimmed rest of the trimmed line
/// after `data:`; none for other lines, empty data and `[DONE]`.
pub open spec fn data_payload(line: Seq<char>) -> Option<Seq<char>> {
    let t = trim(line);
    if t.len() >= 5 && t.take(5) == "data:"@ {
        let p = trim(t.skip(5));
        if p.len() == 0 || p == "[DONE]"@ {
            None
        } else {
            Some(p)
        }
    } else {
        None
    }
}

/// Bounds `[a, b)` such that `v[a..b]` is `v[lo..hi]` trimmed.
pub(crate) fn trim_bounds(v: &Vec<char>, lo: usize, hi: usize) -> (r: (usize, usize))
    requires
        lo <= hi <= v.len(),
    ensures
        lo <= r.0 <= r.1 <= hi,
        v@.subrange(r.0 as int, r.1 as int) == trim(v@.subrange(lo as int, hi as int)),
{
    let mut a = lo;
    while a < hi && is_whitespace(v[a])
        invariant
            lo <= a <= hi <= v.len(),
            trim_start(v@.subrange(lo as int, hi as int)) == trim_start(v@.subrange(a as int, hi as int)),
        decreases hi - a,
    {
        assert(v@.subrange(a as int, hi as int).drop_first() =~= v@.subrange(a + 1, hi as int));
        a = a + 1;
    }
    assert(trim_start(v@.subrange(a as int, hi as int)) == v@.subrange(a as int, hi as int));
    let mut b = hi;
    while b > a && is_whitespace(v[b - 1])
        invariant
            lo <= a <= b <= hi <= v.len(),
            trim_end(v@.subrange(a as int, hi as int)) == trim_end(v@.subrange(a as int, b as int)),
        decreases b - a,
    {
        assert(v@.subrange(a as int, b as int).drop_last() =~= v@.subrange(a as int, b - 1));
        b = b - 1;
    }
    assert(trim_end(v@.subrange(a as int, b as int)) == v@.subrange(a as int, b as int));
    (a, b)
}

/// Whether `v[lo..lo + lit.len()]` holds the characters of `lit`.
fn has_at(v: &Vec<char>, lo: usize, hi: usize, lit: &str) -> (r: bool)
    requires
        lo <= hi <= v.len(),
    ensures
        r == (hi - lo >= lit@.len() && v@.subrange(lo as int, lo + lit@.len()) == lit@),
{
    let l = chars_of(lit);
    if hi - lo < l.len() {
        return false;
    }
    let mut j: usize = 0;
    while j < l.len()
        invariant
            j <= l.len(),
            l@ == lit@,
            lo + l.len() <= hi <= v.len(),
            forall|k: int| 0 <= k < j ==> v@[lo + k] == l@[k],
        decreases l.len() - j,
    {
        if v[lo + j] != l[j] {
            assert(v@.subrange(lo as int, lo + l.len())[j as int] != l@[j as int]);
            return false;
        }
        j = j + 1;
    }
    assert(v@.subrange(lo as int, lo + l.len()) =~= l@);
    true
}

pub(crate) fn string_of_range(v: &Vec<char>, lo: usize, hi: usize) -> (r: String)
    requires
        lo <= hi <= v.len(),
    ensures
        r@ == v@.subrange(lo as int, hi as int),
{
    let mut r = String::new();
    let mut i = lo;
    while i < hi
        invariant
            lo <= i <= hi <= v.len(),
            r@ == v@.subrange(lo as int, i as int),
        decreases hi - i,
    {
        crate::text::push_char(&mut r, v[i]);
        assert(v@.subrange(lo as int, i as int).push(v@[i as int]) =~= v@.subrange(lo as int, i + 1));
        i = i + 1;
    }
    r
}

// ─────────────────────────────────────────────────────────────────────────────
// Blocks and parser state
// ─────────────────────────────────────────────────────────────────────────────

/// A content block being accumulated.
pub enum PartialBlock {
    ToolUse { id: String, tool_name: String, input_json: String },
    Thinking { content: String },
    Text { content: String },
    Other,
}

/// A completed content block.
pub enum SseBlock {
    /// A tool call with its input as the accumulated JSON text.
    ToolCall { id: String, tool_name: String, input_json: String },
    /// A thinking block with a token estimate (UTF-8 bytes / 4).
    Thinking { content: String, token_estimate: u32 },
    /// Assistant text.
    Text { content: String },
}

/// Model and token usage of a response.
pub struct SseUsage {
    pub model: String,
    pub input_tokens: u32,
    pub output_tokens: u32,
    pub cache_creation_tokens: u32,
    pub cache_read_tokens: u32,
}

/// What a streamed response holds.
pub struct SseResponse {
    /// Completed blocks in the order they were emitted.
    pub blocks: Vec<SseBlock>,
    /// Usage, when a model and a non-zero token count were seen.
    pub usage: Option<SseUsage>,
}

/// A partial block, by its characters.
pub enum PartialV {
    ToolUse { id: Seq<char>, tool_name: Seq<char>, input_json: Seq<char> },
    Thinking { content: Seq<char> },
    Text { content: Seq<char> },
    Other,
}

/// A completed block, by its characters.
pub enum BlockV {
    ToolCall { id: Seq<char>, tool_name: Seq<char>, input_json: Seq<char> },
    Thinking { content: Seq<char>, token_estimate: u32 },
    Text { content: Seq<char> },
}

/// Usage, by its characters.
pub struct UsageV {
    pub model: Seq<char>,
    pub input_tokens: u32,
    pub output_tokens: u32,
    pub cache_creation_tokens: u32,
    pub cache_read_tokens: u32,
}

/// The reading state, by its characters.
pub struct SseStateV {
    pub model: Option<Seq<char>>,
    pub input_tokens: u32,
    pub output_tokens: u32,
    pub cache_creation_tokens: u32,
    pub cache_read_tokens: u32,
    /// Open blocks by index, each index once.
    pub partials: Seq<(u32, PartialV)>,
    /// Blocks emitted so far.
    pub blocks: Seq<BlockV>,
}

pub open spec fn partial_view(p: PartialBlock) -> PartialV {
    match p {
        PartialBlock::ToolUse { id, tool_name, input_json } => PartialV::ToolUse { id: id@, tool_name: tool_name@, input_json: input_json@ },
        PartialBlock::Thinking { content } => PartialV::Thinking { content: content@ },
        PartialBlock::Text { content } => PartialV::Text { content: content@ },
        PartialBlock::Other => PartialV::Other,
    }
}

pub open spec fn block_view(b: SseBlock) -> BlockV {
    match b {
        SseBlock::ToolCall { id, tool_name, input_json } => BlockV::ToolCall { id: id@, tool_name: tool_name@, input_json: input_json@ },
        SseBlock::Thinking { content, token_estimate } => BlockV::Thinking { content: content@, token_estimate },
        SseBlock::Text { content } => BlockV::Text { content: content@ },
    }
}

/// Open blocks by their characters.
pub open spec fn partials_view(ps: Seq<(u32, PartialBlock)>) -> Seq<(u32, PartialV)> {
    ps.map_values(|e: (u32, PartialBlock)| (e.0, partial_view(e.1)))
}

/// The characters of a sequence of blocks.
pub open spec fn blocks_view(bs: Seq<SseBlock>) -> Seq<BlockV> {
    bs.map_values(|b: SseBlock| block_view(b))
}

pub open spec fn usage_view(u: SseUsage) -> UsageV {
    UsageV {
        model: u.model@,
        input_tokens: u.input_tokens,
        output_tokens: u.output_tokens,
        cache_creation_tokens: u.cache_creation_tokens,
        cache_read_tokens: u.cache_read_tokens,
    }
}

/// The characters of a response: its blocks and its usage.
pub open spec fn response_view(r: SseResponse) -> (Seq<BlockV>, Option<UsageV>) {
    (
        blocks_view(r.blocks@),
        match r.usage {
            Some(u) => Some(usage_view(u)),
            None => None,
        },
    )
}

/// The state before the first line.
pub open spec fn initial_state() -> SseStateV {
    SseStateV {
        model: None,
        input_tokens: 0,
        output_tokens: 0,
        cache_creation_tokens: 0,
        cache_read_tokens: 0,
        partials: Seq::empty(),
        blocks: Seq::empty(),
    }
}

/// Whether index `k` has an open block.
pub open spec fn has_block(ps: Seq<(u32, PartialV)>, k: u32) -> bool {
    exists|i: int| 0 <= i < ps.len() && ps[i].0 == k
}

/// The position of the open block with index `k` (when there is one).
pub open spec fn block_pos(ps: Seq<(u32, PartialV)>, k: u32) -> int {
    choose|i: int| 0 <= i < ps.len() && ps[i].0 == k
}

/// Opens a block at index `k`, replacing one already open there.
pub open spec fn open_block(ps: Seq<(u32, PartialV)>, k: u32, p: PartialV) -> Seq<(u32, PartialV)> {
    if has_block(ps, k) {
        ps.update(block_pos(ps, k), (k, p))
    } else {
        ps.push((k, p))
    }
}

/// Whether no index occurs twice.
pub open spec fn distinct_indices(ps: Seq<(u32, PartialV)>) -> bool {
    forall|i: int, j: int| 0 <= i < ps.len() && 0 <= j < ps.len() && i != j ==> #[trigger] ps[i].0 != #[trigger] ps[j].0
}

/// The block a partial block becomes when it stops: tool calls always,
/// thinking and text when not empty.
pub open spec fn finished(p: PartialV) -> Option<BlockV> {
    match p {
        PartialV::ToolUse { id, tool_name, input_json } => Some(BlockV::ToolCall { id, tool_name, input_json }),
        PartialV::Thinking { content } => if content.len() > 0 {
            Some(BlockV::Thinking { content, token_estimate: ((vstd::utf8::encode_utf8(content).len() as usize) / 4) as u32 })
        } else {
            None
        },
        PartialV::Text { content } => if content.len() > 0 {
            Some(BlockV::Text { content })
        } else {
            None
        },
        PartialV::Other => None,
    }
}

/// `bs` with the block that `p` becomes, if any, appended.
pub open spec fn emit(bs: Seq<BlockV>, p: PartialV) -> Seq<BlockV> {
    match finished(p) {
        Some(b) => bs.push(b),
        None => bs,
    }
}

/// A string member, or the empty string.
pub open spec fn str_or_empty(v: JsonValue, key: Seq<char>) -> Seq<char> {
    match str_member(v, key) {
        Some(s) => s,
        None => Seq::empty(),
    }
}

/// The block that a `content_block_start` opens, by the block's type.
pub open spec fn started_block(cb: JsonValue) -> PartialV {
    let t = str_or_empty(cb, "type"@);
    if t == "tool_use"@ {
        PartialV::ToolUse { id: str_or_empty(cb, "id"@), tool_name: str_or_empty(cb, "name"@), input_json: Seq::empty() }
    } else if t == "thinking"@ {
        PartialV::Thinking { content: Seq::empty() }
    } else if t == "text"@ {
        PartialV::Text { content: Seq::empty() }
    } else {
        PartialV::Other
    }
}

/// An open block after a delta: tool inputs take `input_json_delta`
/// fragments, thinking takes `thinking_delta`, text takes `text_delta`.
pub open spec fn applied_delta(p: PartialV, delta: JsonValue) -> PartialV {
    let t = str_or_empty(delta, "type"@);
    match p {
        PartialV::ToolUse { id, tool_name, input_json } => if t == "input_json_delta"@ && str_member(delta, "partial_json"@) is Some {
            PartialV::ToolUse { id, tool_name, input_json: input_json + str_member(delta, "partial_json"@)->0 }
        } else {
            p
        },
        PartialV::Thinking { content } => if t == "thinking_delta"@ && str_member(delta, "thinking"@) is Some {
            PartialV::Thinking { content: content + str_member(delta, "thinking"@)->0 }
        } else {
            p
        },
        PartialV::Text { content } => if t == "text_delta"@ && str_member(delta, "text"@) is Some {
            PartialV::Text { content: content + str_member(delta, "text"@)->0 }
        } else {
            p
        },
        PartialV::Other => p,
    }
}

/// The state after one SSE event `d`.
pub open spec fn event_step(st: SseStateV, d: JsonValue) -> SseStateV {
    let t = str_or_empty(d, "type"@);
    let idx = u64_member(d, "index"@) as u32;
    if t == "message_start"@ {
        match json_get(d, "message"@) {
            None => st,
            Some(m) => {
                let st2 = SseStateV { model: str_member(m, "model"@), ..st };
                match json_get(m, "usage"@) {
                    None => st2,
                    Some(u) => SseStateV {
                        input_tokens: u64_member(u, "input_tokens"@) as u32,
                        cache_creation_tokens: u64_member(u, "cache_creation_input_tokens"@) as u32,
                        cache_read_tokens: u64_member(u, "cache_read_input_tokens"@) as u32,
                        ..st2
                    },
                }
            },
        }
    } else if t == "content_block_start"@ {
        match json_get(d, "content_block"@) {
            None => st,
            Some(cb) => SseStateV { partials: open_block(st.partials, idx, started_block(cb)), ..st },
        }
    } else if t == "content_block_delta"@ {
        match json_get(d, "delta"@) {
            None => st,
            Some(delta) => if has_block(st.partials, idx) {
                let i = block_pos(st.partials, idx);
                SseStateV { partials: st.partials.update(i, (idx, applied_delta(st.partials[i].1, delta))), ..st }
            } else {
                st
            },
        }
    } else if t == "content_block_stop"@ {
        if has_block(st.partials, idx) {
            let i = block_pos(st.partials, idx);
            SseStateV { partials: st.partials.remove(i), blocks: emit(st.blocks, st.partials[i].1), ..st }
        } else {
            st
        }
    } else if t == "message_delta"@ {
        match json_get(d, "usage"@) {
            None => st,
            Some(u) => SseStateV { output_tokens: u64_member(u, "output_tokens"@) as u32, ..st },
        }
    } else {
        st
    }
}

/// The state after one segment of the body.
pub open spec fn line_step(st: SseStateV, line: Seq<char>) -> SseStateV {
    match data_payload(line) {
        None => st,
        Some(p) => match json_of(p) {
            None => st,
            Some(d) => event_step(st, d),
        },
    }
}

/// The state after a sequence of segments.
pub open spec fn run_lines(lines: Seq<Seq<char>>) -> SseStateV
    decreases lines.len(),
{
    if lines.len() == 0 {
        initial_state()
    } else {
        line_step(run_lines(lines.drop_last()), lines.last())
    }
}

/// The blocks still open at the end, emitted in order.
pub open spec fn emit_all(bs: Seq<BlockV>, ps: Seq<(u32, PartialV)>) -> Seq<BlockV>
    decreases ps.len(),
{
    if ps.len() == 0 {
        bs
    } else {
        emit(emit_all(bs, ps.drop_last()), ps.last().1)
    }
}

/// What a streamed body holds: the emitted blocks, then the blocks left
/// open; and the usage when a model was named and an input or output token
/// count is not zero.
pub open spec fn sse_result(body: Seq<char>) -> (Seq<BlockV>, Option<UsageV>) {
    let st = run_lines(segments(body));
    (
        emit_all(st.blocks, st.partials),
        match st.model {
            Some(m) => if st.input_tokens > 0 || st.output_tokens > 0 {
                Some(UsageV {
                    model: m,
                    input_tokens: st.input_tokens,
                    output_tokens: st.output_tokens,
                    cache_creation_tokens: st.cache_creation_tokens,
                    cache_read_tokens: st.cache_read_tokens,
                })
            } else {
                None
            },
            None => None,
        },
    )
}

/// A text delta appends its fragment: after a `content_block_delta` event
/// whose delta is a `text_delta` with text `f`, the open text block at that
/// index holds its former text followed by `f`; nothing else changes.
pub proof fn lemma_text_delta_appends(st: SseStateV, d: JsonValue, delta: JsonValue, i: int, c: Seq<char>, f: Seq<char>)
    requires
        distinct_indices(st.partials),
        0 <= i < st.partials.len(),
        st.partials[i].1 == (PartialV::Text { content: c }),
        st.partials[i].0 == u64_member(d, "index"@) as u32,
        str_member(d, "type"@) == Some("content_block_delta"@),
        json_get(d, "delta"@) == Some(delta),
        str_member(delta, "type"@) == Some("text_delta"@),
        str_member(delta, "text"@) == Some(f),
    ensures
        event_step(st, d).partials == st.partials.update(i, (st.partials[i].0, PartialV::Text { content: c + f })),
        event_step(st, d).blocks == st.blocks,
{
    reveal_strlit("content_block_delta");
    reveal_strlit("message_start");
    reveal_strlit("content_block_start");
    reveal_strlit("text_delta");
    reveal_strlit("input_json_delta");
    reveal_strlit("thinking_delta");
    assert("content_block_delta"@[0] != "message_start"@[0]);
    assert("content_block_delta"@[14] != "content_block_start"@[14]);
    lemma_block_pos(st.partials, st.partials[i].0, i);
}

/// A thinking delta appends its fragment to the open thinking block.
pub proof fn lemma_thinking_delta_appends(st: SseStateV, d: JsonValue, delta: JsonValue, i: int, c: Seq<char>, f: Seq<char>)
    requires
        distinct_indices(st.partials),
        0 <= i < st.partials.len(),
        st.partials[i].1 == (PartialV::Thinking { content: c }),
        st.partials[i].0 == u64_member(d, "index"@) as u32,
        str_member(d, "type"@) == Some("content_block_delta"@),
        json_get(d, "delta"@) == Some(delta),
        str_member(delta, "type"@) == Some("thinking_delta"@),
        str_member(delta, "thinking"@) == Some(f),
    ensures
        event_step(st, d).partials == st.partials.update(i, (st.partials[i].0, PartialV::Thinking { content: c + f })),
        event_step(st, d).blocks == st.blocks,
{
    reveal_strlit("content_block_delta");
    reveal_strlit("message_start");
    reveal_strlit("content_block_start");
    assert("content_block_delta"@[0] != "message_start"@[0]);
    assert("content_block_delta"@[14] != "content_block_start"@[14]);
    lemma_block_pos(st.partials, st.partials[i].0, i);
}

/// An input delta appends its JSON fragment to the open tool call's input.
pub proof fn lemma_input_delta_appends(
    st: SseStateV,
    d: JsonValue,
    delta: JsonValue,
    i: int,
    id: Seq<char>,
    name: Seq<char>,
    input: Seq<char>,
    f: Seq<char>,
)
    requires
        distinct_indices(st.partials),
        0 <= i < st.partials.len(),
        st.partials[i].1 == (PartialV::ToolUse { id, tool_name: name, input_json: input }),
        st.partials[i].0 == u64_member(d, "index"@) as u32,
        str_member(d, "type"@) == Some("content_block_delta"@),
        json_get(d, "delta"@) == Some(delta),
        str_member(delta, "type"@) == Some("input_json_delta"@),
        str_member(delta, "partial_json"@) == Some(f),
    ensures
        event_step(st, d).partials == st.partials.update(
            i,
            (st.partials[i].0, PartialV::ToolUse { id, tool_name: name, input_json: input + f }),
        ),
        event_step(st, d).blocks == st.blocks,
{
    reveal_strlit("content_block_delta");
    reveal_strlit("message_start");
    reveal_strlit("content_block_start");
    assert("content_block_delta"@[0] != "message_start"@[0]);
    assert("content_block_delta"@[14] != "content_block_start"@[14]);
    lemma_block_pos(st.partials, st.partials[i].0, i);
}

/// The state after a sequence of events.
pub open spec fn run_events(st: SseStateV, ds: Seq<JsonValue>) -> SseStateV
    decreases ds.len(),
{
    if ds.len() == 0 {
        st
    } else {
        event_step(run_events(st, ds.drop_last()), ds.last())
    }
}

/// Fragments joined in order.
pub open spec fn concat_all(fs: Seq<Seq<char>>) -> Seq<char>
    decreases fs.len(),
{
    if fs.len() == 0 {
        Seq::empty()
    } else {
        concat_all(fs.drop_last()) + fs.last()
    }
}

/// Text deltas accumulate: after a run of `text_delta` events for an open
/// text block, with fragments `f1 .. fn`, the block holds its former text
/// followed by `f1 + .. + fn`, and no block was emitted.
pub proof fn lemma_text_deltas_concatenate(
    st: SseStateV,
    ds: Seq<JsonValue>,
    deltas: Seq<JsonValue>,
    fs: Seq<Seq<char>>,
    i: int,
    c: Seq<char>,
)
    requires
        distinct_indices(st.partials),
        0 <= i < st.partials.len(),
        st.partials[i].1 == (PartialV::Text { content: c }),
        ds.len() == deltas.len(),
        ds.len() == fs.len(),
        forall|j: int|
            0 <= j < ds.len() ==> {
                &&& str_member(#[trigger] ds[j], "type"@) == Some("content_block_delta"@)
                &&& u64_member(ds[j], "index"@) as u32 == st.partials[i].0
                &&& json_get(ds[j], "delta"@) == Some(deltas[j])
                &&& str_member(deltas[j], "type"@) == Some("text_delta"@)
                &&& str_member(deltas[j], "text"@) == Some(fs[j])
            },
    ensures
        run_events(st, ds).partials == st.partials.update(i, (st.partials[i].0, PartialV::Text { content: c + concat_all(fs) })),
        run_events(st, ds).blocks == st.blocks,
    decreases ds.len(),
{
    if ds.len() == 0 {
        assert(c + concat_all(fs) =~= c);
        assert(st.partials.update(i, (st.partials[i].0, PartialV::Text { content: c })) =~= st.partials);
    } else {
        let n = ds.len() - 1;
        lemma_text_deltas_concatenate(st, ds.drop_last(), deltas.drop_last(), fs.drop_last(), i, c);
        let mid = run_events(st, ds.drop_last());
        let k = st.partials[i].0;
        let prev = c + concat_all(fs.drop_last());
        assert(mid.partials[i] == (k, PartialV::Text { content: prev }));
        assert(distinct_indices(mid.partials)) by {
            assert forall|a: int, b: int| 0 <= a < mid.partials.len() && 0 <= b < mid.partials.len() && a != b implies
                #[trigger] mid.partials[a].0 != #[trigger] mid.partials[b].0 by {
                assert(mid.partials[a].0 == st.partials[a].0);
                assert(mid.partials[b].0 == st.partials[b].0);
            }
        }
        assert(ds[n] == ds.last());
        lemma_text_delta_appends(mid, ds[n], deltas[n], i, prev, fs[n]);
        assert(prev + fs[n] =~= c + concat_all(fs));
        assert(mid.partials.update(i, (k, PartialV::Text { content: prev + fs[n] })) =~= st.partials.update(
            i,
            (k, PartialV::Text { content: c + concat_all(fs) }),
        ));
    }
}

/// A stop emits the text gathered: after a `content_block_stop` event for
/// the index of an open, non-empty text block, that block is closed and a
/// text block with exactly its text is appended to the emitted blocks.
pub proof fn lemma_text_stop_emits(st: SseStateV, d: JsonValue, i: int, c: Seq<char>)
    requires
        distinct_indices(st.partials),
        0 <= i < st.partials.len(),
        st.partials[i].1 == (PartialV::Text { content: c }),
        c.len() > 0,
        st.partials[i].0 == u64_member(d, "index"@) as u32,
        str_member(d, "type"@) == Some("content_block_stop"@),
    ensures
        event_step(st, d).blocks == st.blocks.push(BlockV::Text { content: c }),
        event_step(st, d).partials == st.partials.remove(i),
{
    reveal_strlit("content_block_stop");
    reveal_strlit("content_block_delta");
    reveal_strlit("message_start");
    reveal_strlit("content_block_start");
    assert("content_block_stop"@[0] != "message_start"@[0]);
    assert("content_block_stop"@[16] != "content_block_start"@[16]);
    assert("content_block_stop"@[14] != "content_block_delta"@[14]);
    lemma_block_pos(st.partials, st.partials[i].0, i);
}

// ─────────────────────────────────────────────────────────────────────────────
// The reader
// ─────────────────────────────────────────────────────────────────────────────

struct SseState {
    model: Option<String>,
    input_tokens: u32,
    output_tokens: u32,
    cache_creation_tokens: u32,
    cache_read_tokens: u32,
    partials: Vec<(u32, PartialBlock)>,
    blocks: Vec<SseBlock>,
}

impl SseState {
    spec fn view(&self) -> SseStateV {
        SseStateV {
            model: crate::text::opt_view(self.model),
            input_tokens: self.input_tokens,
            output_tokens: self.output_tokens,
            cache_creation_tokens: self.cache_creation_tokens,
            cache_read_tokens: self.cache_read_tokens,
            partials: partials_view(self.partials@),
            blocks: blocks_view(self.blocks@),
        }
    }
}

/// Position of the open block with index `k`.
fn find_block(ps: &Vec<(u32, PartialBlock)>, k: u32) -> (r: Option<usize>)
    ensures
        match r {
            Some(i) => i < ps.len() && ps@[i as int].0 == k,
            None => forall|i: int| 0 <= i < ps.len() ==> ps@[i].0 != k,
        },
{
    let mut i: usize = 0;
    while i < ps.len()
        invariant
            i <= ps.len(),
            forall|j: int| 0 <= j < i ==> ps@[j].0 != k,
        decreases ps.len() - i,
    {
        if ps[i].0 == k {
            return Some(i);
        }
        i = i + 1;
    }
    None
}

fn finish_block(p: PartialBlock) -> (r: Option<SseBlock>)
    ensures
        match r {
            Some(b) => finished(partial_view(p)) == Some(block_view(b)),
            None => finished(partial_view(p)) is None,
        },
{
    match p {
        PartialBlock::ToolUse { id, tool_name, input_json } => {
            Some(SseBlock::ToolCall { id, tool_name, input_json })
        },
        PartialBlock::Thinking { content } => {
            if !content.as_str().is_empty() {
                let n = content.as_str().len();
                #[verifier::truncate]
                let token_estimate = (n / 4) as u32;
                Some(SseBlock::Thinking { content, token_estimate })
            } else {
                None
            }
        },
        PartialBlock::Text { content } => {
            if !content.as_str().is_empty() {
                Some(SseBlock::Text { content })
            } else {
                None
            }
        },
        PartialBlock::Other => None,
    }
}

fn emit_block(blocks: &mut Vec<SseBlock>, p: PartialBlock)
    ensures
        blocks_view(final(blocks)@) == emit(blocks_view(old(blocks)@), partial_view(p)),
{
    match finish_block(p) {
        Some(b) => {
            let ghost bv = block_view(b);
            blocks.push(b);
            assert(blocks_view(blocks@) =~= blocks_view(old(blocks)@).push(bv));
        },
        None => {},
    }
}

proof fn lemma_block_pos(ps: Seq<(u32, PartialV)>, k: u32, i: int)
    requires
        distinct_indices(ps),
        0 <= i < ps.len(),
        ps[i].0 == k,
    ensures
        has_block(ps, k),
        block_pos(ps, k) == i,
{
    let j = block_pos(ps, k);
    assert(ps[j].0 == ps[i].0);
}

proof fn lemma_no_block(ps: Seq<(u32, PartialV)>, k: u32)
    requires
        forall|i: int| 0 <= i < ps.len() ==> ps[i].0 != k,
    ensures
        !has_block(ps, k),
{
}

/// The block a `content_block_start` opens.
fn start_block(cb: &JsonValue) -> (r: PartialBlock)
    ensures
        partial_view(r) == started_block(*cb),
{
    let t = match get_str(cb, "type") {
        Some(t) => t,
        None => String::new(),
    };
    assert(t@ == str_or_empty(*cb, "type"@));
    if crate::text::str_eq(t.as_str(), "tool_use") {
        let id = match get_str(cb, "id") {
            Some(s) => s,
            None => String::new(),
        };
        let tool_name = match get_str(cb, "name") {
            Some(s) => s,
            None => String::new(),
        };
        PartialBlock::ToolUse { id, tool_name, input_json: String::new() }
    } else if crate::text::str_eq(t.as_str(), "thinking") {
        PartialBlock::Thinking { content: String::new() }
    } else if crate::text::str_eq(t.as_str(), "text") {
        PartialBlock::Text { content: String::new() }
    } else {
        PartialBlock::Other
    }
}

/// Appends the string member `key` of `delta`, if there is one, to `out`.
fn append_member(out: &mut String, delta: &JsonValue, key: &str) -> (found: bool)
    ensures
        found == (str_member(*delta, key@) is Some),
        found ==> final(out)@ == old(out)@ + str_member(*delta, key@)->0,
        !found ==> final(out)@ == old(out)@,
{
    match get_str(delta, key) {
        Some(s) => {
            push_str(out, s.as_str());
            true
        },
        None => false,
    }
}

/// An open block after a delta.
fn apply_delta(p: PartialBlock, delta: &JsonValue) -> (r: PartialBlock)
    ensures
        partial_view(r) == applied_delta(partial_view(p), *delta),
{
    let t = match get_str(delta, "type") {
        Some(t) => t,
        None => String::new(),
    };
    assert(t@ == str_or_empty(*delta, "type"@));
    match p {
        PartialBlock::ToolUse { id, tool_name, input_json } => {
            let mut input_json = input_json;
            if crate::text::str_eq(t.as_str(), "input_json_delta") {
                append_member(&mut input_json, delta, "partial_json");
            }
            PartialBlock::ToolUse { id, tool_name, input_json }
        },
        PartialBlock::Thinking { content } => {
            let mut content = content;
            if crate::text::str_eq(t.as_str(), "thinking_delta") {
                append_member(&mut content, delta, "thinking");
            }
            PartialBlock::Thinking { content }
        },
        PartialBlock::Text { content } => {
            let mut content = content;
            if crate::text::str_eq(t.as_str(), "text_delta") {
                append_member(&mut content, delta, "text");
            }
            PartialBlock::Text { content }
        },
        PartialBlock::Other => PartialBlock::Other,
    }
}

/// A token count as the stream reports it, as a `u32`: the `u64` cut to 32 bits.
fn count_of(v: &JsonValue, key: &str) -> (r: u32)
    ensures
        r == u64_member(*v, key@) as u32,
{
    let n = get_u64_or_zero(v, key);
    #[verifier::truncate]
    (n as u32)
}

impl SseState {
    fn new() -> (s: Self)
        ensures
            s.view() == initial_state(),
            distinct_indices(s.view().partials),
    {
        let s = SseState {
            model: None,
            input_tokens: 0,
            output_tokens: 0,
            cache_creation_tokens: 0,
            cache_read_tokens: 0,
            partials: Vec::new(),
            blocks: Vec::new(),
        };
        assert(s.view().partials =~= Seq::<(u32, PartialV)>::empty());
        assert(s.view().blocks =~= Seq::<BlockV>::empty());
        s
    }

    /// Applies one SSE event.
    fn apply_event(&mut self, d: &JsonValue)
        requires
            distinct_indices(old(self).view().partials),
        ensures
            final(self).view() == event_step(old(self).view(), *d),
            distinct_indices(final(self).view().partials),
    {
        let ghost st = self.view();
        let t = match get_str(d, "type") {
            Some(t) => t,
            None => String::new(),
        };
        assert(t@ == str_or_empty(*d, "type"@));
        let idx = count_of(d, "index");
        if crate::text::str_eq(t.as_str(), "message_start") {
            match d.get("message") {
                None => {},
                Some(m) => {
                    self.model = get_str(m, "model");
                    match m.get("usage") {
                        None => {},
                        Some(u) => {
                            self.input_tokens = count_of(u, "input_tokens");
                            self.cache_creation_tokens = count_of(u, "cache_creation_input_tokens");
                            self.cache_read_tokens = count_of(u, "cache_read_input_tokens");
                        },
                    }
                },
            }
        } else if crate::text::str_eq(t.as_str(), "content_block_start") {
            match d.get("content_block") {
                None => {},
                Some(cb) => {
                    let p = start_block(cb);
                    let ghost pv = partial_view(p);
                    match find_block(&self.partials, idx) {
                        Some(i) => {
                            proof { lemma_block_pos(st.partials, idx, i as int); }
                            self.partials.set(i, (idx, p));
                            assert(partials_view(self.partials@) =~= st.partials.update(i as int, (idx, pv)));
                        },
                        None => {
                            proof { lemma_no_block(st.partials, idx); }
                            self.partials.push((idx, p));
                            assert(partials_view(self.partials@) =~= st.partials.push((idx, pv)));
                        },
                    }
                },
            }
        } else if crate::text::str_eq(t.as_str(), "content_block_delta") {
            match d.get("delta") {
                None => {},
                Some(delta) => {
                    match find_block(&self.partials, idx) {
                        Some(i) => {
                            proof { lemma_block_pos(st.partials, idx, i as int); }
                            let (k, p) = self.partials.remove(i);
                            let q = apply_delta(p, delta);
                            let ghost qv = partial_view(q);
                            self.partials.insert(i, (k, q));
                            assert(partials_view(self.partials@) =~= st.partials.update(i as int, (idx, qv)));
                        },
                        None => {
                            proof { lemma_no_block(st.partials, idx); }
                        },
                    }
                },
            }
        } else if crate::text::str_eq(t.as_str(), "content_block_stop") {
            match find_block(&self.partials, idx) {
                Some(i) => {
                    proof { lemma_block_pos(st.partials, idx, i as int); }
                    let (_k, p) = self.partials.remove(i);
                    assert(partials_view(self.partials@) =~= st.partials.remove(i as int));
                    emit_block(&mut self.blocks, p);
                },
                None => {
                    proof { lemma_no_block(st.partials, idx); }
                },
            }
        } else if crate::text::str_eq(t.as_str(), "message_delta") {
            match d.get("usage") {
                None => {},
                Some(u) => {
                    self.output_tokens = count_of(u, "output_tokens");
                },
            }
        }
    }
}

impl SseState {
    /// Reads one segment `v[lo..hi]` of the body.
    fn apply_line(&mut self, v: &Vec<char>, lo: usize, hi: usize)
        requires
            lo <= hi <= v.len(),
            distinct_indices(old(self).view().partials),
        ensures
            final(self).view() == line_step(old(self).view(), v@.subrange(lo as int, hi as int)),
            distinct_indices(final(self).view().partials),
    {
        let ghost line = v@.subrange(lo as int, hi as int);
        let (a, b) = trim_bounds(v, lo, hi);
        proof {
            reveal_strlit("data:");
            reveal_strlit("[DONE]");
        }
        if !has_at(v, a, b, "data:") {
            assert(trim(line) =~= v@.subrange(a as int, b as int));
            assert(!(trim(line).len() >= 5 && trim(line).take(5) == "data:"@)) by {
                if trim(line).len() >= 5 {
                    assert(trim(line).take(5) =~= v@.subrange(a as int, a + 5));
                }
            }
            return;
        }
        assert(trim(line).take(5) =~= v@.subrange(a as int, a + 5));
        assert(trim(line).skip(5) =~= v@.subrange(a + 5, b as int));
        let (c, e) = trim_bounds(v, a + 5, b);
        let ghost payload = v@.subrange(c as int, e as int);
        if c == e {
            assert(payload.len() == 0);
            return;
        }
        if e - c == 6 && has_at(v, c, e, "[DONE]") {
            assert(payload =~= "[DONE]"@);
            return;
        }
        assert(payload != "[DONE]"@) by {
            if payload == "[DONE]"@ {
                assert(v@.subrange(c as int, c + 6) =~= payload);
            }
        }
        assert(data_payload(line) == Some(payload));
        let text = string_of_range(v, c, e);
        match parse_json(text.as_str()) {
            None => {},
            Some(d) => {
                self.apply_event(&d);
            },
        }
    }
}

proof fn lemma_segments_step(s: Seq<char>, c: char)
    ensures
        segments(s.push(c)) == if c == '\n' {
            segments(s).push(Seq::<char>::empty())
        } else {
            segments(s).update(segments(s).len() - 1, segments(s).last().push(c))
        },
{
    assert(s.push(c).drop_last() =~= s);
}

/// Reads a streamed Messages API body: the completed content blocks, in the
/// order they stopped, then those still open at the end; and the model and
/// token usage, when a model was named and a token count is not zero.
pub fn parse_sse_events(body: &str) -> (r: SseResponse)
    ensures
        response_view(r) == sse_result(body@),
{
    let v = chars_of(body);
    let mut st = SseState::new();
    let mut start: usize = 0;
    let mut i: usize = 0;
    proof {
        assert(v@.take(0) =~= Seq::<char>::empty());
        assert(segments(Seq::<char>::empty()).drop_last() =~= Seq::<Seq<char>>::empty());
        assert(v@.subrange(0, 0) =~= Seq::<char>::empty());
    }
    while i < v.len()
        invariant
            v@ == body@,
            start <= i <= v.len(),
            segments(v@.take(i as int)).len() >= 1,
            segments(v@.take(i as int)).last() == v@.subrange(start as int, i as int),
            st.view() == run_lines(segments(v@.take(i as int)).drop_last()),
            distinct_indices(st.view().partials),
        decreases v.len() - i,
    {
        let ghost segs = segments(v@.take(i as int));
        proof {
            assert(v@.take(i + 1) =~= v@.take(i as int).push(v@[i as int]));
            lemma_segments_step(v@.take(i as int), v@[i as int]);
        }
        if v[i] == '\n' {
            st.apply_line(&v, start, i);
            proof {
                assert(segs.drop_last().push(segs.last()) =~= segs);
                assert(segments(v@.take(i + 1)).drop_last() =~= segs);
                assert(v@.subrange(i + 1, i + 1) =~= Seq::<char>::empty());
            }
            start = i + 1;
        } else {
            proof {
                assert(segments(v@.take(i + 1)).drop_last() =~= segs.drop_last());
                assert(v@.subrange(start as int, i as int).push(v@[i as int]) =~= v@.subrange(start as int, i + 1));
            }
        }
        i = i + 1;
    }
    let ghost segs = segments(v@.take(i as int));
    st.apply_line(&v, start, i);
    proof {
        assert(v@.take(i as int) =~= body@);
        assert(segs.drop_last().push(segs.last()) =~= segs);
    }
    let ghost fin = st.view();
    assert(fin == run_lines(segments(body@)));
    let SseState { model, input_tokens, output_tokens, cache_creation_tokens, cache_read_tokens, partials, blocks } = st;
    let mut blocks = blocks;
    let mut partials = partials;
    let ghost p0 = partials_view(partials@);
    let ghost b0 = blocks_view(blocks@);
    let ghost mut j: int = 0;
    proof {
        assert(p0.take(0) =~= Seq::<(u32, PartialV)>::empty());
        assert(partials_view(partials@) =~= p0.skip(0));
    }
    while partials.len() > 0
        invariant
            0 <= j <= p0.len(),
            partials_view(partials@) == p0.skip(j),
            blocks_view(blocks@) == emit_all(b0, p0.take(j)),
        decreases partials.len(),
    {
        assert(partials_view(partials@).len() == partials@.len());
        assert(j < p0.len());
        let ghost pv0 = partials_view(partials@)[0];
        let ghost old_ps = partials@;
        let (_k, p) = partials.remove(0);
        proof {
            assert forall|k: int| 0 <= k < partials@.len() implies #[trigger] partials_view(partials@)[k] == p0.skip(j + 1)[k] by {
                assert(partials@[k] == old_ps[k + 1]);
                assert(partials_view(old_ps)[k + 1] == p0.skip(j)[k + 1]);
            }
            assert(p0.skip(j)[0] == p0[j]);
            assert(pv0.1 == partial_view(p));
            assert(p0.take(j + 1).drop_last() =~= p0.take(j));
            assert(partials_view(partials@) =~= p0.skip(j + 1));
        }
        emit_block(&mut blocks, p);
        proof {
            j = j + 1;
        }
    }
    proof {
        assert(p0.take(j) =~= p0);
    }
    let usage = match model {
        Some(m) => if input_tokens > 0 || output_tokens > 0 {
            Some(SseUsage { model: m, input_tokens, output_tokens, cache_creation_tokens, cache_read_tokens })
        } else {
            None
        },
        None => None,
    };
    SseResponse { blocks, usage }
}

/// How a tool call's accumulated input text becomes its input value.
#[derive(Debug, Clone, Copy, PartialEq, Eq, Structural)]
pub enum ToolInputForm {
    /// Empty text: an empty object.
    EmptyObject,
    /// The text is JSON: its value.
    Json,
    /// Otherwise: the text itself, as a JSON string.
    RawText,
}

/// The form of a tool call's input for its accumulated text.
pub open spec fn input_form(text: Seq<char>) -> ToolInputForm {
    if text.len() == 0 {
        ToolInputForm::EmptyObject
    } else if json_of(text) is Some {
        ToolInputForm::Json
    } else {
        ToolInputForm::RawText
    }
}

/// Decides how a tool call's accumulated input text becomes its input: an
/// empty object for empty text, the parsed value when the text is JSON, the
/// text as a string otherwise.
pub fn tool_input_form(input_json: &str) -> (r: ToolInputForm)
    ensures
        r == input_form(input_json@),
{
    if input_json.is_empty() {
        ToolInputForm::EmptyObject
    } else {
        match parse_json(input_json) {
            Some(_) => ToolInputForm::Json,
            None => ToolInputForm::RawText,
        }
    }
}

/// Whether a response body is a Server-Sent Events stream: it starts with
/// `event:` or has a line that does.
pub fn is_sse(body: &str) -> (r: bool)
    ensures
        r == (("event:"@).is_prefix_of(body@) || contains_seq(body@, "\nevent:"@)),
{
    let v = chars_of(body);
    let starts = has_at(&v, 0, v.len(), "event:");
    proof {
        reveal_strlit("event:");
        if v@.len() >= 6 {
            assert(v@.subrange(0, 6) =~= body@.take(6));
        }
        assert(("event:"@).is_prefix_of(body@) <==> (body@.len() >= 6 && body@.take(6) =~= "event:"@));
    }
    starts || contains_str(body, "\nevent:")
}

} // verus!
