//! The Messages API request and response models, as far as the parser reads
//! them, and the parser that turns requests and responses into events: tool
//! calls are remembered when a response requests them and matched with
//! their results when a later request carries them.
//!
//! JSON values that the parser only passes on or measures (tool inputs,
//! tool results, the system prompt) are held as their compact JSON text.

use vstd::prelude::*;

use crate::context::{
    check_defined, diff_fits, CompactDetection, CompactDetectionState, ContextSnapshot,
};
use crate::sse::{parse_sse_events, sse_result, BlockV, SseBlock, SseResponse};
use crate::strmap::StrMap;
use crate::text::{join, join_strings, owned, views};

verus! {

// ─────────────────────────────────────────────────────────────────────────────
// Models
// ─────────────────────────────────────────────────────────────────────────────

/// A content block of a message.
pub enum ContentBlock {
    Text { text: String },
    /// A tool call; `input_json` is the input as JSON text.
    ToolUse { id: String, name: String, input_json: String },
    /// A tool result; `content_json` is the content as JSON text.
    ToolResult { tool_use_id: String, content_json: String, is_error: bool },
    Thinking { thinking: String, signature: Option<String> },
    /// A block of another type.
    Other,
}

/// A message's content: plain text or content blocks.
pub enum MessageContent {
    Text(String),
    Blocks(Vec<ContentBlock>),
}

/// A message of the conversation.
pub struct Message {
    pub role: String,
    pub content: MessageContent,
}

/// A tool definition; `input_schema_json` is the schema as JSON text.
pub struct Tool {
    pub name: String,
    pub description: Option<String>,
    pub input_schema_json: String,
}

/// Token usage of a response.
pub struct Usage {
    pub input_tokens: u32,
    pub output_tokens: u32,
    pub cache_creation_input_tokens: Option<u32>,
    pub cache_read_input_tokens: Option<u32>,
}

/// A Messages API request (sampling temperatures are not read).
pub struct ApiRequest {
    pub model: String,
    pub messages: Vec<Message>,
    /// The system prompt as JSON text (a string or an array of blocks).
    pub system_json: Option<String>,
    pub top_k: Option<u32>,
    pub stop_sequences: Vec<String>,
    pub tools: Vec<Tool>,
    pub max_tokens: u32,
    /// Whether the response is streamed.
    pub stream: Option<bool>,
    pub metadata_json: Option<String>,
}

/// A (non-streamed) Messages API response.
pub struct ApiResponse {
    pub id: String,
    pub model: String,
    pub content: Vec<ContentBlock>,
    pub stop_reason: Option<String>,
    pub stop_sequence: Option<String>,
    pub usage: Option<Usage>,
}

/// The tool calls among content blocks: id, name and input, in order.
pub open spec fn tool_uses_of(bs: Seq<ContentBlock>) -> Seq<(Seq<char>, Seq<char>, Seq<char>)>
    decreases bs.len(),
{
    if bs.len() == 0 {
        Seq::empty()
    } else {
        let rest = tool_uses_of(bs.drop_last());
        match bs.last() {
            ContentBlock::ToolUse { id, name, input_json } => rest.push((id@, name@, input_json@)),
            _ => rest,
        }
    }
}

/// The tool results among content blocks: id, content and error flag, in order.
pub open spec fn results_in_blocks(bs: Seq<ContentBlock>) -> Seq<(Seq<char>, Seq<char>, bool)>
    decreases bs.len(),
{
    if bs.len() == 0 {
        Seq::empty()
    } else {
        let rest = results_in_blocks(bs.drop_last());
        match bs.last() {
            ContentBlock::ToolResult { tool_use_id, content_json, is_error } => rest.push(
                (tool_use_id@, content_json@, is_error),
            ),
            _ => rest,
        }
    }
}

/// The tool results of a message (none for plain text).
pub open spec fn results_in_message(m: Message) -> Seq<(Seq<char>, Seq<char>, bool)> {
    match m.content {
        MessageContent::Blocks(bs) => results_in_blocks(bs@),
        MessageContent::Text(_) => Seq::empty(),
    }
}

/// The tool results of all messages, message by message.
pub open spec fn tool_results_of(ms: Seq<Message>) -> Seq<(Seq<char>, Seq<char>, bool)>
    decreases ms.len(),
{
    if ms.len() == 0 {
        Seq::empty()
    } else {
        tool_results_of(ms.drop_last()) + results_in_message(ms.last())
    }
}

/// The texts of the text blocks, in order.
pub open spec fn texts_of(bs: Seq<ContentBlock>) -> Seq<Seq<char>>
    decreases bs.len(),
{
    if bs.len() == 0 {
        Seq::empty()
    } else {
        let rest = texts_of(bs.drop_last());
        match bs.last() {
            ContentBlock::Text { text } => rest.push(text@),
            _ => rest,
        }
    }
}

/// The characters of string triples.
pub open spec fn triple_views(v: Seq<(String, String, String)>) -> Seq<(Seq<char>, Seq<char>, Seq<char>)> {
    v.map_values(|t: (String, String, String)| (t.0@, t.1@, t.2@))
}

/// The characters of result triples.
pub open spec fn result_views(v: Seq<(String, String, bool)>) -> Seq<(Seq<char>, Seq<char>, bool)> {
    v.map_values(|t: (String, String, bool)| (t.0@, t.1@, t.2))
}

impl ApiResponse {
    /// The tool calls of the response: id, name and input, in order.
    pub fn tool_uses(&self) -> (r: Vec<(String, String, String)>)
        ensures
            triple_views(r@) == tool_uses_of(self.content@),
    {
        let mut r: Vec<(String, String, String)> = Vec::new();
        let mut i: usize = 0;
        assert(self.content@.take(0) =~= Seq::<ContentBlock>::empty());
        while i < self.content.len()
            invariant
                i <= self.content.len(),
                triple_views(r@) == tool_uses_of(self.content@.take(i as int)),
            decreases self.content.len() - i,
        {
            assert(self.content@.take(i + 1).drop_last() =~= self.content@.take(i as int));
            match &self.content[i] {
                ContentBlock::ToolUse { id, name, input_json } => {
                    let ghost before = triple_views(r@);
                    r.push((id.clone(), name.clone(), input_json.clone()));
                    assert(triple_views(r@) =~= before.push((id@, name@, input_json@)));
                },
                _ => {},
            }
            i = i + 1;
        }
        assert(self.content@.take(self.content.len() as int) =~= self.content@);
        r
    }
}

/// The tool results of content blocks, appended to `r`.
fn push_results(r: &mut Vec<(String, String, bool)>, bs: &Vec<ContentBlock>)
    ensures
        result_views(final(r)@) == result_views(old(r)@) + results_in_blocks(bs@),
{
    let ghost r0 = result_views(r@);
    let mut i: usize = 0;
    assert(bs@.take(0) =~= Seq::<ContentBlock>::empty());
    assert(r0 + results_in_blocks(Seq::<ContentBlock>::empty()) =~= r0);
    while i < bs.len()
        invariant
            i <= bs.len(),
            result_views(r@) == r0 + results_in_blocks(bs@.take(i as int)),
        decreases bs.len() - i,
    {
        assert(bs@.take(i + 1).drop_last() =~= bs@.take(i as int));
        match &bs[i] {
            ContentBlock::ToolResult { tool_use_id, content_json, is_error } => {
                let ghost before = result_views(r@);
                r.push((tool_use_id.clone(), content_json.clone(), *is_error));
                assert(result_views(r@) =~= before.push((tool_use_id@, content_json@, *is_error)));
                assert(r0 + results_in_blocks(bs@.take(i + 1)) =~= (r0 + results_in_blocks(bs@.take(i as int))).push(
                    (tool_use_id@, content_json@, *is_error),
                ));
            },
            _ => {},
        }
        i = i + 1;
    }
    assert(bs@.take(bs.len() as int) =~= bs@);
}

impl ApiRequest {
    /// The tool results that the request carries: tool call id, content and
    /// error flag, message by message.
    pub fn tool_results(&self) -> (r: Vec<(String, String, bool)>)
        ensures
            result_views(r@) == tool_results_of(self.messages@),
    {
        let mut r: Vec<(String, String, bool)> = Vec::new();
        let mut i: usize = 0;
        assert(self.messages@.take(0) =~= Seq::<Message>::empty());
        assert(result_views(r@) =~= Seq::<(Seq<char>, Seq<char>, bool)>::empty());
        while i < self.messages.len()
            invariant
                i <= self.messages.len(),
                result_views(r@) == tool_results_of(self.messages@.take(i as int)),
            decreases self.messages.len() - i,
        {
            assert(self.messages@.take(i + 1).drop_last() =~= self.messages@.take(i as int));
            match &self.messages[i].content {
                MessageContent::Blocks(bs) => {
                    push_results(&mut r, bs);
                },
                MessageContent::Text(_) => {
                    assert(result_views(r@) + Seq::<(Seq<char>, Seq<char>, bool)>::empty() =~= result_views(r@));
                },
            }
            i = i + 1;
        }
        assert(self.messages@.take(self.messages.len() as int) =~= self.messages@);
        r
    }

    /// Whether the response to this request is streamed.
    pub fn is_streaming(&self) -> (r: bool)
        ensures
            r == (self.stream == Some(true)),
    {
        match self.stream {
            Some(b) => b,
            None => false,
        }
    }
}

/// The texts of the text blocks of a response, in order.
fn text_blocks(bs: &Vec<ContentBlock>) -> (r: Vec<String>)
    ensures
        views(r@) == texts_of(bs@),
{
    let mut r: Vec<String> = Vec::new();
    let mut i: usize = 0;
    assert(bs@.take(0) =~= Seq::<ContentBlock>::empty());
    assert(views(r@) =~= Seq::<Seq<char>>::empty());
    while i < bs.len()
        invariant
            i <= bs.len(),
            views(r@) == texts_of(bs@.take(i as int)),
        decreases bs.len() - i,
    {
        assert(bs@.take(i + 1).drop_last() =~= bs@.take(i as int));
        match &bs[i] {
            ContentBlock::Text { text } => {
                let ghost before = views(r@);
                r.push(text.clone());
                assert(views(r@) =~= before.push(text@));
            },
            _ => {},
        }
        i = i + 1;
    }
    assert(bs@.take(bs.len() as int) =~= bs@);
    r
}

// ─────────────────────────────────────────────────────────────────────────────
// Context snapshot of a request
// ─────────────────────────────────────────────────────────────────────────────

/// The UTF-8 length of a string, as `str::len` gives it.
pub open spec fn byte_len(s: Seq<char>) -> int {
    (vstd::utf8::encode_utf8(s).len() as usize) as int
}

/// Sizes summed over content: text, tool calls and their inputs, tool
/// results and their contents, thinking.
pub struct Tally {
    pub text: int,
    pub tool_use_count: int,
    pub tool_use_chars: int,
    pub tool_result_count: int,
    pub tool_result_chars: int,
    pub thinking: int,
}

pub open spec fn no_tally() -> Tally {
    Tally { text: 0, tool_use_count: 0, tool_use_chars: 0, tool_result_count: 0, tool_result_chars: 0, thinking: 0 }
}

pub open spec fn tally_add(a: Tally, b: Tally) -> Tally {
    Tally {
        text: a.text + b.text,
        tool_use_count: a.tool_use_count + b.tool_use_count,
        tool_use_chars: a.tool_use_chars + b.tool_use_chars,
        tool_result_count: a.tool_result_count + b.tool_result_count,
        tool_result_chars: a.tool_result_chars + b.tool_result_chars,
        thinking: a.thinking + b.thinking,
    }
}

/// Whether every field of `a` is at most the one of `b`.
pub open spec fn tally_le(a: Tally, b: Tally) -> bool {
    &&& a.text <= b.text
    &&& a.tool_use_count <= b.tool_use_count
    &&& a.tool_use_chars <= b.tool_use_chars
    &&& a.tool_result_count <= b.tool_result_count
    &&& a.tool_result_chars <= b.tool_result_chars
    &&& a.thinking <= b.thinking
}

/// What one content block adds.
pub open spec fn tally_block(b: ContentBlock) -> Tally {
    match b {
        ContentBlock::Text { text } => Tally { text: byte_len(text@), ..no_tally() },
        ContentBlock::ToolUse { input_json, .. } => Tally {
            tool_use_count: 1,
            tool_use_chars: byte_len(input_json@),
            ..no_tally()
        },
        ContentBlock::ToolResult { content_json, .. } => Tally {
            tool_result_count: 1,
            tool_result_chars: byte_len(content_json@),
            ..no_tally()
        },
        ContentBlock::Thinking { thinking, .. } => Tally { thinking: byte_len(thinking@), ..no_tally() },
        ContentBlock::Other => no_tally(),
    }
}

pub open spec fn tally_blocks(bs: Seq<ContentBlock>) -> Tally
    decreases bs.len(),
{
    if bs.len() == 0 {
        no_tally()
    } else {
        tally_add(tally_blocks(bs.drop_last()), tally_block(bs.last()))
    }
}

/// What one message adds.
pub open spec fn tally_message(m: Message) -> Tally {
    match m.content {
        MessageContent::Text(t) => Tally { text: byte_len(t@), ..no_tally() },
        MessageContent::Blocks(bs) => tally_blocks(bs@),
    }
}

pub open spec fn tally_messages(ms: Seq<Message>) -> Tally
    decreases ms.len(),
{
    if ms.len() == 0 {
        no_tally()
    } else {
        tally_add(tally_messages(ms.drop_last()), tally_message(ms.last()))
    }
}

/// Whether the sums fit the snapshot's counters.
pub open spec fn tally_fits(t: Tally) -> bool {
    &&& t.text <= u64::MAX
    &&& t.tool_use_count <= u32::MAX
    &&& t.tool_use_chars <= u64::MAX
    &&& t.tool_result_count <= u32::MAX
    &&& t.tool_result_chars <= u64::MAX
    &&& t.thinking <= u64::MAX
}

proof fn lemma_tally_block_nonneg(b: ContentBlock)
    ensures
        tally_le(no_tally(), tally_block(b)),
{
}

proof fn lemma_tally_blocks_prefix(bs: Seq<ContentBlock>, j: int)
    requires
        0 <= j <= bs.len(),
    ensures
        tally_le(tally_blocks(bs.take(j)), tally_blocks(bs)),
        tally_le(no_tally(), tally_blocks(bs)),
    decreases bs.len(),
{
    if bs.len() > 0 {
        lemma_tally_block_nonneg(bs.last());
        if j == bs.len() {
            assert(bs.take(j) =~= bs);
            lemma_tally_blocks_prefix(bs.drop_last(), 0);
        } else {
            assert(bs.take(j) =~= bs.drop_last().take(j));
            lemma_tally_blocks_prefix(bs.drop_last(), j);
        }
    } else {
        assert(bs.take(j) =~= bs);
    }
}

proof fn lemma_tally_message_nonneg(m: Message)
    ensures
        tally_le(no_tally(), tally_message(m)),
{
    match m.content {
        MessageContent::Blocks(bs) => lemma_tally_blocks_prefix(bs@, 0),
        MessageContent::Text(_) => {},
    }
}

proof fn lemma_tally_messages_prefix(ms: Seq<Message>, i: int)
    requires
        0 <= i <= ms.len(),
    ensures
        tally_le(tally_messages(ms.take(i)), tally_messages(ms)),
        tally_le(no_tally(), tally_messages(ms)),
    decreases ms.len(),
{
    if ms.len() > 0 {
        lemma_tally_message_nonneg(ms.last());
        if i == ms.len() {
            assert(ms.take(i) =~= ms);
            lemma_tally_messages_prefix(ms.drop_last(), 0);
        } else {
            assert(ms.take(i) =~= ms.drop_last().take(i));
            lemma_tally_messages_prefix(ms.drop_last(), i);
        }
    } else {
        assert(ms.take(i) =~= ms);
    }
}

/// The snapshot of a request: its message count (cut to 32 bits), the size
/// of its system prompt, and the sums over its messages.
pub open spec fn snapshot_of(req: ApiRequest) -> ContextSnapshot {
    let t = tally_messages(req.messages@);
    ContextSnapshot {
        message_count: req.messages@.len() as u32,
        tool_result_count: t.tool_result_count as u32,
        tool_result_chars: t.tool_result_chars as u64,
        tool_use_count: t.tool_use_count as u32,
        tool_use_chars: t.tool_use_chars as u64,
        thinking_chars: t.thinking as u64,
        text_chars: t.text as u64,
        system_chars: match req.system_json {
            Some(s) => byte_len(s@) as u64,
            None => 0,
        },
    }
}

/// The snapshot after adding one block to it.
fn add_block(snap: &mut ContextSnapshot, b: &ContentBlock)
    requires
        tally_fits(tally_add(
            Tally {
                text: old(snap).text_chars as int,
                tool_use_count: old(snap).tool_use_count as int,
                tool_use_chars: old(snap).tool_use_chars as int,
                tool_result_count: old(snap).tool_result_count as int,
                tool_result_chars: old(snap).tool_result_chars as int,
                thinking: old(snap).thinking_chars as int,
            },
            tally_block(*b),
        )),
    ensures
        final(snap).message_count == old(snap).message_count,
        final(snap).system_chars == old(snap).system_chars,
        final(snap).text_chars == old(snap).text_chars + tally_block(*b).text,
        final(snap).tool_use_count == old(snap).tool_use_count + tally_block(*b).tool_use_count,
        final(snap).tool_use_chars == old(snap).tool_use_chars + tally_block(*b).tool_use_chars,
        final(snap).tool_result_count == old(snap).tool_result_count + tally_block(*b).tool_result_count,
        final(snap).tool_result_chars == old(snap).tool_result_chars + tally_block(*b).tool_result_chars,
        final(snap).thinking_chars == old(snap).thinking_chars + tally_block(*b).thinking,
{
    match b {
        ContentBlock::Text { text } => {
            snap.text_chars = snap.text_chars + text.as_str().len() as u64;
        },
        ContentBlock::ToolUse { input_json, .. } => {
            snap.tool_use_count = snap.tool_use_count + 1;
            snap.tool_use_chars = snap.tool_use_chars + input_json.as_str().len() as u64;
        },
        ContentBlock::ToolResult { content_json, .. } => {
            snap.tool_result_count = snap.tool_result_count + 1;
            snap.tool_result_chars = snap.tool_result_chars + content_json.as_str().len() as u64;
        },
        ContentBlock::Thinking { thinking, .. } => {
            snap.thinking_chars = snap.thinking_chars + thinking.as_str().len() as u64;
        },
        ContentBlock::Other => {},
    }
}

/// The snapshot's sums as a tally.
pub open spec fn snap_tally(s: ContextSnapshot) -> Tally {
    Tally {
        text: s.text_chars as int,
        tool_use_count: s.tool_use_count as int,
        tool_use_chars: s.tool_use_chars as int,
        tool_result_count: s.tool_result_count as int,
        tool_result_chars: s.tool_result_chars as int,
        thinking: s.thinking_chars as int,
    }
}

impl ContextSnapshot {
    /// Measures what a request holds: messages, system prompt size, text,
    /// tool calls and inputs, tool results and contents, thinking.
    pub fn from_request(req: &ApiRequest) -> (r: ContextSnapshot)
        requires
            tally_fits(tally_messages(req.messages@)),
        ensures
            r == snapshot_of(*req),
    {
        let system_chars: u64 = match &req.system_json {
            Some(s) => s.as_str().len() as u64,
            None => 0,
        };
        #[verifier::truncate]
        let message_count = req.messages.len() as u32;
        let mut snap = ContextSnapshot {
            message_count,
            tool_result_count: 0,
            tool_result_chars: 0,
            tool_use_count: 0,
            tool_use_chars: 0,
            thinking_chars: 0,
            text_chars: 0,
            system_chars,
        };
        let ghost ms = req.messages@;
        let mut i: usize = 0;
        assert(ms.take(0) =~= Seq::<Message>::empty());
        while i < req.messages.len()
            invariant
                i <= req.messages.len(),
                ms == req.messages@,
                tally_fits(tally_messages(ms)),
                snap.message_count == message_count,
                snap.system_chars == system_chars,
                snap_tally(snap) == tally_messages(ms.take(i as int)),
            decreases req.messages.len() - i,
        {
            proof {
                assert(ms.take(i + 1).drop_last() =~= ms.take(i as int));
                lemma_tally_messages_prefix(ms, i + 1);
            }
            match &req.messages[i].content {
                MessageContent::Text(text) => {
                    snap.text_chars = snap.text_chars + text.as_str().len() as u64;
                },
                MessageContent::Blocks(bs) => {
                    let ghost base = snap_tally(snap);
                    let mut j: usize = 0;
                    assert(bs@.take(0) =~= Seq::<ContentBlock>::empty());
                    while j < bs.len()
                        invariant
                            j <= bs.len(),
                            tally_fits(tally_add(base, tally_blocks(bs@))),
                            snap.message_count == message_count,
                            snap.system_chars == system_chars,
                            snap_tally(snap) == tally_add(base, tally_blocks(bs@.take(j as int))),
                        decreases bs.len() - j,
                    {
                        proof {
                            assert(bs@.take(j + 1).drop_last() =~= bs@.take(j as int));
                            lemma_tally_blocks_prefix(bs@, j + 1);
                        }
                        add_block(&mut snap, &bs[j]);
                        j = j + 1;
                    }
                    assert(bs@.take(bs.len() as int) =~= bs@);
                },
            }
            i = i + 1;
        }
        assert(ms.take(ms.len() as int) =~= ms);
        snap
    }
}

// ─────────────────────────────────────────────────────────────────────────────
// Events
// ─────────────────────────────────────────────────────────────────────────────

/// An event that the parser reports (the caller adds the timestamps).
pub enum ParsedEvent {
    /// A tool call was requested; `input_json` is its input as JSON text.
    ToolCall { id: String, tool_name: String, input_json: String },
    /// A tool call returned, `duration_ms` after it was requested.
    ToolResult { id: String, tool_name: String, output_json: String, duration_ms: u64, success: bool },
    /// Assistant text.
    AssistantResponse { content: String },
    /// A thinking block with its token estimate.
    Thinking { content: String, token_estimate: u32 },
    /// Token usage of the call.
    ApiUsage { model: String, input_tokens: u32, output_tokens: u32, cache_creation_tokens: u32, cache_read_tokens: u32 },
    /// A context compaction was detected.
    ContextCompact(CompactDetection),
}

/// An event by its characters.
pub enum EventV {
    ToolCall { id: Seq<char>, tool_name: Seq<char>, input_json: Seq<char> },
    ToolResult { id: Seq<char>, tool_name: Seq<char>, output_json: Seq<char>, duration_ms: u64, success: bool },
    AssistantResponse { content: Seq<char> },
    Thinking { content: Seq<char>, token_estimate: u32 },
    ApiUsage { model: Seq<char>, input_tokens: u32, output_tokens: u32, cache_creation_tokens: u32, cache_read_tokens: u32 },
    ContextCompact(CompactDetection),
}

pub open spec fn event_view(e: ParsedEvent) -> EventV {
    match e {
        ParsedEvent::ToolCall { id, tool_name, input_json } => EventV::ToolCall { id: id@, tool_name: tool_name@, input_json: input_json@ },
        ParsedEvent::ToolResult { id, tool_name, output_json, duration_ms, success } => EventV::ToolResult {
            id: id@,
            tool_name: tool_name@,
            output_json: output_json@,
            duration_ms,
            success,
        },
        ParsedEvent::AssistantResponse { content } => EventV::AssistantResponse { content: content@ },
        ParsedEvent::Thinking { content, token_estimate } => EventV::Thinking { content: content@, token_estimate },
        ParsedEvent::ApiUsage { model, input_tokens, output_tokens, cache_creation_tokens, cache_read_tokens } => EventV::ApiUsage {
            model: model@,
            input_tokens,
            output_tokens,
            cache_creation_tokens,
            cache_read_tokens,
        },
        ParsedEvent::ContextCompact(d) => EventV::ContextCompact(d),
    }
}

/// The characters of a sequence of events.
pub open spec fn events_view(es: Seq<ParsedEvent>) -> Seq<EventV> {
    es.map_values(|e: ParsedEvent| event_view(e))
}

// ─────────────────────────────────────────────────────────────────────────────
// Parser state
// ─────────────────────────────────────────────────────────────────────────────

/// A tool call waiting for its result.
pub struct PendingCall {
    pub tool_name: String,
    /// When the call was seen, in milliseconds.
    pub started_ms: u64,
}

/// A pending call by its characters.
pub struct PendingV {
    pub tool_name: Seq<char>,
    pub started_ms: u64,
}

pub open spec fn pending_view(m: Map<Seq<char>, PendingCall>) -> Map<Seq<char>, PendingV> {
    m.map_values(|c: PendingCall| PendingV { tool_name: c.tool_name@, started_ms: c.started_ms })
}

/// Whether every count of a snapshot fits `i32` and every size fits `i64`,
/// so that snapshots can be compared.
pub open spec fn snapshot_small(s: ContextSnapshot) -> bool {
    &&& s.message_count <= i32::MAX
    &&& s.tool_result_count <= i32::MAX
    &&& s.tool_use_count <= i32::MAX
    &&& s.tool_result_chars <= i64::MAX
    &&& s.tool_use_chars <= i64::MAX
    &&& s.thinking_chars <= i64::MAX
    &&& s.text_chars <= i64::MAX
    &&& s.system_chars <= i64::MAX
}

pub open spec fn opt_small(s: Option<ContextSnapshot>) -> bool {
    match s {
        Some(x) => snapshot_small(x),
        None => true,
    }
}

/// Whether a user's detection state came from calls the parser saw: its
/// cache total is a sum of two 32-bit counts and its snapshots are small.
pub open spec fn state_ok(s: CompactDetectionState) -> bool {
    &&& s.last_cached_tokens <= 2 * (u32::MAX as int)
    &&& opt_small(s.last_snapshot)
    &&& opt_small(s.pending_snapshot)
}

/// The state of a user that the parser has not seen.
pub open spec fn fresh_state() -> CompactDetectionState {
    CompactDetectionState { last_cached_tokens: 0, last_context_tokens: 0, last_snapshot: None, pending_snapshot: None }
}

/// A user's detection state, fresh when absent.
pub open spec fn state_in(m: Map<Seq<char>, CompactDetectionState>, k: Seq<char>) -> CompactDetectionState {
    if m.contains_key(k) {
        m[k]
    } else {
        fresh_state()
    }
}

/// The key of a user: the given id, or `unknown`.
pub open spec fn user_key(user_id: Option<&str>) -> Seq<char> {
    match user_id {
        Some(u) => u@,
        None => "unknown"@,
    }
}

fn user_key_of(user_id: Option<&str>) -> (r: String)
    ensures
        r@ == user_key(user_id),
{
    match user_id {
        Some(u) => owned(u),
        None => owned("unknown"),
    }
}

proof fn lemma_small_diff_fits(cur: ContextSnapshot, prev: ContextSnapshot)
    requires
        snapshot_small(cur),
        snapshot_small(prev),
    ensures
        diff_fits(cur, prev),
{
    assert(cur.message_count as i32 == cur.message_count);
    assert(prev.message_count as i32 == prev.message_count);
    assert(cur.tool_result_count as i32 == cur.tool_result_count);
    assert(prev.tool_result_count as i32 == prev.tool_result_count);
    assert(cur.tool_use_count as i32 == cur.tool_use_count);
    assert(prev.tool_use_count as i32 == prev.tool_use_count);
    assert(cur.tool_result_chars as i64 == cur.tool_result_chars);
    assert(prev.tool_result_chars as i64 == prev.tool_result_chars);
    assert(cur.tool_use_chars as i64 == cur.tool_use_chars);
    assert(prev.tool_use_chars as i64 == prev.tool_use_chars);
    assert(cur.thinking_chars as i64 == cur.thinking_chars);
    assert(prev.thinking_chars as i64 == prev.thinking_chars);
    assert(cur.text_chars as i64 == cur.text_chars);
    assert(prev.text_chars as i64 == prev.text_chars);
    assert(cur.system_chars as i64 == cur.system_chars);
    assert(prev.system_chars as i64 == prev.system_chars);
}

proof fn lemma_state_ok_check_defined(s: CompactDetectionState, total: int)
    requires
        state_ok(s),
        0 <= total <= 2 * (u32::MAX as int),
    ensures
        check_defined(s, total),
{
    match (s.last_snapshot, s.pending_snapshot) {
        (Some(prev), Some(cur)) => lemma_small_diff_fits(cur, prev),
        _ => {},
    }
}

proof fn lemma_after_check_ok(s: CompactDetectionState, model: Seq<char>, i: u32, cr: u32, cc: u32)
    requires
        state_ok(s),
    ensures
        state_ok(s.after_check(model, i, cr, cc)),
{
}

/// Turns API traffic into events, remembering tool calls until their results
/// arrive and, per user, what compaction detection needs.
pub struct Parser {
    pending_calls: StrMap<PendingCall>,
    compact_state: StrMap<CompactDetectionState>,
}

impl Parser {
    #[verifier::type_invariant]
    spec fn inv(self) -> bool {
        forall|k: Seq<char>| #[trigger] self.compact_state@.contains_key(k) ==> state_ok(self.compact_state@[k])
    }

    /// The tool calls waiting for their results, by id.
    pub closed spec fn pending(&self) -> Map<Seq<char>, PendingV> {
        pending_view(self.pending_calls@)
    }

    /// The compaction detection state of each user seen.
    pub closed spec fn compact(&self) -> Map<Seq<char>, CompactDetectionState> {
        self.compact_state@
    }

    /// A parser that has seen nothing.
    pub fn new() -> (p: Self)
        ensures
            p.pending() == Map::<Seq<char>, PendingV>::empty(),
            p.compact() == Map::<Seq<char>, CompactDetectionState>::empty(),
    {
        let p = Parser { pending_calls: StrMap::new(), compact_state: StrMap::new() };
        assert(pending_view(p.pending_calls@) =~= Map::<Seq<char>, PendingV>::empty());
        p
    }

    /// Remembers a tool call (seen in a streamed response) so that its
    /// result can be matched; `now_ms` is the time it was seen.
    pub fn register_pending_tool(&mut self, id: String, name: String, now_ms: u64)
        ensures
            final(self).pending() == old(self).pending().insert(id@, PendingV { tool_name: name@, started_ms: now_ms }),
            final(self).compact() == old(self).compact(),
    {
        proof {
            use_type_invariant(&*self);
        }
        let ghost nv = name@;
        let mut calls = StrMap::new();
        std::mem::swap(&mut calls, &mut self.pending_calls);
        calls.insert(id, PendingCall { tool_name: name, started_ms: now_ms });
        self.pending_calls = calls;
        assert(pending_view(self.pending_calls@) =~= pending_view(old(self).pending_calls@).insert(
            id@,
            PendingV { tool_name: nv, started_ms: now_ms },
        ));
    }

    /// Stores the snapshot of the current request of a user (`unknown` when
    /// none is given) for the next compaction check.
    pub fn store_request_snapshot(&mut self, user_id: Option<&str>, snapshot: ContextSnapshot)
        requires
            snapshot_small(snapshot),
        ensures
            final(self).compact() == old(self).compact().insert(
                user_key(user_id),
                CompactDetectionState { pending_snapshot: Some(snapshot), ..state_in(old(self).compact(), user_key(user_id)) },
            ),
            final(self).pending() == old(self).pending(),
    {
        proof {
            use_type_invariant(&*self);
        }
        let key = user_key_of(user_id);
        let mut state = match self.compact_state.get(key.as_str()) {
            Some(s) => *s,
            None => CompactDetectionState::new(),
        };
        state.store_snapshot(snapshot);
        let mut states = StrMap::new();
        std::mem::swap(&mut states, &mut self.compact_state);
        states.insert(key, state);
        self.compact_state = states;
    }

    /// The most recent snapshot of a user: the current request's, else the
    /// previous one; none for a user not seen.
    pub fn get_context_snapshot(&self, user_id: &str) -> (r: Option<ContextSnapshot>)
        ensures
            r == if self.compact().contains_key(user_id@) {
                let s = self.compact()[user_id@];
                if s.pending_snapshot is Some {
                    s.pending_snapshot
                } else {
                    s.last_snapshot
                }
            } else {
                None
            },
    {
        match self.compact_state.get(user_id) {
            Some(s) => s.current_snapshot(),
            None => None,
        }
    }

    /// Checks an API call of a user for a context compaction (see
    /// `CompactDetectionState::check`); Haiku calls leave the state as it is.
    pub fn check_for_compact(
        &mut self,
        user_id: Option<&str>,
        model: &str,
        input_tokens: u32,
        cache_read_tokens: u32,
        cache_creation_tokens: u32,
    ) -> (r: Option<CompactDetection>)
        ensures
            r == state_in(old(self).compact(), user_key(user_id)).detection(
                model@,
                input_tokens,
                cache_read_tokens,
                cache_creation_tokens,
            ),
            final(self).compact() == if crate::text::contains_seq(model@, "haiku"@) {
                old(self).compact()
            } else {
                old(self).compact().insert(
                    user_key(user_id),
                    state_in(old(self).compact(), user_key(user_id)).after_check(
                        model@,
                        input_tokens,
                        cache_read_tokens,
                        cache_creation_tokens,
                    ),
                )
            },
            final(self).pending() == old(self).pending(),
    {
        proof {
            use_type_invariant(&*self);
            reveal_strlit("haiku");
        }
        if crate::text::contains_str(model, "haiku") {
            return None;
        }
        let key = user_key_of(user_id);
        let mut state = match self.compact_state.get(key.as_str()) {
            Some(s) => *s,
            None => CompactDetectionState::new(),
        };
        proof {
            lemma_state_ok_check_defined(state, cache_read_tokens + cache_creation_tokens);
            lemma_after_check_ok(state, model@, input_tokens, cache_read_tokens, cache_creation_tokens);
        }
        let r = state.check(model, input_tokens, cache_read_tokens, cache_creation_tokens);
        let mut states = StrMap::new();
        std::mem::swap(&mut states, &mut self.compact_state);
        states.insert(key, state);
        self.compact_state = states;
        r
    }
}

// ─────────────────────────────────────────────────────────────────────────────
// Parsing
// ─────────────────────────────────────────────────────────────────────────────

/// Milliseconds from `start` to `now`; zero when `now` is earlier.
pub open spec fn elapsed_ms(start: u64, now: u64) -> u64 {
    if now >= start {
        (now - start) as u64
    } else {
        0
    }
}

/// Matching tool results with pending calls, in order: each result whose
/// call is pending gives a result event (named after the call, timed from
/// it) and the call stops pending; other results are ignored.
pub open spec fn correlate(p: Map<Seq<char>, PendingV>, rs: Seq<(Seq<char>, Seq<char>, bool)>, now: u64) -> (
    Map<Seq<char>, PendingV>,
    Seq<EventV>,
)
    decreases rs.len(),
{
    if rs.len() == 0 {
        (p, Seq::empty())
    } else {
        let prev = correlate(p, rs.drop_last(), now);
        let r = rs.last();
        if prev.0.contains_key(r.0) {
            let c = prev.0[r.0];
            (
                prev.0.remove(r.0),
                prev.1.push(
                    EventV::ToolResult {
                        id: r.0,
                        tool_name: c.tool_name,
                        output_json: r.1,
                        duration_ms: elapsed_ms(c.started_ms, now),
                        success: !r.2,
                    },
                ),
            )
        } else {
            prev
        }
    }
}

/// The detection states after a compaction check of a user's call (Haiku
/// calls leave them as they are).
pub open spec fn compact_after(
    m: Map<Seq<char>, CompactDetectionState>,
    key: Seq<char>,
    model: Seq<char>,
    input_tokens: u32,
    cache_read_tokens: u32,
    cache_creation_tokens: u32,
) -> Map<Seq<char>, CompactDetectionState> {
    if crate::text::contains_seq(model, "haiku"@) {
        m
    } else {
        m.insert(key, state_in(m, key).after_check(model, input_tokens, cache_read_tokens, cache_creation_tokens))
    }
}

/// The events of an API call's usage: a compaction when one is detected,
/// then the usage.
pub open spec fn usage_events(
    s: CompactDetectionState,
    model: Seq<char>,
    input_tokens: u32,
    output_tokens: u32,
    cache_creation_tokens: u32,
    cache_read_tokens: u32,
) -> Seq<EventV> {
    let u = EventV::ApiUsage { model, input_tokens, output_tokens, cache_creation_tokens, cache_read_tokens };
    match s.detection(model, input_tokens, cache_read_tokens, cache_creation_tokens) {
        Some(d) => seq![EventV::ContextCompact(d), u],
        None => seq![u],
    }
}

/// Pending calls after remembering each tool call (id, name, input), seen at `now`.
pub open spec fn register_all(p: Map<Seq<char>, PendingV>, uses: Seq<(Seq<char>, Seq<char>, Seq<char>)>, now: u64) -> Map<
    Seq<char>,
    PendingV,
>
    decreases uses.len(),
{
    if uses.len() == 0 {
        p
    } else {
        register_all(p, uses.drop_last(), now).insert(uses.last().0, PendingV { tool_name: uses.last().1, started_ms: now })
    }
}

/// A tool call event per tool call.
pub open spec fn call_events(uses: Seq<(Seq<char>, Seq<char>, Seq<char>)>) -> Seq<EventV> {
    uses.map_values(|u: (Seq<char>, Seq<char>, Seq<char>)| EventV::ToolCall { id: u.0, tool_name: u.1, input_json: u.2 })
}

/// One assistant response with the texts joined by blank lines, if there is any text block.
pub open spec fn text_events(texts: Seq<Seq<char>>) -> Seq<EventV> {
    if texts.len() > 0 {
        seq![EventV::AssistantResponse { content: join(texts, "\n\n"@) }]
    } else {
        Seq::empty()
    }
}

/// What the usage of a response adds: a possible compaction, then the usage
/// (cache counts absent count as zero).
pub open spec fn response_usage_events(s: CompactDetectionState, model: Seq<char>, u: Option<Usage>) -> Seq<EventV> {
    match u {
        Some(u) => usage_events(
            s,
            model,
            u.input_tokens,
            u.output_tokens,
            crate::observability::val_or(u.cache_creation_input_tokens, 0u32),
            crate::observability::val_or(u.cache_read_input_tokens, 0u32),
        ),
        None => Seq::empty(),
    }
}

/// The tool calls among streamed blocks.
pub open spec fn block_calls(bs: Seq<BlockV>) -> Seq<(Seq<char>, Seq<char>, Seq<char>)>
    decreases bs.len(),
{
    if bs.len() == 0 {
        Seq::empty()
    } else {
        let rest = block_calls(bs.drop_last());
        match bs.last() {
            BlockV::ToolCall { id, tool_name, input_json } => rest.push((id, tool_name, input_json)),
            _ => rest,
        }
    }
}

/// The event of a streamed block.
pub open spec fn block_event(b: BlockV) -> EventV {
    match b {
        BlockV::ToolCall { id, tool_name, input_json } => EventV::ToolCall { id, tool_name, input_json },
        BlockV::Thinking { content, token_estimate } => EventV::Thinking { content, token_estimate },
        BlockV::Text { content } => EventV::AssistantResponse { content },
    }
}

pub open spec fn block_events(bs: Seq<BlockV>) -> Seq<EventV> {
    bs.map_values(|b: BlockV| block_event(b))
}

proof fn lemma_correlate_step(p: Map<Seq<char>, PendingV>, rs: Seq<(Seq<char>, Seq<char>, bool)>, now: u64, i: int)
    requires
        0 <= i < rs.len(),
    ensures
        correlate(p, rs.take(i + 1), now) == ({
            let prev = correlate(p, rs.take(i), now);
            let r = rs[i];
            if prev.0.contains_key(r.0) {
                let c = prev.0[r.0];
                (
                    prev.0.remove(r.0),
                    prev.1.push(
                        EventV::ToolResult {
                            id: r.0,
                            tool_name: c.tool_name,
                            output_json: r.1,
                            duration_ms: elapsed_ms(c.started_ms, now),
                            success: !r.2,
                        },
                    ),
                )
            } else {
                prev
            }
        }),
{
    assert(rs.take(i + 1).drop_last() =~= rs.take(i));
}

impl Parser {
    /// Reads a request: stores its snapshot for the user's next compaction
    /// check, and matches the tool results it carries with the pending tool
    /// calls (see `correlate`); `now_ms` is the time of the request.
    pub fn parse_request(&mut self, req: &ApiRequest, user_id: Option<&str>, now_ms: u64) -> (r: Vec<ParsedEvent>)
        requires
            request_small(*req),
        ensures
            final(self).compact() == old(self).compact().insert(
                user_key(user_id),
                CompactDetectionState {
                    pending_snapshot: Some(snapshot_of(*req)),
                    ..state_in(old(self).compact(), user_key(user_id))
                },
            ),
            (final(self).pending(), events_view(r@)) == correlate(old(self).pending(), tool_results_of(req.messages@), now_ms),
    {
        proof {
            lemma_small_request(*req);
        }
        let snapshot = ContextSnapshot::from_request(req);
        self.store_request_snapshot(user_id, snapshot);
        proof {
            use_type_invariant(&*self);
        }
        let results = req.tool_results();
        let ghost rs = result_views(results@);
        let ghost p0 = self.pending();
        let mut calls = StrMap::new();
        std::mem::swap(&mut calls, &mut self.pending_calls);
        let mut events: Vec<ParsedEvent> = Vec::new();
        let mut i: usize = 0;
        assert(rs.take(0) =~= Seq::<(Seq<char>, Seq<char>, bool)>::empty());
        assert(events_view(events@) =~= Seq::<EventV>::empty());
        while i < results.len()
            invariant
                i <= results.len(),
                rs == result_views(results@),
                (pending_view(calls@), events_view(events@)) == correlate(p0, rs.take(i as int), now_ms),
            decreases results.len() - i,
        {
            proof {
                lemma_correlate_step(p0, rs, now_ms, i as int);
            }
            let ghost before = events_view(events@);
            let ghost pv = pending_view(calls@);
            let (id, content, is_error) = (&results[i].0, &results[i].1, results[i].2);
            assert(rs[i as int] == (id@, content@, is_error));
            match calls.remove(id.as_str()) {
                Some(call) => {
                    let duration_ms: u64 = if now_ms >= call.started_ms {
                        now_ms - call.started_ms
                    } else {
                        0
                    };
                    events.push(
                        ParsedEvent::ToolResult {
                            id: id.clone(),
                            tool_name: call.tool_name,
                            output_json: content.clone(),
                            duration_ms,
                            success: !is_error,
                        },
                    );
                    assert(pending_view(calls@) =~= pv.remove(id@));
                    assert(events_view(events@) =~= before.push(event_view(events@.last())));
                },
                None => {},
            }
            i = i + 1;
        }
        assert(rs.take(results.len() as int) =~= rs);
        self.pending_calls = calls;
        events
    }

    /// Reads a (non-streamed) response of a user: each tool call is
    /// remembered as pending (seen at `now_ms`) and reported, the texts are
    /// reported as one response joined by blank lines, and the usage, if any,
    /// is checked for a compaction and reported.
    pub fn parse_response(&mut self, resp: &ApiResponse, user_id: Option<&str>, now_ms: u64) -> (r: Vec<ParsedEvent>)
        ensures
            final(self).pending() == register_all(old(self).pending(), tool_uses_of(resp.content@), now_ms),
            events_view(r@) == call_events(tool_uses_of(resp.content@)) + text_events(texts_of(resp.content@))
                + response_usage_events(state_in(old(self).compact(), user_key(user_id)), resp.model@, resp.usage),
            final(self).compact() == match resp.usage {
                Some(u) => compact_after(
                    old(self).compact(),
                    user_key(user_id),
                    resp.model@,
                    u.input_tokens,
                    crate::observability::val_or(u.cache_read_input_tokens, 0u32),
                    crate::observability::val_or(u.cache_creation_input_tokens, 0u32),
                ),
                None => old(self).compact(),
            },
    {
        proof {
            use_type_invariant(&*self);
        }
        let uses = resp.tool_uses();
        let ghost us = triple_views(uses@);
        let ghost p0 = self.pending();
        let mut calls = StrMap::new();
        std::mem::swap(&mut calls, &mut self.pending_calls);
        let mut events: Vec<ParsedEvent> = Vec::new();
        let mut i: usize = 0;
        assert(us.take(0) =~= Seq::<(Seq<char>, Seq<char>, Seq<char>)>::empty());
        assert(events_view(events@) =~= call_events(us.take(0)));
        while i < uses.len()
            invariant
                i <= uses.len(),
                us == triple_views(uses@),
                pending_view(calls@) == register_all(p0, us.take(i as int), now_ms),
                events_view(events@) == call_events(us.take(i as int)),
            decreases uses.len() - i,
        {
            let (id, name, input) = (&uses[i].0, &uses[i].1, &uses[i].2);
            assert(us[i as int] == (id@, name@, input@));
            assert(us.take(i + 1).drop_last() =~= us.take(i as int));
            let ghost pv = pending_view(calls@);
            let ghost before = events_view(events@);
            calls.insert(id.clone(), PendingCall { tool_name: name.clone(), started_ms: now_ms });
            assert(pending_view(calls@) =~= pv.insert(id@, PendingV { tool_name: name@, started_ms: now_ms }));
            events.push(ParsedEvent::ToolCall { id: id.clone(), tool_name: name.clone(), input_json: input.clone() });
            assert(events_view(events@) =~= before.push(EventV::ToolCall { id: id@, tool_name: name@, input_json: input@ }));
            assert(call_events(us.take(i + 1)) =~= call_events(us.take(i as int)).push(
                EventV::ToolCall { id: id@, tool_name: name@, input_json: input@ },
            ));
            i = i + 1;
        }
        assert(us.take(uses.len() as int) =~= us);
        self.pending_calls = calls;
        let texts = text_blocks(&resp.content);
        if texts.len() > 0 {
            let ghost before = events_view(events@);
            let combined = join_strings(&texts, "\n\n");
            events.push(ParsedEvent::AssistantResponse { content: combined });
            assert(events_view(events@) =~= before + text_events(texts_of(resp.content@)));
        } else {
            assert(events_view(events@) =~= events_view(events@) + text_events(texts_of(resp.content@)));
        }
        let ghost mid = events_view(events@);
        let ghost st = state_in(self.compact(), user_key(user_id));
        match &resp.usage {
            Some(u) => {
                let cache_read = match u.cache_read_input_tokens {
                    Some(n) => n,
                    None => 0,
                };
                let cache_creation = match u.cache_creation_input_tokens {
                    Some(n) => n,
                    None => 0,
                };
                let d = self.check_for_compact(user_id, resp.model.as_str(), u.input_tokens, cache_read, cache_creation);
                match d {
                    Some(x) => events.push(ParsedEvent::ContextCompact(x)),
                    None => {},
                }
                events.push(
                    ParsedEvent::ApiUsage {
                        model: resp.model.clone(),
                        input_tokens: u.input_tokens,
                        output_tokens: u.output_tokens,
                        cache_creation_tokens: cache_creation,
                        cache_read_tokens: cache_read,
                    },
                );
                assert(events_view(events@) =~= mid + response_usage_events(st, resp.model@, resp.usage));
            },
            None => {
                assert(events_view(events@) =~= mid + response_usage_events(st, resp.model@, resp.usage));
            },
        }
        events
    }

    /// Reads a streamed response of a user (see `parse_sse_events`): each
    /// completed block is reported in order, tool calls also remembered as
    /// pending (seen at `now_ms`); the usage, when there is one, is checked
    /// for a compaction and reported.
    pub fn parse_sse(&mut self, body: &str, user_id: Option<&str>, now_ms: u64) -> (r: Vec<ParsedEvent>)
        ensures
            final(self).pending() == register_all(old(self).pending(), block_calls(sse_result(body@).0), now_ms),
            events_view(r@) == block_events(sse_result(body@).0) + match sse_result(body@).1 {
                Some(u) => usage_events(
                    state_in(old(self).compact(), user_key(user_id)),
                    u.model,
                    u.input_tokens,
                    u.output_tokens,
                    u.cache_creation_tokens,
                    u.cache_read_tokens,
                ),
                None => Seq::empty(),
            },
            final(self).compact() == match sse_result(body@).1 {
                Some(u) => compact_after(
                    old(self).compact(),
                    user_key(user_id),
                    u.model,
                    u.input_tokens,
                    u.cache_read_tokens,
                    u.cache_creation_tokens,
                ),
                None => old(self).compact(),
            },
    {
        proof {
            use_type_invariant(&*self);
        }
        let resp = parse_sse_events(body);
        let SseResponse { blocks, usage } = resp;
        let ghost bv = crate::sse::blocks_view(blocks@);
        let ghost p0 = self.pending();
        let mut calls = StrMap::new();
        std::mem::swap(&mut calls, &mut self.pending_calls);
        let mut events: Vec<ParsedEvent> = Vec::new();
        let mut blocks = blocks;
        let ghost mut j: int = 0;
        assert(bv.take(0) =~= Seq::<BlockV>::empty());
        assert(bv.skip(0) =~= bv);
        assert(events_view(events@) =~= block_events(bv.take(0)));
        while blocks.len() > 0
            invariant
                0 <= j <= bv.len(),
                crate::sse::blocks_view(blocks@) == bv.skip(j),
                pending_view(calls@) == register_all(p0, block_calls(bv.take(j)), now_ms),
                events_view(events@) == block_events(bv.take(j)),
            decreases blocks.len(),
        {
            assert(crate::sse::blocks_view(blocks@).len() == blocks@.len());
            let ghost old_bs = blocks@;
            let b = blocks.remove(0);
            proof {
                assert(bv.skip(j)[0] == bv[j]);
                assert(crate::sse::block_view(b) == bv[j]);
                assert forall|k: int| 0 <= k < blocks@.len() implies #[trigger] crate::sse::blocks_view(blocks@)[k] == bv.skip(j + 1)[k] by {
                    assert(blocks@[k] == old_bs[k + 1]);
                    assert(crate::sse::blocks_view(old_bs)[k + 1] == bv.skip(j)[k + 1]);
                }
                assert(crate::sse::blocks_view(blocks@) =~= bv.skip(j + 1));
                assert(bv.take(j + 1).drop_last() =~= bv.take(j));
                assert(block_events(bv.take(j + 1)) =~= block_events(bv.take(j)).push(block_event(bv[j])));
            }
            let ghost before = events_view(events@);
            let ghost pv = pending_view(calls@);
            match b {
                SseBlock::ToolCall { id, tool_name, input_json } => {
                    let ghost call = (id@, tool_name@, input_json@);
                    proof {
                        assert(bv.take(j + 1).last() == bv[j]);
                        let prev = block_calls(bv.take(j));
                        assert(block_calls(bv.take(j + 1)) == prev.push(call));
                        assert(prev.push(call).drop_last() =~= prev);
                        assert(register_all(p0, prev.push(call), now_ms) == register_all(p0, prev, now_ms).insert(
                            call.0,
                            PendingV { tool_name: call.1, started_ms: now_ms },
                        ));
                    }
                    calls.insert(id.clone(), PendingCall { tool_name: tool_name.clone(), started_ms: now_ms });
                    assert(pending_view(calls@) =~= pv.insert(id@, PendingV { tool_name: tool_name@, started_ms: now_ms }));
                    events.push(ParsedEvent::ToolCall { id, tool_name, input_json });
                },
                SseBlock::Thinking { content, token_estimate } => {
                    assert(bv.take(j + 1).last() == bv[j]);
                    assert(block_calls(bv.take(j + 1)) == block_calls(bv.take(j)));
                    events.push(ParsedEvent::Thinking { content, token_estimate });
                },
                SseBlock::Text { content } => {
                    assert(bv.take(j + 1).last() == bv[j]);
                    assert(block_calls(bv.take(j + 1)) == block_calls(bv.take(j)));
                    events.push(ParsedEvent::AssistantResponse { content });
                },
            }
            assert(events_view(events@) =~= before.push(block_event(bv[j])));
            proof {
                j = j + 1;
            }
        }
        assert(bv.take(j) =~= bv);
        self.pending_calls = calls;
        let ghost mid = events_view(events@);
        let ghost st = state_in(self.compact(), user_key(user_id));
        match usage {
            Some(u) => {
                let d = self.check_for_compact(
                    user_id,
                    u.model.as_str(),
                    u.input_tokens,
                    u.cache_read_tokens,
                    u.cache_creation_tokens,
                );
                match d {
                    Some(x) => events.push(ParsedEvent::ContextCompact(x)),
                    None => {},
                }
                events.push(
                    ParsedEvent::ApiUsage {
                        model: u.model,
                        input_tokens: u.input_tokens,
                        output_tokens: u.output_tokens,
                        cache_creation_tokens: u.cache_creation_tokens,
                        cache_read_tokens: u.cache_read_tokens,
                    },
                );
                assert(events_view(events@) =~= mid + usage_events(
                    st,
                    sse_result(body@).1->0.model,
                    u.input_tokens,
                    u.output_tokens,
                    u.cache_creation_tokens,
                    u.cache_read_tokens,
                ));
            },
            None => {
                assert(events_view(events@) =~= mid + Seq::<EventV>::empty());
            },
        }
        events
    }
}

/// A tool call is matched by its result once: the result of a pending call
/// gives one event, named after the call and timed from it, and the call
/// stops pending, so the same result again gives nothing.
pub proof fn lemma_result_matched_once(
    p: Map<Seq<char>, PendingV>,
    id: Seq<char>,
    content: Seq<char>,
    is_error: bool,
    now: u64,
)
    requires
        p.contains_key(id),
    ensures
        ({
            let r = (id, content, is_error);
            let once = correlate(p, seq![r], now);
            let twice = correlate(p, seq![r, r], now);
            &&& once.0 == p.remove(id)
            &&& once.1 == seq![
                EventV::ToolResult {
                    id,
                    tool_name: p[id].tool_name,
                    output_json: content,
                    duration_ms: elapsed_ms(p[id].started_ms, now),
                    success: !is_error,
                },
            ]
            &&& twice == once
        }),
{
    let r = (id, content, is_error);
    let e = Seq::<(Seq<char>, Seq<char>, bool)>::empty();
    assert(correlate(p, e, now) == (p, Seq::<EventV>::empty()));
    assert(seq![r].drop_last() =~= e);
    let once = correlate(p, seq![r], now);
    assert(once.1 =~= Seq::<EventV>::empty().push(
        EventV::ToolResult {
            id,
            tool_name: p[id].tool_name,
            output_json: content,
            duration_ms: elapsed_ms(p[id].started_ms, now),
            success: !is_error,
        },
    ));
    assert(seq![r, r].drop_last() =~= seq![r]);
    assert(!once.0.contains_key(id));
}

/// A result whose call is not pending is ignored.
pub proof fn lemma_unknown_result_ignored(
    p: Map<Seq<char>, PendingV>,
    id: Seq<char>,
    content: Seq<char>,
    is_error: bool,
    now: u64,
)
    requires
        !p.contains_key(id),
    ensures
        correlate(p, seq![(id, content, is_error)], now) == (p, Seq::<EventV>::empty()),
{
    let e = Seq::<(Seq<char>, Seq<char>, bool)>::empty();
    assert(correlate(p, e, now) == (p, Seq::<EventV>::empty()));
    assert(seq![(id, content, is_error)].drop_last() =~= e);
}

/// A call remembered from a response is matched by a later result for it:
/// the result event carries the call's name and the time since it was seen.
pub proof fn lemma_registered_call_matched(
    p: Map<Seq<char>, PendingV>,
    id: Seq<char>,
    name: Seq<char>,
    input: Seq<char>,
    seen: u64,
    content: Seq<char>,
    is_error: bool,
    now: u64,
)
    ensures
        ({
            let q = register_all(p, seq![(id, name, input)], seen);
            correlate(q, seq![(id, content, is_error)], now).1 == seq![
                EventV::ToolResult {
                    id,
                    tool_name: name,
                    output_json: content,
                    duration_ms: elapsed_ms(seen, now),
                    success: !is_error,
                },
            ]
        }),
{
    let u = Seq::<(Seq<char>, Seq<char>, Seq<char>)>::empty();
    assert(register_all(p, u, seen) == p);
    assert(seq![(id, name, input)].drop_last() =~= u);
    let q = register_all(p, seq![(id, name, input)], seen);
    assert(q == p.insert(id, PendingV { tool_name: name, started_ms: seen }));
    let e = Seq::<(Seq<char>, Seq<char>, bool)>::empty();
    assert(correlate(q, e, now) == (q, Seq::<EventV>::empty()));
    assert(seq![(id, content, is_error)].drop_last() =~= e);
    assert(correlate(q, seq![(id, content, is_error)], now).1 =~= Seq::<EventV>::empty().push(
        EventV::ToolResult {
            id,
            tool_name: name,
            output_json: content,
            duration_ms: elapsed_ms(seen, now),
            success: !is_error,
        },
    ));
}

/// Whether a request's snapshot can be taken and compared: every count
/// fits `i32` and every size fits `i64`.
pub open spec fn request_small(req: ApiRequest) -> bool {
    let t = tally_messages(req.messages@);
    &&& t.text <= i64::MAX
    &&& t.tool_use_count <= i32::MAX
    &&& t.tool_use_chars <= i64::MAX
    &&& t.tool_result_count <= i32::MAX
    &&& t.tool_result_chars <= i64::MAX
    &&& t.thinking <= i64::MAX
    &&& (req.messages@.len() as u32) <= i32::MAX
    &&& match req.system_json {
        Some(s) => byte_len(s@) <= i64::MAX,
        None => true,
    }
}

proof fn lemma_small_request(req: ApiRequest)
    requires
        request_small(req),
    ensures
        tally_fits(tally_messages(req.messages@)),
        snapshot_small(snapshot_of(req)),
{
    lemma_tally_messages_prefix(req.messages@, 0);
}

/// Whether the tally `t` is within the bounds of a small snapshot.
pub open spec fn tally_small(t: Tally) -> bool {
    &&& t.text <= i64::MAX
    &&& t.tool_use_count <= i32::MAX
    &&& t.tool_use_chars <= i64::MAX
    &&& t.tool_result_count <= i32::MAX
    &&& t.tool_result_chars <= i64::MAX
    &&& t.thinking <= i64::MAX
}

/// Adds one block to a running tally; false when it leaves the bounds.
fn tally_step(t: &mut (u64, u64, u64, u64, u64, u64), b: &ContentBlock) -> (ok: bool)
    requires
        tally_small(Tally {
            text: old(t).0 as int,
            tool_use_count: old(t).1 as int,
            tool_use_chars: old(t).2 as int,
            tool_result_count: old(t).3 as int,
            tool_result_chars: old(t).4 as int,
            thinking: old(t).5 as int,
        }),
    ensures
        ({
            let before = Tally {
                text: old(t).0 as int,
                tool_use_count: old(t).1 as int,
                tool_use_chars: old(t).2 as int,
                tool_result_count: old(t).3 as int,
                tool_result_chars: old(t).4 as int,
                thinking: old(t).5 as int,
            };
            let after = Tally {
                text: final(t).0 as int,
                tool_use_count: final(t).1 as int,
                tool_use_chars: final(t).2 as int,
                tool_result_count: final(t).3 as int,
                tool_result_chars: final(t).4 as int,
                thinking: final(t).5 as int,
            };
            &&& ok == tally_small(tally_add(before, tally_block(*b)))
            &&& ok ==> after == tally_add(before, tally_block(*b))
        }),
{
    let max64: u64 = 0x7fff_ffff_ffff_ffff;
    let max32: u64 = 0x7fff_ffff;
    match b {
        ContentBlock::Text { text } => {
            let n = text.as_str().len() as u64;
            if n > max64 - t.0 {
                return false;
            }
            t.0 = t.0 + n;
        },
        ContentBlock::ToolUse { input_json, .. } => {
            let n = input_json.as_str().len() as u64;
            if t.1 >= max32 || n > max64 - t.2 {
                return false;
            }
            t.1 = t.1 + 1;
            t.2 = t.2 + n;
        },
        ContentBlock::ToolResult { content_json, .. } => {
            let n = content_json.as_str().len() as u64;
            if t.3 >= max32 || n > max64 - t.4 {
                return false;
            }
            t.3 = t.3 + 1;
            t.4 = t.4 + n;
        },
        ContentBlock::Thinking { thinking, .. } => {
            let n = thinking.as_str().len() as u64;
            if n > max64 - t.5 {
                return false;
            }
            t.5 = t.5 + n;
        },
        ContentBlock::Other => {},
    }
    true
}

pub open spec fn tuple_tally(t: (u64, u64, u64, u64, u64, u64)) -> Tally {
    Tally {
        text: t.0 as int,
        tool_use_count: t.1 as int,
        tool_use_chars: t.2 as int,
        tool_result_count: t.3 as int,
        tool_result_chars: t.4 as int,
        thinking: t.5 as int,
    }
}

proof fn lemma_small_monotone(a: Tally, b: Tally)
    requires
        tally_le(a, b),
        tally_small(b),
    ensures
        tally_small(a),
{
}

/// Whether a request can be measured (see `request_small`); the parser
/// needs it of every request it reads.
pub fn request_fits(req: &ApiRequest) -> (r: bool)
    ensures
        r == request_small(*req),
{
    #[verifier::truncate]
    let count = req.messages.len() as u32;
    if count > 0x7fff_ffff {
        return false;
    }
    match &req.system_json {
        Some(s) => {
            if s.as_str().len() as u64 > 0x7fff_ffff_ffff_ffff {
                return false;
            }
        },
        None => {},
    }
    let ghost ms = req.messages@;
    let mut t: (u64, u64, u64, u64, u64, u64) = (0, 0, 0, 0, 0, 0);
    let mut i: usize = 0;
    assert(ms.take(0) =~= Seq::<Message>::empty());
    while i < req.messages.len()
        invariant
            i <= req.messages.len(),
            ms == req.messages@,
            tuple_tally(t) == tally_messages(ms.take(i as int)),
            tally_small(tuple_tally(t)),
        decreases req.messages.len() - i,
    {
        proof {
            assert(ms.take(i + 1).drop_last() =~= ms.take(i as int));
        }
        match &req.messages[i].content {
            MessageContent::Text(text) => {
                let n = text.as_str().len() as u64;
                if n > 0x7fff_ffff_ffff_ffff - t.0 {
                    proof {
                        lemma_tally_messages_prefix(ms, i + 1);
                        if request_small(*req) {
                            lemma_small_monotone(tally_messages(ms.take(i + 1)), tally_messages(ms));
                        }
                    }
                    return false;
                }
                t.0 = t.0 + n;
            },
            MessageContent::Blocks(bs) => {
                let ghost base = tuple_tally(t);
                let mut j: usize = 0;
                assert(bs@.take(0) =~= Seq::<ContentBlock>::empty());
                assert(tally_messages(ms.take(i + 1)) == tally_add(base, tally_blocks(bs@)));
                while j < bs.len()
                    invariant
                        j <= bs.len(),
                        i < ms.len(),
                        ms == req.messages@,
                        tally_messages(ms.take(i + 1)) == tally_add(base, tally_blocks(bs@)),
                        tuple_tally(t) == tally_add(base, tally_blocks(bs@.take(j as int))),
                        tally_small(tuple_tally(t)),
                    decreases bs.len() - j,
                {
                    proof {
                        assert(bs@.take(j + 1).drop_last() =~= bs@.take(j as int));
                    }
                    if !tally_step(&mut t, &bs[j]) {
                        proof {
                            lemma_tally_blocks_prefix(bs@, j + 1);
                            lemma_tally_messages_prefix(ms, i + 1);
                            assert(tally_le(
                                tally_add(base, tally_blocks(bs@.take(j + 1))),
                                tally_messages(ms.take(i + 1)),
                            ));
                            if request_small(*req) {
                                lemma_small_monotone(tally_messages(ms.take(i + 1)), tally_messages(ms));
                            }
                        }
                        return false;
                    }
                    j = j + 1;
                }
                assert(bs@.take(bs.len() as int) =~= bs@);
            },
        }
        i = i + 1;
    }
    assert(ms.take(ms.len() as int) =~= ms);
    true
}

} // verus!
