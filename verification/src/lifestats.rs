//! Lifetime statistics storage: settings, recognition of tool calls that the
//! user rejected, the searchable text of a todo list, the row stored for
//! each event, and the decisions of the batching writer loop.

use vstd::prelude::*;

use crate::json::{get_str, json_of, parse_json, str_member, JsonValue};
use crate::text::{chars_of, contains_seq, contains_str, decimal, join, join_strings, owned, push_char, push_decimal, push_str, views};

verus! {

/// The tool-result message that reports a rejected edit.
pub open spec fn rejection_edit() -> Seq<char> {
    "The tool use was rejected (eg. if it was a file edit, the new_string was NOT written to the file)"@
}

/// The tool-result message that reports a declined action.
pub open spec fn rejection_action() -> Seq<char> {
    "The user doesn't want to take this action right now"@
}

/// Whether a tool result reports that the user rejected the call (rather
/// than an error): it contains one of the known rejection messages.
pub fn is_user_rejection(output: &str) -> (r: bool)
    ensures
        r == (contains_seq(output@, rejection_edit()) || contains_seq(output@, rejection_action())),
{
    contains_str(output, "The tool use was rejected (eg. if it was a file edit, the new_string was NOT written to the file)")
        || contains_str(output, "The user doesn't want to take this action right now")
}

/// The `content` fields of a parsed todo list: for each element of the
/// array, its string `content` member if it has one; `None` when the
/// document is not a JSON array.
pub open spec fn todo_items(parsed: Option<JsonValue>) -> Option<Seq<Option<Seq<char>>>> {
    match parsed {
        Some(JsonValue::Array(items)) => Some(items@.map_values(|t: JsonValue| str_member(t, "content"@))),
        _ => None,
    }
}

/// The contents that are present, in order.
pub open spec fn present(items: Seq<Option<Seq<char>>>) -> Seq<Seq<char>>
    decreases items.len(),
{
    if items.len() == 0 {
        Seq::empty()
    } else {
        let rest = present(items.drop_last());
        match items.last() {
            Some(c) => rest.push(c),
            None => rest,
        }
    }
}

/// The searchable text of a todo list: the contents joined by ". " when it
/// parsed, else the raw text.
pub open spec fn todo_text(parsed: Option<Seq<Option<Seq<char>>>>, raw: Seq<char>) -> Seq<char> {
    match parsed {
        Some(items) => join(present(items), ". "@),
        None => raw,
    }
}

/// The searchable text of a todo list, given what parsing it as JSON gave.
pub fn todo_fts_text(parsed: &Option<JsonValue>, raw: &str) -> (r: String)
    ensures
        r@ == todo_text(todo_items(*parsed), raw@),
{
    match parsed {
        Some(JsonValue::Array(items)) => {
            let ghost iv = items@.map_values(|t: JsonValue| str_member(t, "content"@));
            let mut contents: Vec<String> = Vec::new();
            let mut i: usize = 0;
            while i < items.len()
                invariant
                    i <= items.len(),
                    iv == items@.map_values(|t: JsonValue| str_member(t, "content"@)),
                    views(contents@) == present(iv.take(i as int)),
                decreases items.len() - i,
            {
                assert(iv.take(i + 1).drop_last() =~= iv.take(i as int));
                match get_str(&items[i], "content") {
                    Some(c) => {
                        contents.push(c);
                        assert(views(contents@) =~= present(iv.take(i as int)).push(c@));
                    },
                    None => {},
                }
                i = i + 1;
            }
            assert(iv.take(items.len() as int) =~= iv);
            join_strings(&contents, ". ")
        },
        _ => owned(raw),
    }
}

/// The searchable text of a todo list (JSON): its todos' contents joined by
/// ". ", or the raw text when it is not a JSON array.
pub fn extract_todo_content_for_fts(todos_json: &str) -> (r: String)
    ensures
        r@ == todo_text(todo_items(json_of(todos_json@)), todos_json@),
{
    let parsed = parse_json(todos_json);
    todo_fts_text(&parsed, todos_json)
}

/// Settings of the lifetime statistics store.
#[derive(Debug, Clone)]
pub struct LifestatsConfig {
    pub db_path: String,
    pub store_thinking: bool,
    pub store_tool_io: bool,
    pub max_thinking_size: usize,
    pub retention_days: u32,
    pub channel_buffer: usize,
    pub batch_size: usize,
    /// Longest time between flushes, in seconds.
    pub flush_interval_secs: u64,
}

impl Default for LifestatsConfig {
    fn default() -> (r: Self)
        ensures
            r.db_path@ == "./data/lifestats.db"@,
            r.store_thinking,
            r.store_tool_io,
            r.max_thinking_size == 100_000,
            r.retention_days == 90,
            r.channel_buffer == 10_000,
            r.batch_size == 100,
            r.flush_interval_secs == 1,
    {
        LifestatsConfig {
            db_path: owned("./data/lifestats.db"),
            store_thinking: true,
            store_tool_io: true,
            max_thinking_size: 100_000,
            retention_days: 90,
            channel_buffer: 10_000,
            batch_size: 100,
            flush_interval_secs: 1,
        }
    }
}

// ─────────────────────────────────────────────────────────────────────────────
// Truncating stored text
// ─────────────────────────────────────────────────────────────────────────────

/// The number of bytes of a character in UTF-8.
pub open spec fn char_width(c: char) -> nat {
    if (c as u32) < 0x80 {
        1
    } else if (c as u32) < 0x800 {
        2
    } else if (c as u32) < 0x10000 {
        3
    } else {
        4
    }
}

/// The number of bytes of a string in UTF-8.
pub open spec fn utf8_width(s: Seq<char>) -> nat
    decreases s.len(),
{
    if s.len() == 0 {
        0
    } else {
        char_width(s[0]) + utf8_width(s.drop_first())
    }
}

/// The UTF-8 width is the length of the UTF-8 encoding.
pub proof fn lemma_utf8_width(s: Seq<char>)
    ensures
        vstd::utf8::encode_utf8(s).len() == utf8_width(s),
    decreases s.len(),
{
    if s.len() > 0 {
        lemma_utf8_width(s.drop_first());
        let c = s[0];
        vstd::utf8::char_is_scalar(c);
        let v = c as u32;
        assert(vstd::utf8::encode_scalar(v).len() == char_width(c));
    }
}

/// How many characters from the start of `s` fit in `max` bytes.
pub open spec fn fitting_chars(s: Seq<char>, max: int) -> nat
    decreases s.len(),
{
    if s.len() == 0 || char_width(s[0]) > max {
        0
    } else {
        1 + fitting_chars(s.drop_first(), max - char_width(s[0]))
    }
}

/// The longest start of `s`, in whole characters, of at most `max` bytes.
pub open spec fn utf8_prefix(s: Seq<char>, max: int) -> Seq<char> {
    s.take(fitting_chars(s, max) as int)
}

fn width_of(c: char) -> (r: usize)
    ensures
        r == char_width(c),
{
    let v = c as u32;
    if v < 0x80 {
        1
    } else if v < 0x800 {
        2
    } else if v < 0x10000 {
        3
    } else {
        4
    }
}

/// The longest start of `s`, in whole characters, that fits in `max_bytes`
/// bytes of UTF-8.
pub fn truncate_utf8_safe(s: &str, max_bytes: usize) -> (r: String)
    ensures
        r@ == utf8_prefix(s@, max_bytes as int),
{
    let v = chars_of(s);
    let mut r = String::new();
    let mut used: usize = 0;
    let mut i: usize = 0;
    assert(v@.skip(0) =~= v@);
    while i < v.len()
        invariant
            i <= v.len(),
            used <= max_bytes,
            v@ == s@,
            r@ == v@.take(i as int),
            fitting_chars(v@, max_bytes as int) == i + fitting_chars(v@.skip(i as int), max_bytes - used),
        decreases v.len() - i,
    {
        let w = width_of(v[i]);
        assert(v@.skip(i as int)[0] == v@[i as int]);
        assert(v@.skip(i as int).drop_first() =~= v@.skip(i + 1));
        if w > max_bytes - used {
            assert(v@.take(i as int) =~= utf8_prefix(s@, max_bytes as int));
            return r;
        }
        used = used + w;
        push_char(&mut r, v[i]);
        assert(v@.take(i as int).push(v@[i as int]) =~= v@.take(i + 1));
        i = i + 1;
    }
    assert(v@.skip(i as int).len() == 0);
    assert(v@.take(i as int) =~= utf8_prefix(s@, max_bytes as int));
    r
}

/// A truncated text fits its limit: its UTF-8 encoding is at most `max`
/// bytes, and it is a start of the text in whole characters.
pub proof fn lemma_prefix_fits(s: Seq<char>, max: int)
    requires
        max >= 0,
    ensures
        vstd::utf8::encode_utf8(utf8_prefix(s, max)).len() <= max,
        utf8_prefix(s, max).is_prefix_of(s),
    decreases s.len(),
{
    lemma_utf8_width(utf8_prefix(s, max));
    lemma_prefix_width(s, max);
}

proof fn lemma_prefix_width(s: Seq<char>, max: int)
    requires
        max >= 0,
    ensures
        utf8_width(utf8_prefix(s, max)) <= max,
        fitting_chars(s, max) <= s.len(),
    decreases s.len(),
{
    if s.len() == 0 || char_width(s[0]) > max {
        assert(utf8_prefix(s, max) =~= Seq::<char>::empty());
    } else {
        let rest = s.drop_first();
        let m2 = max - char_width(s[0]);
        lemma_prefix_width(rest, m2);
        let p = utf8_prefix(s, max);
        assert(p.len() > 0);
        assert(p[0] == s[0]);
        assert(p.drop_first() =~= utf8_prefix(rest, m2));
    }
}

/// The thinking text that is stored: the text itself when it fits
/// `max_size` bytes, else its start within `max_size` bytes followed by a
/// note of the full size.
pub open spec fn stored_thinking(content: Seq<char>, max_size: usize) -> Seq<char> {
    let n = (vstd::utf8::encode_utf8(content).len() as usize) as nat;
    if n > max_size {
        utf8_prefix(content, max_size as int) + "... [truncated, "@ + decimal(n) + " bytes total]"@
    } else {
        content
    }
}

/// The thinking text to store under the configured size limit.
pub fn thinking_to_store(content: &str, max_size: usize) -> (r: String)
    ensures
        r@ == stored_thinking(content@, max_size),
{
    let n = content.len();
    if n > max_size {
        let mut r = truncate_utf8_safe(content, max_size);
        push_str(&mut r, "... [truncated, ");
        push_decimal(&mut r, n as u64);
        push_str(&mut r, " bytes total]");
        r
    } else {
        owned(content)
    }
}

// ─────────────────────────────────────────────────────────────────────────────
// What is stored for an event
// ─────────────────────────────────────────────────────────────────────────────

/// What the store reads of an event (timestamps as RFC 3339 text, JSON
/// values as their JSON text, durations in milliseconds).
pub enum StoreEvent {
    Thinking { timestamp: String, content: String, token_estimate: u32 },
    ToolCall { id: String, timestamp: String, tool_name: String, input_json: String },
    ToolResult { id: String, timestamp: String, output_json: String, duration_ms: u64, success: bool },
    ApiUsage {
        timestamp: String,
        model: String,
        input_tokens: u32,
        output_tokens: u32,
        cache_read_tokens: u32,
        cache_creation_tokens: u32,
    },
    UserPrompt { timestamp: String, content: String },
    AssistantResponse { timestamp: String, content: String },
    TodoSnapshot { timestamp: String, todos_json: String, pending_count: u32, in_progress_count: u32, completed_count: u32 },
    /// An event that is not stored.
    Other,
}

/// The row written for an event (text rows are also indexed for search,
/// todo lists under `fts_content`).
pub enum StoreRow {
    Thinking { timestamp: String, content: String, tokens: u32 },
    ToolCall { id: String, timestamp: String, tool_name: String, input_json: Option<String> },
    ToolResult { id: String, timestamp: String, output_json: Option<String>, duration_ms: i64, success: bool, is_rejection: bool },
    ApiUsage {
        timestamp: String,
        model: String,
        input_tokens: u32,
        output_tokens: u32,
        cache_read_tokens: u32,
        cache_creation_tokens: u32,
    },
    UserPrompt { timestamp: String, content: String },
    AssistantResponse { timestamp: String, content: String },
    Todo {
        timestamp: String,
        todos_json: String,
        pending_count: u32,
        in_progress_count: u32,
        completed_count: u32,
        fts_content: String,
    },
}

/// Whether a tool result is a rejection: it failed and reports one.
pub open spec fn rejected(output: Seq<char>, success: bool) -> bool {
    !success && (contains_seq(output, rejection_edit()) || contains_seq(output, rejection_action()))
}

/// The row stored for an event: thinking only when thinking is stored (cut
/// to the size limit), tool inputs and outputs only when tool I/O is stored,
/// a failed tool result marked as a rejection when it reports one, todo
/// lists with their searchable text; nothing for other events.
pub fn plan_store(event: StoreEvent, config: &LifestatsConfig) -> (r: Option<StoreRow>)
    ensures
        match event {
            StoreEvent::Thinking { timestamp, content, token_estimate } => if config.store_thinking {
                r matches Some(StoreRow::Thinking { timestamp: t, content: c, tokens })
                    && t == timestamp && c@ == stored_thinking(content@, config.max_thinking_size)
                    && tokens == token_estimate
            } else {
                r is None
            },
            StoreEvent::ToolCall { id, timestamp, tool_name, input_json } => r matches Some(
                StoreRow::ToolCall { id: i, timestamp: t, tool_name: n, input_json: j },
            ) && i == id && t == timestamp && n == tool_name && (j is Some <==> config.store_tool_io) && (
            j is Some ==> j->0 == input_json),
            StoreEvent::ToolResult { id, timestamp, output_json, duration_ms, success } => r matches Some(
                StoreRow::ToolResult { id: i, timestamp: t, output_json: o, duration_ms: d, success: ok, is_rejection },
            ) && i == id && t == timestamp && (o is Some <==> config.store_tool_io) && (o is Some ==> o->0
                == output_json) && d == duration_ms as i64 && ok == success && is_rejection == rejected(
                output_json@,
                success,
            ),
            StoreEvent::ApiUsage { timestamp, model, input_tokens, output_tokens, cache_read_tokens, cache_creation_tokens } => r
                == Some(
                StoreRow::ApiUsage { timestamp, model, input_tokens, output_tokens, cache_read_tokens, cache_creation_tokens },
            ),
            StoreEvent::UserPrompt { timestamp, content } => r == Some(StoreRow::UserPrompt { timestamp, content }),
            StoreEvent::AssistantResponse { timestamp, content } => r == Some(
                StoreRow::AssistantResponse { timestamp, content },
            ),
            StoreEvent::TodoSnapshot { timestamp, todos_json, pending_count, in_progress_count, completed_count } => r matches Some(
                StoreRow::Todo { timestamp: t, todos_json: j, pending_count: p, in_progress_count: ip, completed_count: c, fts_content },
            ) && t == timestamp && j == todos_json && p == pending_count && ip == in_progress_count && c == completed_count
                && fts_content@ == todo_text(todo_items(json_of(todos_json@)), todos_json@),
            StoreEvent::Other => r is None,
        },
{
    match event {
        StoreEvent::Thinking { timestamp, content, token_estimate } => {
            if config.store_thinking {
                let c = thinking_to_store(content.as_str(), config.max_thinking_size);
                Some(StoreRow::Thinking { timestamp, content: c, tokens: token_estimate })
            } else {
                None
            }
        },
        StoreEvent::ToolCall { id, timestamp, tool_name, input_json } => {
            let j = if config.store_tool_io {
                Some(input_json)
            } else {
                None
            };
            Some(StoreRow::ToolCall { id, timestamp, tool_name, input_json: j })
        },
        StoreEvent::ToolResult { id, timestamp, output_json, duration_ms, success } => {
            let is_rejection = !success && is_user_rejection(output_json.as_str());
            let o = if config.store_tool_io {
                Some(output_json)
            } else {
                None
            };
            #[verifier::truncate]
            let d = duration_ms as i64;
            Some(StoreRow::ToolResult { id, timestamp, output_json: o, duration_ms: d, success, is_rejection })
        },
        StoreEvent::ApiUsage { timestamp, model, input_tokens, output_tokens, cache_read_tokens, cache_creation_tokens } => {
            Some(StoreRow::ApiUsage { timestamp, model, input_tokens, output_tokens, cache_read_tokens, cache_creation_tokens })
        },
        StoreEvent::UserPrompt { timestamp, content } => Some(StoreRow::UserPrompt { timestamp, content }),
        StoreEvent::AssistantResponse { timestamp, content } => Some(StoreRow::AssistantResponse { timestamp, content }),
        StoreEvent::TodoSnapshot { timestamp, todos_json, pending_count, in_progress_count, completed_count } => {
            let fts_content = extract_todo_content_for_fts(todos_json.as_str());
            Some(StoreRow::Todo { timestamp, todos_json, pending_count, in_progress_count, completed_count, fts_content })
        },
        StoreEvent::Other => None,
    }
}


// ─────────────────────────────────────────────────────────────────────────────
// The writer loop's decisions
// ─────────────────────────────────────────────────────────────────────────────

/// Time between two retention clean-ups: a day, in milliseconds.
pub const CLEANUP_INTERVAL_MS: u64 = 86_400_000;

/// What the writer loop received from its channel, with, on a timeout,
/// the milliseconds since the last flush and since the last clean-up.
#[derive(Debug, Clone, Copy, PartialEq, Eq, Structural)]
pub enum WriterEvent {
    /// An event was added to the batch, which now holds `pending` events.
    Stored { pending: usize },
    /// Nothing arrived within the flush interval.
    Timeout { pending: usize, since_flush_ms: u64, since_cleanup_ms: u64 },
    /// Shutdown was asked for.
    Shutdown { pending: usize },
    /// Every sender is gone.
    Disconnected { pending: usize },
}

/// What the writer loop does next.
#[derive(Debug, Clone, Copy, PartialEq, Eq, Structural)]
pub struct WriterAction {
    /// Write the batch in one transaction (and restart the flush clock,
    /// unless the loop stops).
    pub flush: bool,
    /// Delete records older than the retention period.
    pub run_cleanup: bool,
    /// Restart the clean-up clock.
    pub reset_cleanup_clock: bool,
    /// Leave the loop.
    pub stop: bool,
}

/// Whether the flush interval has passed: `elapsed_ms` is at least
/// `interval_secs` seconds.
pub open spec fn interval_passed(elapsed_ms: u64, interval_secs: u64) -> bool {
    elapsed_ms >= interval_secs * 1000
}

/// The decision of the writer loop on an event: a full batch is flushed;
/// on a timeout a non-empty batch is flushed once the flush interval has
/// passed, and once a day the clean-up runs (when a retention period is
/// set) and its clock restarts; on shutdown or disconnection what is left
/// is flushed and the loop stops.
pub open spec fn writer_decision(event: WriterEvent, batch_size: usize, flush_interval_secs: u64, retention_days: u32) -> WriterAction {
    match event {
        WriterEvent::Stored { pending } => WriterAction {
            flush: pending >= batch_size,
            run_cleanup: false,
            reset_cleanup_clock: false,
            stop: false,
        },
        WriterEvent::Timeout { pending, since_flush_ms, since_cleanup_ms } => {
            let due = since_cleanup_ms >= CLEANUP_INTERVAL_MS;
            WriterAction {
                flush: pending > 0 && interval_passed(since_flush_ms, flush_interval_secs),
                run_cleanup: due && retention_days > 0,
                reset_cleanup_clock: due,
                stop: false,
            }
        },
        WriterEvent::Shutdown { pending } => WriterAction {
            flush: pending > 0,
            run_cleanup: false,
            reset_cleanup_clock: false,
            stop: true,
        },
        WriterEvent::Disconnected { pending } => WriterAction {
            flush: pending > 0,
            run_cleanup: false,
            reset_cleanup_clock: false,
            stop: true,
        },
    }
}

/// The writer loop's next action on an event, under the given settings.
pub fn writer_step(event: WriterEvent, config: &LifestatsConfig) -> (r: WriterAction)
    ensures
        r == writer_decision(event, config.batch_size, config.flush_interval_secs, config.retention_days),
{
    match event {
        WriterEvent::Stored { pending } => WriterAction {
            flush: pending >= config.batch_size,
            run_cleanup: false,
            reset_cleanup_clock: false,
            stop: false,
        },
        WriterEvent::Timeout { pending, since_flush_ms, since_cleanup_ms } => {
            let due = since_cleanup_ms >= CLEANUP_INTERVAL_MS;
            let passed = (since_flush_ms as u128) >= (config.flush_interval_secs as u128) * 1000;
            WriterAction {
                flush: pending > 0 && passed,
                run_cleanup: due && config.retention_days > 0,
                reset_cleanup_clock: due,
                stop: false,
            }
        },
        WriterEvent::Shutdown { pending } => WriterAction {
            flush: pending > 0,
            run_cleanup: false,
            reset_cleanup_clock: false,
            stop: true,
        },
        WriterEvent::Disconnected { pending } => WriterAction {
            flush: pending > 0,
            run_cleanup: false,
            reset_cleanup_clock: false,
            stop: true,
        },
    }
}

/// The writer never loses a stored event: whenever it stops, a non-empty
/// batch is flushed first; an empty batch is written only on a store with a
/// batch size of zero; the clean-up never runs without its clock restarting.
pub proof fn lemma_writer_flushes_before_stopping(event: WriterEvent, batch_size: usize, flush_interval_secs: u64, retention_days: u32)
    ensures
        ({
            let a = writer_decision(event, batch_size, flush_interval_secs, retention_days);
            let pending = match event {
                WriterEvent::Stored { pending } => pending,
                WriterEvent::Timeout { pending, .. } => pending,
                WriterEvent::Shutdown { pending } => pending,
                WriterEvent::Disconnected { pending } => pending,
            };
            &&& a.stop ==> (a.flush <==> pending > 0)
            &&& (a.flush && pending == 0) ==> (event is Stored && batch_size == 0)
            &&& a.run_cleanup ==> a.reset_cleanup_clock
        }),
{
}

} // verus!
