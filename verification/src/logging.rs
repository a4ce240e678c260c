//! Log capture for the TUI: log levels, the bounded buffer of captured
//! entries, how a captured message is cleaned, and the names of event kinds
//! that the pipeline logs.

use vstd::prelude::*;

use crate::text::{chars_of, owned, push_char, push_str};

verus! {

/// How many entries the log buffer keeps.
pub const MAX_LOG_ENTRIES: usize = 1000;

/// Log level for display.
#[derive(Debug, Clone, Copy, PartialEq, Eq, Structural)]
pub enum LogLevel {
    Error,
    Warn,
    Info,
    Debug,
    Trace,
}

/// The display name of a level.
pub open spec fn level_name(l: LogLevel) -> Seq<char> {
    match l {
        LogLevel::Error => "ERROR"@,
        LogLevel::Warn => "WARN"@,
        LogLevel::Info => "INFO"@,
        LogLevel::Debug => "DEBUG"@,
        LogLevel::Trace => "TRACE"@,
    }
}

impl LogLevel {
    /// The display name of this level.
    pub fn as_str(&self) -> (r: &'static str)
        ensures
            r@ == level_name(*self),
    {
        match self {
            LogLevel::Error => "ERROR",
            LogLevel::Warn => "WARN",
            LogLevel::Info => "INFO",
            LogLevel::Debug => "DEBUG",
            LogLevel::Trace => "TRACE",
        }
    }
}

/// A captured log entry (`timestamp_ms` is milliseconds since the epoch).
pub struct LogEntry {
    pub timestamp_ms: i64,
    pub level: LogLevel,
    /// The module path the entry came from.
    pub target: String,
    pub message: String,
}

/// Whether two entries hold the same values.
pub open spec fn same_entry(a: LogEntry, b: LogEntry) -> bool {
    &&& a.timestamp_ms == b.timestamp_ms
    &&& a.level == b.level
    &&& a.target@ == b.target@
    &&& a.message@ == b.message@
}

impl Clone for LogEntry {
    fn clone(&self) -> (r: Self)
        ensures
            same_entry(r, *self),
    {
        LogEntry {
            timestamp_ms: self.timestamp_ms,
            level: self.level,
            target: self.target.clone(),
            message: self.message.clone(),
        }
    }
}

/// The newest log entries, oldest first, at most `MAX_LOG_ENTRIES` of them.
pub struct LogBuffer {
    entries: Vec<LogEntry>,
}

impl LogBuffer {
    #[verifier::type_invariant]
    spec fn inv(self) -> bool {
        self.entries@.len() <= MAX_LOG_ENTRIES
    }

    /// The entries, oldest first.
    pub closed spec fn entries(&self) -> Seq<LogEntry> {
        self.entries@
    }

    /// An empty buffer.
    pub fn new() -> (b: Self)
        ensures
            b.entries() == Seq::<LogEntry>::empty(),
    {
        LogBuffer { entries: Vec::new() }
    }

    /// Adds an entry, dropping the oldest one when the buffer is full.
    pub fn add(&mut self, entry: LogEntry)
        ensures
            final(self).entries() == if old(self).entries().len() >= MAX_LOG_ENTRIES {
                old(self).entries().drop_first().push(entry)
            } else {
                old(self).entries().push(entry)
            },
            final(self).entries().len() <= MAX_LOG_ENTRIES,
    {
        proof {
            use_type_invariant(&*self);
        }
        let mut entries = Vec::new();
        std::mem::swap(&mut entries, &mut self.entries);
        if entries.len() >= MAX_LOG_ENTRIES {
            entries.remove(0);
        }
        entries.push(entry);
        self.entries = entries;
    }

    /// The number of entries held.
    pub fn len(&self) -> (r: usize)
        ensures
            r == self.entries().len(),
    {
        self.entries.len()
    }

    /// The entry at `i` (0 is the oldest).
    pub fn get(&self, i: usize) -> (r: Option<&LogEntry>)
        ensures
            i < self.entries().len() ==> r == Some(&self.entries()[i as int]),
            i >= self.entries().len() ==> r is None,
    {
        if i < self.entries.len() {
            Some(&self.entries[i])
        } else {
            None
        }
    }

    /// A copy of the entries, oldest first.
    pub fn get_all(&self) -> (r: Vec<LogEntry>)
        ensures
            r@.len() == self.entries().len(),
            forall|i: int| 0 <= i < r@.len() ==> same_entry(#[trigger] r@[i], self.entries()[i]),
    {
        let mut out: Vec<LogEntry> = Vec::new();
        let mut i: usize = 0;
        while i < self.entries.len()
            invariant
                i <= self.entries@.len(),
                out@.len() == i,
                forall|k: int| 0 <= k < i ==> same_entry(#[trigger] out@[k], self.entries@[k]),
            decreases self.entries@.len() - i,
        {
            out.push(self.entries[i].clone());
            i = i + 1;
        }
        out
    }

    /// Removes every entry.
    pub fn clear(&mut self)
        ensures
            final(self).entries() == Seq::<LogEntry>::empty(),
    {
        self.entries = Vec::new();
    }
}

/// A message as its `Debug` text gives it: without the surrounding quotes
/// when it starts and ends with one.
pub open spec fn unquoted(s: Seq<char>) -> Seq<char> {
    if s.len() >= 2 && s[0] == '"' && s.last() == '"' {
        s.subrange(1, s.len() - 1)
    } else {
        s
    }
}

/// Strips the quotes that `Debug` puts around a message.
pub fn strip_debug_quotes(s: &str) -> (r: String)
    requires
        s@ != seq!['"'],
    ensures
        r@ == unquoted(s@),
{
    let v = chars_of(s);
    let n = v.len();
    if n >= 1 && v[0] == '"' && v[n - 1] == '"' {
        if n == 1 {
            assert(s@ =~= seq!['"']);
        }
        let mut r = String::new();
        let mut i: usize = 1;
        let end: usize = n - 1;
        while i < end
            invariant
                1 <= i <= end,
                end == n - 1,
                n == v.len(),
                v@ == s@,
                r@ == v@.subrange(1, i as int),
            decreases end - i,
        {
            push_char(&mut r, v[i]);
            assert(v@.subrange(1, i as int).push(v@[i as int]) =~= v@.subrange(1, i + 1));
            i = i + 1;
        }
        r
    } else {
        owned(s)
    }
}

/// The kind of a proxy event.
#[derive(Debug, Clone, Copy, PartialEq, Eq, Structural)]
pub enum EventKind {
    ToolCall,
    ToolResult,
    Request,
    Response,
    Error,
    HeadersCaptured,
    RateLimitUpdate,
    ApiUsage,
    Thinking,
    ContextCompact,
    ThinkingStarted,
    UserPrompt,
    AssistantResponse,
    RequestTransformed,
    ResponseAugmented,
    PreCompactHook,
    ContextRecovery,
    TodoSnapshot,
    ContextEstimate,
}

/// The name the pipeline logs for an event kind.
pub open spec fn kind_name(k: EventKind) -> Seq<char> {
    match k {
        EventKind::ToolCall => "ToolCall"@,
        EventKind::ToolResult => "ToolResult"@,
        EventKind::Request => "Request"@,
        EventKind::Response => "Response"@,
        EventKind::Error => "Error"@,
        EventKind::HeadersCaptured => "HeadersCaptured"@,
        EventKind::RateLimitUpdate => "RateLimitUpdate"@,
        EventKind::ApiUsage => "ApiUsage"@,
        EventKind::Thinking => "Thinking"@,
        EventKind::ContextCompact => "ContextCompact"@,
        EventKind::ThinkingStarted => "ThinkingStarted"@,
        EventKind::UserPrompt => "UserPrompt"@,
        EventKind::AssistantResponse => "AssistantResponse"@,
        EventKind::RequestTransformed => "RequestTransformed"@,
        EventKind::ResponseAugmented => "ResponseAugmented"@,
        EventKind::PreCompactHook => "PreCompactHook"@,
        EventKind::ContextRecovery => "ContextRecovery"@,
        EventKind::TodoSnapshot => "TodoSnapshot"@,
        EventKind::ContextEstimate => "ContextEstimate"@,
    }
}

impl EventKind {
    /// The name the pipeline logs for this kind.
    pub fn name(&self) -> (r: &'static str)
        ensures
            r@ == kind_name(*self),
    {
        match self {
            EventKind::ToolCall => "ToolCall",
            EventKind::ToolResult => "ToolResult",
            EventKind::Request => "Request",
            EventKind::Response => "Response",
            EventKind::Error => "Error",
            EventKind::HeadersCaptured => "HeadersCaptured",
            EventKind::RateLimitUpdate => "RateLimitUpdate",
            EventKind::ApiUsage => "ApiUsage",
            EventKind::Thinking => "Thinking",
            EventKind::ContextCompact => "ContextCompact",
            EventKind::ThinkingStarted => "ThinkingStarted",
            EventKind::UserPrompt => "UserPrompt",
            EventKind::AssistantResponse => "AssistantResponse",
            EventKind::RequestTransformed => "RequestTransformed",
            EventKind::ResponseAugmented => "ResponseAugmented",
            EventKind::PreCompactHook => "PreCompactHook",
            EventKind::ContextRecovery => "ContextRecovery",
            EventKind::TodoSnapshot => "TodoSnapshot",
            EventKind::ContextEstimate => "ContextEstimate",
        }
    }
}

/// What processors know of the event's origin.
pub struct ProcessContext {
    pub session_id: Option<String>,
    pub user_id: Option<String>,
    /// Whether the event is synthetic (demo mode).
    pub is_demo: bool,
}

impl ProcessContext {
    /// A context with the given session and user.
    pub fn new(session_id: Option<&str>, user_id: Option<&str>, is_demo: bool) -> (r: Self)
        ensures
            crate::text::opt_view(r.session_id) == match session_id {
                Some(s) => Some(s@),
                None => None,
            },
            crate::text::opt_view(r.user_id) == match user_id {
                Some(u) => Some(u@),
                None => None,
            },
            r.is_demo == is_demo,
    {
        ProcessContext {
            session_id: match session_id {
                Some(s) => Some(owned(s)),
                None => None,
            },
            user_id: match user_id {
                Some(u) => Some(owned(u)),
                None => None,
            },
            is_demo,
        }
    }
}

/// The processor that logs each event's kind and passes it on.
pub struct LoggingProcessor;

impl LoggingProcessor {
    pub fn new() -> (r: Self) {
        LoggingProcessor
    }

    /// The processor's name.
    pub fn name(&self) -> (r: &'static str)
        ensures
            r@ == "logging"@,
    {
        "logging"
    }

    /// The name under which an event of this kind is logged.
    pub fn event_type(&self, kind: EventKind) -> (r: &'static str)
        ensures
            r@ == kind_name(kind),
    {
        kind.name()
    }
}

// ─────────────────────────────────────────────────────────────────────────────
// Session identifiers
// ─────────────────────────────────────────────────────────────────────────────

/// The lowercase hexadecimal digit of `d` (below 16): `0` is code 48,
/// `a` is code 97.
pub open spec fn hex_digit(d: int) -> char {
    if d < 10 {
        ((d + 48) as u8) as char
    } else {
        ((d + 87) as u8) as char
    }
}

/// The low 16 bits of `n` as four lowercase hexadecimal digits (`{:04x}`
/// of `n & 0xFFFF`).
pub open spec fn hex4(n: u64) -> Seq<char> {
    let v = (n % 65536) as int;
    seq![hex_digit((v / 4096) % 16), hex_digit((v / 256) % 16), hex_digit((v / 16) % 16), hex_digit(v % 16)]
}

fn hex_char(d: u64) -> (c: char)
    requires
        d < 16,
    ensures
        c == hex_digit(d as int),
{
    if d < 10 {
        ((d as u8) + 48u8) as char
    } else {
        ((d as u8) + 87u8) as char
    }
}

/// A session identifier: the start time as written (`YYYYMMDD-HHMMSS`), a
/// dash, and the low 16 bits of a random number as four hexadecimal digits.
pub fn session_id(stamp: &str, random: u64) -> (r: String)
    ensures
        r@ == stamp@ + seq!['-'] + hex4(random),
{
    let v = random & 0xFFFF;
    assert(v == random % 65536) by (bit_vector)
        requires
            v == random & 0xFFFF,
    ;
    let mut r = owned(stamp);
    push_char(&mut r, '-');
    push_char(&mut r, hex_char((v / 4096) % 16));
    push_char(&mut r, hex_char((v / 256) % 16));
    push_char(&mut r, hex_char((v / 16) % 16));
    push_char(&mut r, hex_char(v % 16));
    assert(r@ =~= stamp@ + seq!['-'] + hex4(random));
    r
}

} // verus!
