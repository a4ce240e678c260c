//! Session statistics: request, tool and token counters, per-model and
//! per-tool breakdowns, and the short histories behind the trend lines.
//!
//! Durations are kept as integer nanoseconds (time to first byte) and
//! milliseconds (tool runs); a cache hit rate is kept as the two token counts
//! it is the ratio of.

use vstd::prelude::*;

use crate::strmap::StrMap;

verus! {

/// How many points a history keeps.
pub const HISTORY_LEN: usize = 30;

/// Token usage of one model.
#[derive(Debug, Clone, Copy)]
pub struct ModelTokens {
    pub input: u64,
    pub output: u64,
    pub cache_read: u64,
    pub cache_creation: u64,
    pub calls: u32,
}

/// Token usage of one API call, for the token trend.
#[derive(Debug, Clone, Copy)]
pub struct TokenSnapshot {
    pub input: u64,
    pub output: u64,
    pub cached: u64,
}

/// A cache hit rate as its parts: tokens read from cache, and input tokens
/// not read from cache (the rate is `cache_read / (cache_read + input)`).
#[derive(Debug, Clone, Copy)]
pub struct CacheRatio {
    pub cache_read: u64,
    pub input: u64,
}

/// What the statistics read of a proxy event.
pub enum StatEvent {
    /// An HTTP request passed through.
    Request,
    /// An HTTP response with its status and time to first byte.
    Response { status: u16, ttfb_nanos: u64 },
    /// A tool call was requested.
    ToolCall,
    /// A tool call returned.
    ToolResult { tool_name: String, success: bool, duration_ms: u64 },
    /// Token usage of an API call.
    ApiUsage {
        model: String,
        input_tokens: u32,
        output_tokens: u32,
        cache_creation_tokens: u32,
        cache_read_tokens: u32,
    },
    /// A thinking block with its token estimate.
    Thinking { token_estimate: u32 },
    /// The context window was compacted.
    ContextCompact,
    /// Any other event.
    Other,
}

/// Summary statistics of a session.
pub struct Stats {
    pub total_requests: usize,
    pub failed_requests: usize,
    pub total_tool_calls: usize,
    pub failed_tool_calls: usize,
    /// Sum of the times to first byte, in nanoseconds.
    pub total_ttfb_nanos: u64,
    /// Number of responses (for the average time to first byte).
    pub response_count: usize,
    pub total_input_tokens: u64,
    pub total_output_tokens: u64,
    pub total_cache_creation_tokens: u64,
    pub total_cache_read_tokens: u64,
    /// Context compactions detected.
    pub compact_count: usize,
    pub thinking_blocks: usize,
    pub thinking_tokens: u64,
    /// Fresh user turns.
    pub turn_count: u64,
    /// API calls per model.
    pub model_calls: StrMap<u32>,
    /// Token usage per model.
    pub model_tokens: StrMap<ModelTokens>,
    /// Tool results per tool name.
    pub tool_calls_by_name: StrMap<u32>,
    /// Tool run times per tool name, in milliseconds.
    pub tool_durations_ms: StrMap<Vec<u64>>,
    /// Last token snapshots.
    pub token_history: Vec<TokenSnapshot>,
    /// Last cumulative tool call counts.
    pub tool_call_history: Vec<u32>,
    /// Last cache hit rates.
    pub cache_rate_history: Vec<CacheRatio>,
    /// Last thinking token estimates.
    pub thinking_token_history: Vec<u64>,
}

/// The statistics as plain values.
pub struct StatsV {
    pub total_requests: usize,
    pub failed_requests: usize,
    pub total_tool_calls: usize,
    pub failed_tool_calls: usize,
    pub total_ttfb_nanos: u64,
    pub response_count: usize,
    pub total_input_tokens: u64,
    pub total_output_tokens: u64,
    pub total_cache_creation_tokens: u64,
    pub total_cache_read_tokens: u64,
    pub compact_count: usize,
    pub thinking_blocks: usize,
    pub thinking_tokens: u64,
    pub turn_count: u64,
    pub model_calls: Map<Seq<char>, u32>,
    pub model_tokens: Map<Seq<char>, ModelTokens>,
    pub tool_calls_by_name: Map<Seq<char>, u32>,
    pub tool_durations_ms: Map<Seq<char>, Seq<u64>>,
    pub token_history: Seq<TokenSnapshot>,
    pub tool_call_history: Seq<u32>,
    pub cache_rate_history: Seq<CacheRatio>,
    pub thinking_token_history: Seq<u64>,
}

/// The durations of each tool as sequences.
pub open spec fn durations_view(m: Map<Seq<char>, Vec<u64>>) -> Map<Seq<char>, Seq<u64>> {
    m.map_values(|v: Vec<u64>| v@)
}

impl View for Stats {
    type V = StatsV;

    open spec fn view(&self) -> StatsV {
        StatsV {
            total_requests: self.total_requests,
            failed_requests: self.failed_requests,
            total_tool_calls: self.total_tool_calls,
            failed_tool_calls: self.failed_tool_calls,
            total_ttfb_nanos: self.total_ttfb_nanos,
            response_count: self.response_count,
            total_input_tokens: self.total_input_tokens,
            total_output_tokens: self.total_output_tokens,
            total_cache_creation_tokens: self.total_cache_creation_tokens,
            total_cache_read_tokens: self.total_cache_read_tokens,
            compact_count: self.compact_count,
            thinking_blocks: self.thinking_blocks,
            thinking_tokens: self.thinking_tokens,
            turn_count: self.turn_count,
            model_calls: self.model_calls@,
            model_tokens: self.model_tokens@,
            tool_calls_by_name: self.tool_calls_by_name@,
            tool_durations_ms: durations_view(self.tool_durations_ms@),
            token_history: self.token_history@,
            tool_call_history: self.tool_call_history@,
            cache_rate_history: self.cache_rate_history@,
            thinking_token_history: self.thinking_token_history@,
        }
    }
}

/// `h` with `x` appended, keeping only the last `HISTORY_LEN` points once
/// it is full.
pub open spec fn history_push<T>(h: Seq<T>, x: T) -> Seq<T> {
    let t = h.push(x);
    if t.len() > HISTORY_LEN {
        t.drop_first()
    } else {
        t
    }
}

fn push_history<T>(h: &mut Vec<T>, x: T)
    ensures
        final(h)@ == history_push(old(h)@, x),
{
    h.push(x);
    if h.len() > HISTORY_LEN {
        h.remove(0);
        assert(h@ =~= history_push(old(h)@, x));
    }
}

/// A count in a per-name map, zero when absent.
pub open spec fn count_in(m: Map<Seq<char>, u32>, k: Seq<char>) -> u32 {
    if m.contains_key(k) {
        m[k]
    } else {
        0
    }
}

/// The zero usage of a model.
pub open spec fn no_tokens() -> ModelTokens {
    ModelTokens { input: 0, output: 0, cache_read: 0, cache_creation: 0, calls: 0 }
}

/// A model's usage, zero when absent.
pub open spec fn tokens_in(m: Map<Seq<char>, ModelTokens>, k: Seq<char>) -> ModelTokens {
    if m.contains_key(k) {
        m[k]
    } else {
        no_tokens()
    }
}

/// A tool's durations, none when absent.
pub open spec fn durations_in(m: Map<Seq<char>, Seq<u64>>, k: Seq<char>) -> Seq<u64> {
    if m.contains_key(k) {
        m[k]
    } else {
        Seq::empty()
    }
}

/// A model's usage after one API call.
pub open spec fn tokens_after(t: ModelTokens, input: u32, output: u32, creation: u32, read: u32) -> ModelTokens {
    ModelTokens {
        input: (t.input + input) as u64,
        output: (t.output + output) as u64,
        cache_read: (t.cache_read + read) as u64,
        cache_creation: (t.cache_creation + creation) as u64,
        calls: (t.calls + 1) as u32,
    }
}

/// Whether `update` can count the event without a counter overflowing.
pub open spec fn update_fits(s: StatsV, e: StatEvent) -> bool {
    match e {
        StatEvent::Request => s.total_requests < usize::MAX,
        StatEvent::Response { status, ttfb_nanos } => {
            &&& (status >= 400 ==> s.failed_requests < usize::MAX)
            &&& s.total_ttfb_nanos + ttfb_nanos <= u64::MAX
            &&& s.response_count < usize::MAX
        },
        StatEvent::ToolCall => s.total_tool_calls < usize::MAX,
        StatEvent::ToolResult { tool_name, success, .. } => {
            &&& (!success ==> s.failed_tool_calls < usize::MAX)
            &&& count_in(s.tool_calls_by_name, tool_name@) < u32::MAX
        },
        StatEvent::ApiUsage { model, input_tokens, output_tokens, cache_creation_tokens, cache_read_tokens } => {
            let t = tokens_in(s.model_tokens, model@);
            &&& s.total_input_tokens + input_tokens <= u64::MAX
            &&& s.total_output_tokens + output_tokens <= u64::MAX
            &&& s.total_cache_creation_tokens + cache_creation_tokens <= u64::MAX
            &&& s.total_cache_read_tokens + cache_read_tokens <= u64::MAX
            &&& t.input + input_tokens <= u64::MAX
            &&& t.output + output_tokens <= u64::MAX
            &&& t.cache_read + cache_read_tokens <= u64::MAX
            &&& t.cache_creation + cache_creation_tokens <= u64::MAX
            &&& t.calls < u32::MAX
            &&& count_in(s.model_calls, model@) < u32::MAX
        },
        StatEvent::Thinking { token_estimate } => {
            &&& s.thinking_blocks < usize::MAX
            &&& s.thinking_tokens + token_estimate <= u64::MAX
        },
        StatEvent::ContextCompact => s.compact_count < usize::MAX,
        StatEvent::Other => true,
    }
}

/// The statistics after counting one event.
pub open spec fn stats_after(s: StatsV, e: StatEvent) -> StatsV {
    match e {
        StatEvent::Request => StatsV { total_requests: (s.total_requests + 1) as usize, ..s },
        StatEvent::Response { status, ttfb_nanos } => StatsV {
            failed_requests: if status >= 400 { (s.failed_requests + 1) as usize } else { s.failed_requests },
            total_ttfb_nanos: (s.total_ttfb_nanos + ttfb_nanos) as u64,
            response_count: (s.response_count + 1) as usize,
            ..s
        },
        StatEvent::ToolCall => StatsV {
            total_tool_calls: (s.total_tool_calls + 1) as usize,
            tool_call_history: history_push(s.tool_call_history, (s.total_tool_calls + 1) as u32),
            ..s
        },
        StatEvent::ToolResult { tool_name, success, duration_ms } => StatsV {
            failed_tool_calls: if !success { (s.failed_tool_calls + 1) as usize } else { s.failed_tool_calls },
            tool_durations_ms: s.tool_durations_ms.insert(
                tool_name@,
                durations_in(s.tool_durations_ms, tool_name@).push(duration_ms),
            ),
            tool_calls_by_name: s.tool_calls_by_name.insert(
                tool_name@,
                (count_in(s.tool_calls_by_name, tool_name@) + 1) as u32,
            ),
            ..s
        },
        StatEvent::ApiUsage { model, input_tokens, output_tokens, cache_creation_tokens, cache_read_tokens } => {
            let read = (s.total_cache_read_tokens + cache_read_tokens) as u64;
            let input = (s.total_input_tokens + input_tokens) as u64;
            StatsV {
                total_input_tokens: input,
                total_output_tokens: (s.total_output_tokens + output_tokens) as u64,
                total_cache_creation_tokens: (s.total_cache_creation_tokens + cache_creation_tokens) as u64,
                total_cache_read_tokens: read,
                model_tokens: s.model_tokens.insert(
                    model@,
                    tokens_after(
                        tokens_in(s.model_tokens, model@),
                        input_tokens,
                        output_tokens,
                        cache_creation_tokens,
                        cache_read_tokens,
                    ),
                ),
                model_calls: s.model_calls.insert(model@, (count_in(s.model_calls, model@) + 1) as u32),
                token_history: history_push(
                    s.token_history,
                    TokenSnapshot { input: input_tokens as u64, output: output_tokens as u64, cached: cache_read_tokens as u64 },
                ),
                cache_rate_history: history_push(s.cache_rate_history, CacheRatio { cache_read: read, input }),
                ..s
            }
        },
        StatEvent::Thinking { token_estimate } => StatsV {
            thinking_blocks: (s.thinking_blocks + 1) as usize,
            thinking_tokens: (s.thinking_tokens + token_estimate) as u64,
            thinking_token_history: history_push(s.thinking_token_history, token_estimate as u64),
            ..s
        },
        StatEvent::ContextCompact => StatsV { compact_count: (s.compact_count + 1) as usize, ..s },
        StatEvent::Other => s,
    }
}

/// The statistics after recording only the histories of one event, from the
/// counters as they stand.
pub open spec fn history_after(s: StatsV, e: StatEvent) -> StatsV {
    match e {
        StatEvent::ToolCall => StatsV {
            tool_call_history: history_push(s.tool_call_history, s.total_tool_calls as u32),
            ..s
        },
        StatEvent::ApiUsage { input_tokens, output_tokens, cache_read_tokens, .. } => StatsV {
            token_history: history_push(
                s.token_history,
                TokenSnapshot { input: input_tokens as u64, output: output_tokens as u64, cached: cache_read_tokens as u64 },
            ),
            cache_rate_history: history_push(
                s.cache_rate_history,
                CacheRatio { cache_read: s.total_cache_read_tokens, input: s.total_input_tokens },
            ),
            ..s
        },
        StatEvent::Thinking { token_estimate } => StatsV {
            thinking_token_history: history_push(s.thinking_token_history, token_estimate as u64),
            ..s
        },
        _ => s,
    }
}

fn count_of(m: &StrMap<u32>, k: &str) -> (r: u32)
    ensures
        r == count_in(m@, k@),
{
    match m.get(k) {
        Some(v) => *v,
        None => 0,
    }
}

fn tokens_of(m: &StrMap<ModelTokens>, k: &str) -> (r: ModelTokens)
    ensures
        r == tokens_in(m@, k@),
{
    match m.get(k) {
        Some(v) => *v,
        None => ModelTokens { input: 0, output: 0, cache_read: 0, cache_creation: 0, calls: 0 },
    }
}

fn durations_of(m: &StrMap<Vec<u64>>, k: &str) -> (r: Vec<u64>)
    ensures
        r@ == durations_in(durations_view(m@), k@),
{
    let mut r: Vec<u64> = Vec::new();
    match m.get(k) {
        Some(v) => {
            let mut i: usize = 0;
            while i < v.len()
                invariant
                    i <= v.len(),
                    r@ == v@.take(i as int),
                decreases v.len() - i,
            {
                r.push(v[i]);
                assert(v@.take(i + 1) =~= v@.take(i as int).push(v@[i as int]));
                i = i + 1;
            }
            assert(v@.take(v.len() as int) =~= v@);
        },
        None => {},
    }
    r
}

impl Stats {
    /// Empty statistics.
    pub fn new() -> (s: Self)
        ensures
            s@ == empty_stats(),
    {
        let s = Stats {
            total_requests: 0,
            failed_requests: 0,
            total_tool_calls: 0,
            failed_tool_calls: 0,
            total_ttfb_nanos: 0,
            response_count: 0,
            total_input_tokens: 0,
            total_output_tokens: 0,
            total_cache_creation_tokens: 0,
            total_cache_read_tokens: 0,
            compact_count: 0,
            thinking_blocks: 0,
            thinking_tokens: 0,
            turn_count: 0,
            model_calls: StrMap::new(),
            model_tokens: StrMap::new(),
            tool_calls_by_name: StrMap::new(),
            tool_durations_ms: StrMap::new(),
            token_history: Vec::new(),
            tool_call_history: Vec::new(),
            cache_rate_history: Vec::new(),
            thinking_token_history: Vec::new(),
        };
        assert(durations_view(s.tool_durations_ms@) =~= Map::<Seq<char>, Seq<u64>>::empty());
        s
    }

    /// All tokens used, of every kind.
    pub fn total_tokens(&self) -> (r: u64)
        requires
            self.total_input_tokens + self.total_output_tokens + self.total_cache_creation_tokens
                + self.total_cache_read_tokens <= u64::MAX,
        ensures
            r == self.total_input_tokens + self.total_output_tokens + self.total_cache_creation_tokens
                + self.total_cache_read_tokens,
    {
        self.total_input_tokens + self.total_output_tokens + self.total_cache_creation_tokens
            + self.total_cache_read_tokens
    }

    /// The average time to first byte in nanoseconds (zero before any
    /// response).
    pub fn avg_ttfb_nanos(&self) -> (r: u64)
        ensures
            r == if self.response_count == 0 {
                0
            } else {
                self.total_ttfb_nanos / (self.response_count as u64)
            },
    {
        if self.response_count == 0 {
            0
        } else {
            self.total_ttfb_nanos / (self.response_count as u64)
        }
    }

    /// Counts one event.
    pub fn update(&mut self, event: &StatEvent)
        requires
            update_fits(old(self)@, *event),
        ensures
            final(self)@ == stats_after(old(self)@, *event),
    {
        match event {
            StatEvent::Request => {
                self.total_requests = self.total_requests + 1;
            },
            StatEvent::Response { status, ttfb_nanos } => {
                if *status >= 400 {
                    self.failed_requests = self.failed_requests + 1;
                }
                self.total_ttfb_nanos = self.total_ttfb_nanos + *ttfb_nanos;
                self.response_count = self.response_count + 1;
            },
            StatEvent::ToolCall => {
                self.total_tool_calls = self.total_tool_calls + 1;
                #[verifier::truncate]
                let n = self.total_tool_calls as u32;
                push_history(&mut self.tool_call_history, n);
            },
            StatEvent::ToolResult { tool_name, success, duration_ms } => {
                if !*success {
                    self.failed_tool_calls = self.failed_tool_calls + 1;
                }
                let mut ds = durations_of(&self.tool_durations_ms, tool_name.as_str());
                ds.push(*duration_ms);
                let ghost dv = ds@;
                self.tool_durations_ms.insert(tool_name.clone(), ds);
                assert(durations_view(self.tool_durations_ms@) =~= durations_view(old(self).tool_durations_ms@).insert(
                    tool_name@,
                    dv,
                ));
                let c = count_of(&self.tool_calls_by_name, tool_name.as_str());
                self.tool_calls_by_name.insert(tool_name.clone(), c + 1);
            },
            StatEvent::ApiUsage { model, input_tokens, output_tokens, cache_creation_tokens, cache_read_tokens } => {
                self.total_input_tokens = self.total_input_tokens + *input_tokens as u64;
                self.total_output_tokens = self.total_output_tokens + *output_tokens as u64;
                self.total_cache_creation_tokens = self.total_cache_creation_tokens + *cache_creation_tokens as u64;
                self.total_cache_read_tokens = self.total_cache_read_tokens + *cache_read_tokens as u64;
                let t = tokens_of(&self.model_tokens, model.as_str());
                let t2 = ModelTokens {
                    input: t.input + *input_tokens as u64,
                    output: t.output + *output_tokens as u64,
                    cache_read: t.cache_read + *cache_read_tokens as u64,
                    cache_creation: t.cache_creation + *cache_creation_tokens as u64,
                    calls: t.calls + 1,
                };
                self.model_tokens.insert(model.clone(), t2);
                let c = count_of(&self.model_calls, model.as_str());
                self.model_calls.insert(model.clone(), c + 1);
                push_history(
                    &mut self.token_history,
                    TokenSnapshot {
                        input: *input_tokens as u64,
                        output: *output_tokens as u64,
                        cached: *cache_read_tokens as u64,
                    },
                );
                push_history(
                    &mut self.cache_rate_history,
                    CacheRatio { cache_read: self.total_cache_read_tokens, input: self.total_input_tokens },
                );
            },
            StatEvent::Thinking { token_estimate } => {
                self.thinking_blocks = self.thinking_blocks + 1;
                self.thinking_tokens = self.thinking_tokens + *token_estimate as u64;
                push_history(&mut self.thinking_token_history, *token_estimate as u64);
            },
            StatEvent::ContextCompact => {
                self.compact_count = self.compact_count + 1;
            },
            StatEvent::Other => {},
        }
    }

    /// Records only the histories of one event (the counters are kept by
    /// the caller).
    pub fn update_history(&mut self, event: &StatEvent)
        ensures
            final(self)@ == history_after(old(self)@, *event),
    {
        match event {
            StatEvent::ToolCall => {
                #[verifier::truncate]
                let n = self.total_tool_calls as u32;
                push_history(&mut self.tool_call_history, n);
            },
            StatEvent::ApiUsage { input_tokens, output_tokens, cache_read_tokens, .. } => {
                push_history(
                    &mut self.token_history,
                    TokenSnapshot {
                        input: *input_tokens as u64,
                        output: *output_tokens as u64,
                        cached: *cache_read_tokens as u64,
                    },
                );
                push_history(
                    &mut self.cache_rate_history,
                    CacheRatio { cache_read: self.total_cache_read_tokens, input: self.total_input_tokens },
                );
            },
            StatEvent::Thinking { token_estimate } => {
                push_history(&mut self.thinking_token_history, *token_estimate as u64);
            },
            _ => {},
        }
    }
}

impl Default for Stats {
    fn default() -> (s: Self)
        ensures
            s@ == empty_stats(),
    {
        Stats::new()
    }
}

/// Empty statistics.
pub open spec fn empty_stats() -> StatsV {
    StatsV {
        total_requests: 0,
        failed_requests: 0,
        total_tool_calls: 0,
        failed_tool_calls: 0,
        total_ttfb_nanos: 0,
        response_count: 0,
        total_input_tokens: 0,
        total_output_tokens: 0,
        total_cache_creation_tokens: 0,
        total_cache_read_tokens: 0,
        compact_count: 0,
        thinking_blocks: 0,
        thinking_tokens: 0,
        turn_count: 0,
        model_calls: Map::empty(),
        model_tokens: Map::empty(),
        tool_calls_by_name: Map::empty(),
        tool_durations_ms: Map::empty(),
        token_history: Seq::empty(),
        tool_call_history: Seq::empty(),
        cache_rate_history: Seq::empty(),
        thinking_token_history: Seq::empty(),
    }
}

/// A history never grows past `HISTORY_LEN` points, and the newest point is
/// always last.
pub proof fn lemma_history_bounded<T>(h: Seq<T>, x: T)
    requires
        h.len() <= HISTORY_LEN,
    ensures
        history_push(h, x).len() <= HISTORY_LEN,
        history_push(h, x).last() == x,
        h.len() < HISTORY_LEN ==> history_push(h, x) == h.push(x),
{
}

/// Counting an event keeps every history within `HISTORY_LEN` points.
pub proof fn lemma_update_keeps_histories_bounded(s: StatsV, e: StatEvent)
    requires
        s.token_history.len() <= HISTORY_LEN,
        s.tool_call_history.len() <= HISTORY_LEN,
        s.cache_rate_history.len() <= HISTORY_LEN,
        s.thinking_token_history.len() <= HISTORY_LEN,
    ensures
        stats_after(s, e).token_history.len() <= HISTORY_LEN,
        stats_after(s, e).tool_call_history.len() <= HISTORY_LEN,
        stats_after(s, e).cache_rate_history.len() <= HISTORY_LEN,
        stats_after(s, e).thinking_token_history.len() <= HISTORY_LEN,
        history_after(s, e).token_history.len() <= HISTORY_LEN,
        history_after(s, e).tool_call_history.len() <= HISTORY_LEN,
        history_after(s, e).cache_rate_history.len() <= HISTORY_LEN,
        history_after(s, e).thinking_token_history.len() <= HISTORY_LEN,
{
}

/// Each request counts once: the request total grows by one and nothing
/// else changes.
pub proof fn lemma_request_counts_once(s: StatsV)
    requires
        update_fits(s, StatEvent::Request),
    ensures
        stats_after(s, StatEvent::Request).total_requests == s.total_requests + 1,
        stats_after(s, StatEvent::Request) == (StatsV { total_requests: (s.total_requests + 1) as usize, ..s }),
{
}

/// A response counts once, and as a failure exactly when its status is an
/// error (400 or above): client errors such as 400 or 429 count as well as
/// server errors. Its time to first byte is added to the total; the
/// request count and the tool statistics do not change.
pub proof fn lemma_response_failures_are_errors(s: StatsV, status: u16, ttfb_nanos: u64)
    requires
        update_fits(s, StatEvent::Response { status, ttfb_nanos }),
    ensures
        ({
            let t = stats_after(s, StatEvent::Response { status, ttfb_nanos });
            &&& t.failed_requests == s.failed_requests + (if status >= 400 { 1int } else { 0int })
            &&& t.response_count == s.response_count + 1
            &&& t.total_ttfb_nanos == s.total_ttfb_nanos + ttfb_nanos
            &&& t.total_requests == s.total_requests
            &&& t.total_tool_calls == s.total_tool_calls
            &&& t.failed_tool_calls == s.failed_tool_calls
        }),
{
}

/// An API call's tokens are added both to the totals and to its model's
/// usage, and the model's call count grows by one.
pub proof fn lemma_usage_is_attributed_to_model(
    s: StatsV,
    model: String,
    input_tokens: u32,
    output_tokens: u32,
    cache_creation_tokens: u32,
    cache_read_tokens: u32,
)
    requires
        update_fits(s, StatEvent::ApiUsage { model, input_tokens, output_tokens, cache_creation_tokens, cache_read_tokens }),
    ensures
        ({
            let t = stats_after(s, StatEvent::ApiUsage { model, input_tokens, output_tokens, cache_creation_tokens, cache_read_tokens });
            &&& t.total_input_tokens == s.total_input_tokens + input_tokens
            &&& t.model_tokens[model@].input == tokens_in(s.model_tokens, model@).input + input_tokens
            &&& t.model_tokens[model@].calls == tokens_in(s.model_tokens, model@).calls + 1
            &&& t.model_calls[model@] == count_in(s.model_calls, model@) + 1
        }),
{
}

/// Two per-name counts added key by key.
pub open spec fn merged_counts(a: Map<Seq<char>, u32>, b: Map<Seq<char>, u32>) -> Map<Seq<char>, u32> {
    Map::new(
        |k: Seq<char>| a.contains_key(k) || b.contains_key(k),
        |k: Seq<char>| (count_in(a, k) + count_in(b, k)) as u32,
    )
}

/// Two model usages added field by field.
pub open spec fn tokens_sum(t: ModelTokens, u: ModelTokens) -> ModelTokens {
    ModelTokens {
        input: (t.input + u.input) as u64,
        output: (t.output + u.output) as u64,
        cache_read: (t.cache_read + u.cache_read) as u64,
        cache_creation: (t.cache_creation + u.cache_creation) as u64,
        calls: (t.calls + u.calls) as u32,
    }
}

/// Two per-model usages added key by key.
pub open spec fn merged_tokens(a: Map<Seq<char>, ModelTokens>, b: Map<Seq<char>, ModelTokens>) -> Map<Seq<char>, ModelTokens> {
    Map::new(
        |k: Seq<char>| a.contains_key(k) || b.contains_key(k),
        |k: Seq<char>| tokens_sum(tokens_in(a, k), tokens_in(b, k)),
    )
}

/// Whether two usages can be added without overflow.
pub open spec fn tokens_sum_fits(t: ModelTokens, u: ModelTokens) -> bool {
    &&& t.input + u.input <= u64::MAX
    &&& t.output + u.output <= u64::MAX
    &&& t.cache_read + u.cache_read <= u64::MAX
    &&& t.cache_creation + u.cache_creation <= u64::MAX
    &&& t.calls + u.calls <= u32::MAX
}

/// Whether `merge` can add `b` into `a` without a counter overflowing.
pub open spec fn merge_fits(a: StatsV, b: StatsV) -> bool {
    &&& a.total_requests + b.total_requests <= usize::MAX
    &&& a.failed_requests + b.failed_requests <= usize::MAX
    &&& a.total_tool_calls + b.total_tool_calls <= usize::MAX
    &&& a.failed_tool_calls + b.failed_tool_calls <= usize::MAX
    &&& a.total_ttfb_nanos + b.total_ttfb_nanos <= u64::MAX
    &&& a.response_count + b.response_count <= usize::MAX
    &&& a.total_input_tokens + b.total_input_tokens <= u64::MAX
    &&& a.total_output_tokens + b.total_output_tokens <= u64::MAX
    &&& a.total_cache_creation_tokens + b.total_cache_creation_tokens <= u64::MAX
    &&& a.total_cache_read_tokens + b.total_cache_read_tokens <= u64::MAX
    &&& a.thinking_blocks + b.thinking_blocks <= usize::MAX
    &&& a.thinking_tokens + b.thinking_tokens <= u64::MAX
    &&& a.compact_count + b.compact_count <= usize::MAX
    &&& a.turn_count + b.turn_count <= u64::MAX
    &&& forall|k: Seq<char>| #[trigger] b.model_tokens.contains_key(k) ==> tokens_sum_fits(tokens_in(a.model_tokens, k), b.model_tokens[k])
    &&& forall|k: Seq<char>| #[trigger] b.model_calls.contains_key(k) ==> count_in(a.model_calls, k) + b.model_calls[k] <= u32::MAX
    &&& forall|k: Seq<char>| #[trigger] b.tool_calls_by_name.contains_key(k) ==> count_in(a.tool_calls_by_name, k) + b.tool_calls_by_name[k] <= u32::MAX
}

/// `a` with `b` added in: every counter summed, per-model and per-tool
/// counts summed key by key; durations and histories are `a`'s.
pub open spec fn stats_merged(a: StatsV, b: StatsV) -> StatsV {
    StatsV {
        total_requests: (a.total_requests + b.total_requests) as usize,
        failed_requests: (a.failed_requests + b.failed_requests) as usize,
        total_tool_calls: (a.total_tool_calls + b.total_tool_calls) as usize,
        failed_tool_calls: (a.failed_tool_calls + b.failed_tool_calls) as usize,
        total_ttfb_nanos: (a.total_ttfb_nanos + b.total_ttfb_nanos) as u64,
        response_count: (a.response_count + b.response_count) as usize,
        total_input_tokens: (a.total_input_tokens + b.total_input_tokens) as u64,
        total_output_tokens: (a.total_output_tokens + b.total_output_tokens) as u64,
        total_cache_creation_tokens: (a.total_cache_creation_tokens + b.total_cache_creation_tokens) as u64,
        total_cache_read_tokens: (a.total_cache_read_tokens + b.total_cache_read_tokens) as u64,
        compact_count: (a.compact_count + b.compact_count) as usize,
        thinking_blocks: (a.thinking_blocks + b.thinking_blocks) as usize,
        thinking_tokens: (a.thinking_tokens + b.thinking_tokens) as u64,
        turn_count: (a.turn_count + b.turn_count) as u64,
        model_calls: merged_counts(a.model_calls, b.model_calls),
        model_tokens: merged_tokens(a.model_tokens, b.model_tokens),
        tool_calls_by_name: merged_counts(a.tool_calls_by_name, b.tool_calls_by_name),
        ..a
    }
}

/// Adds the counts of `b` into `a`, key by key.
fn merge_counts(a: &mut StrMap<u32>, b: &StrMap<u32>)
    requires
        forall|k: Seq<char>| #[trigger] b@.contains_key(k) ==> count_in(old(a)@, k) + b@[k] <= u32::MAX,
    ensures
        final(a)@ == merged_counts(old(a)@, b@),
{
    let ks = b.keys();
    let ghost a0 = a@;
    let mut i: usize = 0;
    while i < ks.len()
        invariant
            i <= ks.len(),
            forall|k: Seq<char>| #[trigger] b@.contains_key(k) ==> count_in(a0, k) + b@[k] <= u32::MAX,
            forall|j: int| 0 <= j < ks.len() ==> b@.contains_key(#[trigger] ks@[j]@),
            forall|k: Seq<char>| #[trigger] b@.contains_key(k) ==> exists|j: int| 0 <= j < ks.len() && ks@[j]@ == k,
            forall|x: int, y: int| 0 <= x < ks.len() && 0 <= y < ks.len() && x != y ==> #[trigger] ks@[x]@ != #[trigger] ks@[y]@,
            forall|k: Seq<char>| #[trigger] a@.contains_key(k) <==> (a0.contains_key(k) || exists|j: int| 0 <= j < i && ks@[j]@ == k),
            forall|k: Seq<char>| #[trigger] a@.contains_key(k) ==> a@[k] == if (exists|j: int| 0 <= j < i && ks@[j]@ == k) {
                (count_in(a0, k) + b@[k]) as u32
            } else {
                a0[k]
            },
        decreases ks.len() - i,
    {
        let k = &ks[i];
        let ghost kv = k@;
        assert(!(exists|j: int| 0 <= j < i && ks@[j]@ == kv));
        let cur = count_of(a, k.as_str());
        assert(cur == count_in(a0, kv));
        let add = count_of(b, k.as_str());
        a.insert(k.clone(), cur + add);
        i = i + 1;
    }
    assert(a@ =~= merged_counts(a0, b@)) by {
        assert forall|k: Seq<char>| a@.contains_key(k) <==> merged_counts(a0, b@).contains_key(k) by {
            if b@.contains_key(k) {
                let j = choose|j: int| 0 <= j < ks.len() && ks@[j]@ == k;
            }
        }
        assert forall|k: Seq<char>| #[trigger] a@.contains_key(k) implies a@[k] == merged_counts(a0, b@)[k] by {
            if b@.contains_key(k) {
                let j = choose|j: int| 0 <= j < ks.len() && ks@[j]@ == k;
            }
        }
    }
}

/// Adds the usages of `b` into `a`, model by model.
fn merge_tokens(a: &mut StrMap<ModelTokens>, b: &StrMap<ModelTokens>)
    requires
        forall|k: Seq<char>| #[trigger] b@.contains_key(k) ==> tokens_sum_fits(tokens_in(old(a)@, k), b@[k]),
    ensures
        final(a)@ == merged_tokens(old(a)@, b@),
{
    let ks = b.keys();
    let ghost a0 = a@;
    let mut i: usize = 0;
    while i < ks.len()
        invariant
            i <= ks.len(),
            forall|k: Seq<char>| #[trigger] b@.contains_key(k) ==> tokens_sum_fits(tokens_in(a0, k), b@[k]),
            forall|j: int| 0 <= j < ks.len() ==> b@.contains_key(#[trigger] ks@[j]@),
            forall|k: Seq<char>| #[trigger] b@.contains_key(k) ==> exists|j: int| 0 <= j < ks.len() && ks@[j]@ == k,
            forall|x: int, y: int| 0 <= x < ks.len() && 0 <= y < ks.len() && x != y ==> #[trigger] ks@[x]@ != #[trigger] ks@[y]@,
            forall|k: Seq<char>| #[trigger] a@.contains_key(k) <==> (a0.contains_key(k) || exists|j: int| 0 <= j < i && ks@[j]@ == k),
            forall|k: Seq<char>| #[trigger] a@.contains_key(k) ==> a@[k] == if (exists|j: int| 0 <= j < i && ks@[j]@ == k) {
                tokens_sum(tokens_in(a0, k), b@[k])
            } else {
                a0[k]
            },
        decreases ks.len() - i,
    {
        let k = &ks[i];
        let ghost kv = k@;
        assert(!(exists|j: int| 0 <= j < i && ks@[j]@ == kv));
        let t = tokens_of(a, k.as_str());
        assert(t == tokens_in(a0, kv));
        let u = tokens_of(b, k.as_str());
        let sum = ModelTokens {
            input: t.input + u.input,
            output: t.output + u.output,
            cache_read: t.cache_read + u.cache_read,
            cache_creation: t.cache_creation + u.cache_creation,
            calls: t.calls + u.calls,
        };
        a.insert(k.clone(), sum);
        i = i + 1;
    }
    assert(a@ =~= merged_tokens(a0, b@)) by {
        assert forall|k: Seq<char>| a@.contains_key(k) <==> merged_tokens(a0, b@).contains_key(k) by {
            if b@.contains_key(k) {
                let j = choose|j: int| 0 <= j < ks.len() && ks@[j]@ == k;
            }
        }
        assert forall|k: Seq<char>| #[trigger] a@.contains_key(k) implies a@[k] == merged_tokens(a0, b@)[k] by {
            if b@.contains_key(k) {
                let j = choose|j: int| 0 <= j < ks.len() && ks@[j]@ == k;
            }
        }
    }
}

impl Stats {
    /// Adds another session's statistics into this one (tool durations and
    /// histories are not merged).
    pub fn merge(&mut self, other: &Stats)
        requires
            merge_fits(old(self)@, other@),
        ensures
            final(self)@ == stats_merged(old(self)@, other@),
    {
        self.total_requests = self.total_requests + other.total_requests;
        self.failed_requests = self.failed_requests + other.failed_requests;
        self.total_tool_calls = self.total_tool_calls + other.total_tool_calls;
        self.failed_tool_calls = self.failed_tool_calls + other.failed_tool_calls;
        self.total_ttfb_nanos = self.total_ttfb_nanos + other.total_ttfb_nanos;
        self.response_count = self.response_count + other.response_count;
        self.total_input_tokens = self.total_input_tokens + other.total_input_tokens;
        self.total_output_tokens = self.total_output_tokens + other.total_output_tokens;
        self.total_cache_creation_tokens = self.total_cache_creation_tokens + other.total_cache_creation_tokens;
        self.total_cache_read_tokens = self.total_cache_read_tokens + other.total_cache_read_tokens;
        self.thinking_blocks = self.thinking_blocks + other.thinking_blocks;
        self.thinking_tokens = self.thinking_tokens + other.thinking_tokens;
        self.compact_count = self.compact_count + other.compact_count;
        self.turn_count = self.turn_count + other.turn_count;
        assert forall|k: Seq<char>| #[trigger] other.model_tokens@.contains_key(k) implies tokens_sum_fits(
            tokens_in(self.model_tokens@, k),
            other.model_tokens@[k],
        ) by {
            assert(other@.model_tokens.contains_key(k));
        }
        assert forall|k: Seq<char>| #[trigger] other.model_calls@.contains_key(k) implies count_in(self.model_calls@, k)
            + other.model_calls@[k] <= u32::MAX by {
            assert(other@.model_calls.contains_key(k));
        }
        assert forall|k: Seq<char>| #[trigger] other.tool_calls_by_name@.contains_key(k) implies count_in(
            self.tool_calls_by_name@,
            k,
        ) + other.tool_calls_by_name@[k] <= u32::MAX by {
            assert(other@.tool_calls_by_name.contains_key(k));
        }
        merge_tokens(&mut self.model_tokens, &other.model_tokens);
        merge_counts(&mut self.model_calls, &other.model_calls);
        merge_counts(&mut self.tool_calls_by_name, &other.tool_calls_by_name);
    }
}

/// Merging in empty statistics changes nothing.
pub proof fn lemma_merge_empty_is_identity(a: StatsV)
    ensures
        merge_fits(a, empty_stats()),
        stats_merged(a, empty_stats()) == a,
{
    assert(merged_counts(a.model_calls, Map::empty()) =~= a.model_calls);
    assert(merged_counts(a.tool_calls_by_name, Map::empty()) =~= a.tool_calls_by_name);
    assert(merged_tokens(a.model_tokens, Map::empty()) =~= a.model_tokens);
}

/// Merging adds the counters: merging `b` into `a` or `a` into `b` gives the
/// same counters and the same per-model and per-tool counts.
pub proof fn lemma_merge_counts_commute(a: StatsV, b: StatsV)
    ensures
        stats_merged(a, b).total_requests == stats_merged(b, a).total_requests,
        stats_merged(a, b).total_input_tokens == stats_merged(b, a).total_input_tokens,
        stats_merged(a, b).total_output_tokens == stats_merged(b, a).total_output_tokens,
        stats_merged(a, b).total_tool_calls == stats_merged(b, a).total_tool_calls,
        stats_merged(a, b).model_calls == stats_merged(b, a).model_calls,
        stats_merged(a, b).tool_calls_by_name == stats_merged(b, a).tool_calls_by_name,
        stats_merged(a, b).model_tokens == stats_merged(b, a).model_tokens,
{
    assert(merged_counts(a.model_calls, b.model_calls) =~= merged_counts(b.model_calls, a.model_calls));
    assert(merged_counts(a.tool_calls_by_name, b.tool_calls_by_name) =~= merged_counts(b.tool_calls_by_name, a.tool_calls_by_name));
    assert(merged_tokens(a.model_tokens, b.model_tokens) =~= merged_tokens(b.model_tokens, a.model_tokens));
}

} // verus!
