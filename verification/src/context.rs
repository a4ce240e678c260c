//! Context window tracking: warning thresholds, the per-request context
//! breakdown, the difference between two breakdowns, and the detection of
//! context compaction from the cache token counts of successive API calls.

use vstd::prelude::*;

use crate::text::{contains_seq, contains_str, join, push_signed_decimal, push_str, join_strings, signed_decimal, views, owned};

verus! {

// ─────────────────────────────────────────────────────────────────────────────
// Context warnings
// ─────────────────────────────────────────────────────────────────────────────

/// The highest-placed threshold (scanning from the end of the list) that the
/// usage percentage has reached.
pub open spec fn crossed_threshold(ts: Seq<u8>, percent: u8) -> Option<u8>
    decreases ts.len(),
{
    if ts.len() == 0 {
        None
    } else if percent >= ts.last() {
        Some(ts.last())
    } else {
        crossed_threshold(ts.drop_last(), percent)
    }
}

/// The threshold to warn at: the crossed one, unless a warning at that level
/// or a higher one was already given.
pub open spec fn warning_for(last_warned: Option<u8>, ts: Seq<u8>, percent: u8) -> Option<u8> {
    match crossed_threshold(ts, percent) {
        None => None,
        Some(t) => match last_warned {
            Some(l) => if l >= t {
                None
            } else {
                Some(t)
            },
            None => Some(t),
        },
    }
}

/// Context usage of the current session and the warnings already given.
#[derive(Debug, Clone, Copy, PartialEq, Eq, Structural)]
pub struct ContextState {
    /// Context size of the last API call (input + cache creation + cache read).
    pub current_tokens: u64,
    /// Configured context limit.
    pub limit: u64,
    /// The last threshold warned at.
    pub last_warned_threshold: Option<u8>,
}

impl Default for ContextState {
    fn default() -> (r: Self)
        ensures
            r.current_tokens == 0,
            r.limit == 0,
            r.last_warned_threshold is None,
    {
        ContextState { current_tokens: 0, limit: 0, last_warned_threshold: None }
    }
}

impl ContextState {
    /// A state with the given limit, no tokens and no warning given.
    pub fn new(limit: u64) -> (r: Self)
        ensures
            r.current_tokens == 0,
            r.limit == limit,
            r.last_warned_threshold is None,
    {
        ContextState { current_tokens: 0, limit, last_warned_threshold: None }
    }

    /// The threshold to warn at for the usage `percent` (the whole part of
    /// the usage percentage), scanning `thresholds` from the end; none when
    /// no threshold is reached or a warning at that level or higher was
    /// already given.
    pub fn should_warn_at(&self, percent: u8, thresholds: &[u8]) -> (r: Option<u8>)
        ensures
            r == warning_for(self.last_warned_threshold, thresholds@, percent),
    {
        let mut i: usize = thresholds.len();
        assert(thresholds@.take(thresholds.len() as int) =~= thresholds@);
        while i > 0
            invariant
                i <= thresholds.len(),
                crossed_threshold(thresholds@, percent) == crossed_threshold(thresholds@.take(i as int), percent),
            decreases i,
        {
            let t = thresholds[i - 1];
            assert(thresholds@.take(i as int).drop_last() =~= thresholds@.take(i - 1));
            assert(thresholds@.take(i as int).last() == t);
            if percent >= t {
                return match self.last_warned_threshold {
                    Some(last) => if last >= t {
                        None
                    } else {
                        Some(t)
                    },
                    None => Some(t),
                };
            }
            i = i - 1;
        }
        assert(thresholds@.take(0) =~= Seq::<u8>::empty());
        None
    }

    /// `should_warn_at` with the default thresholds 60, 80, 85, 90, 95.
    pub fn should_warn(&self, percent: u8) -> (r: Option<u8>)
        ensures
            r == warning_for(self.last_warned_threshold, crate::settings::default_thresholds(), percent),
    {
        let ts = crate::settings::default_warning_thresholds();
        self.should_warn_at(percent, ts.as_slice())
    }

    /// Records the context size of an API call.
    pub fn update(&mut self, input_tokens: u64, cache_creation_tokens: u64, cache_read_tokens: u64)
        requires
            input_tokens + cache_creation_tokens + cache_read_tokens <= u64::MAX,
        ensures
            final(self).current_tokens == input_tokens + cache_creation_tokens + cache_read_tokens,
            final(self).limit == old(self).limit,
            final(self).last_warned_threshold == old(self).last_warned_threshold,
    {
        self.current_tokens = input_tokens + cache_creation_tokens + cache_read_tokens;
    }

    /// Records that a warning at `threshold` was given.
    pub fn mark_warned(&mut self, threshold: u8)
        ensures
            *final(self) == (ContextState { last_warned_threshold: Some(threshold), ..*old(self) }),
    {
        self.last_warned_threshold = Some(threshold);
    }

    /// Forgets the warnings given (after a compaction).
    pub fn reset_warnings(&mut self)
        ensures
            *final(self) == (ContextState { last_warned_threshold: None, ..*old(self) }),
    {
        self.last_warned_threshold = None;
    }
}

/// Once a warning at the threshold that `should_warn_at` returned has been
/// recorded, the same usage no longer warns: no warning is repeated.
pub proof fn lemma_warning_not_repeated(s: ContextState, ts: Seq<u8>, percent: u8, t: u8)
    requires
        warning_for(s.last_warned_threshold, ts, percent) == Some(t),
    ensures
        warning_for(Some(t), ts, percent) is None,
{
}

/// After the warnings are reset, the usage warns at the threshold it has
/// crossed, whatever was warned before.
pub proof fn lemma_reset_warns_again(ts: Seq<u8>, percent: u8)
    ensures
        warning_for(None, ts, percent) == crossed_threshold(ts, percent),
{
}

/// A crossed threshold is one of the thresholds and is reached by the usage.
pub proof fn lemma_crossed_is_reached(ts: Seq<u8>, percent: u8)
    ensures
        crossed_threshold(ts, percent) matches Some(t) ==> ts.contains(t) && t <= percent,
        crossed_threshold(ts, percent) is None ==> forall|i: int| 0 <= i < ts.len() ==> ts[i] > percent,
    decreases ts.len(),
{
    if ts.len() > 0 {
        lemma_crossed_is_reached(ts.drop_last(), percent);
        if percent >= ts.last() {
            assert(ts[ts.len() - 1] == ts.last());
        } else {
            if let Some(t) = crossed_threshold(ts.drop_last(), percent) {
                let k = choose|k: int| 0 <= k < ts.drop_last().len() && ts.drop_last()[k] == t;
                assert(ts[k] == t);
            }
            assert forall|i: int| 0 <= i < ts.len() && crossed_threshold(ts, percent) is None implies ts[i] > percent by {
                if i < ts.len() - 1 {
                    assert(ts[i] == ts.drop_last()[i]);
                }
            }
        }
    }
}

/// The crossed threshold is the last one in the list that the usage
/// reaches: every threshold after it is above the usage.
pub proof fn lemma_crossed_is_last_reached(ts: Seq<u8>, percent: u8)
    ensures
        crossed_threshold(ts, percent) matches Some(t) ==> exists|i: int|
            0 <= i < ts.len() && ts[i] == t && t <= percent && forall|j: int| i < j < ts.len() ==> ts[j] > percent,
    decreases ts.len(),
{
    if ts.len() > 0 {
        if percent >= ts.last() {
            assert(ts[ts.len() - 1] == ts.last());
        } else {
            lemma_crossed_is_last_reached(ts.drop_last(), percent);
            if let Some(t) = crossed_threshold(ts.drop_last(), percent) {
                let i = choose|i: int|
                    0 <= i < ts.drop_last().len() && ts.drop_last()[i] == t && t <= percent && forall|j: int|
                        i < j < ts.drop_last().len() ==> ts.drop_last()[j] > percent;
                assert(ts[i] == t);
                assert forall|j: int| i < j < ts.len() implies ts[j] > percent by {
                    if j < ts.len() - 1 {
                        assert(ts[j] == ts.drop_last()[j]);
                    }
                }
            }
        }
    }
}

/// With thresholds in increasing order, the crossed threshold is the
/// highest one the usage reaches: every threshold reached is at most it.
pub proof fn lemma_crossed_is_highest(ts: Seq<u8>, percent: u8)
    requires
        forall|i: int, j: int| 0 <= i < j < ts.len() ==> ts[i] <= ts[j],
    ensures
        crossed_threshold(ts, percent) matches Some(t) ==> forall|i: int| 0 <= i < ts.len() && ts[i] <= percent ==> ts[i] <= t,
{
    lemma_crossed_is_last_reached(ts, percent);
    if let Some(t) = crossed_threshold(ts, percent) {
        let k = choose|k: int|
            0 <= k < ts.len() && ts[k] == t && t <= percent && forall|j: int| k < j < ts.len() ==> ts[j] > percent;
        assert forall|i: int| 0 <= i < ts.len() && ts[i] <= percent implies ts[i] <= t by {
            if i > k {
                assert(ts[i] > percent);
            } else if i < k {
                assert(ts[i] <= ts[k]);
            }
        }
    }
}

/// A fresh warning state warns at the highest threshold the usage
/// reaches; after a warning at `last`, it warns at that highest threshold
/// exactly when it is above `last`.
pub proof fn lemma_warns_at_highest(last: Option<u8>, ts: Seq<u8>, percent: u8)
    requires
        forall|i: int, j: int| 0 <= i < j < ts.len() ==> ts[i] <= ts[j],
    ensures
        warning_for(last, ts, percent) matches Some(t) ==> (t <= percent && ts.contains(t) && forall|i: int|
            0 <= i < ts.len() && ts[i] <= percent ==> ts[i] <= t) && match last {
            Some(l) => t > l,
            None => true,
        },
        (exists|i: int| 0 <= i < ts.len() && ts[i] <= percent && match last {
            Some(l) => ts[i] > l,
            None => true,
        }) ==> warning_for(last, ts, percent) is Some,
{
    lemma_crossed_is_highest(ts, percent);
    lemma_crossed_is_reached(ts, percent);
    if exists|i: int| 0 <= i < ts.len() && ts[i] <= percent && match last {
        Some(l) => ts[i] > l,
        None => true,
    } {
        let i = choose|i: int| 0 <= i < ts.len() && ts[i] <= percent && match last {
            Some(l) => ts[i] > l,
            None => true,
        };
        assert(crossed_threshold(ts, percent) is Some);
    }
}

// ─────────────────────────────────────────────────────────────────────────────
// Rate limit headers
// ─────────────────────────────────────────────────────────────────────────────

/// HTTP headers captured from a request and its response.
#[derive(Debug, Clone)]
pub struct CapturedHeaders {
    pub anthropic_version: Option<String>,
    pub anthropic_beta: Vec<String>,
    pub api_key_hash: Option<String>,
    pub request_id: Option<String>,
    pub organization_id: Option<String>,
    pub requests_limit: Option<u32>,
    pub requests_remaining: Option<u32>,
    pub requests_reset: Option<String>,
    pub tokens_limit: Option<u32>,
    pub tokens_remaining: Option<u32>,
    pub tokens_reset: Option<String>,
}

impl CapturedHeaders {
    /// No header captured.
    pub fn new() -> (r: Self)
        ensures
            r.anthropic_version is None,
            r.anthropic_beta@.len() == 0,
            r.api_key_hash is None,
            r.request_id is None,
            r.organization_id is None,
            r.requests_limit is None,
            r.requests_remaining is None,
            r.requests_reset is None,
            r.tokens_limit is None,
            r.tokens_remaining is None,
            r.tokens_reset is None,
    {
        CapturedHeaders {
            anthropic_version: None,
            anthropic_beta: Vec::new(),
            api_key_hash: None,
            request_id: None,
            organization_id: None,
            requests_limit: None,
            requests_remaining: None,
            requests_reset: None,
            tokens_limit: None,
            tokens_remaining: None,
            tokens_reset: None,
        }
    }

    /// Whether a request or token limit was captured.
    pub fn has_rate_limits(&self) -> (r: bool)
        ensures
            r == (self.requests_limit is Some || self.tokens_limit is Some),
    {
        self.requests_limit.is_some() || self.tokens_limit.is_some()
    }
}

// ─────────────────────────────────────────────────────────────────────────────
// Context snapshots
// ─────────────────────────────────────────────────────────────────────────────

/// What the context of one request is made of.
#[derive(Debug, Clone, Copy, PartialEq, Eq, Structural)]
pub struct ContextSnapshot {
    pub message_count: u32,
    pub tool_result_count: u32,
    pub tool_result_chars: u64,
    pub tool_use_count: u32,
    pub tool_use_chars: u64,
    pub thinking_chars: u64,
    pub text_chars: u64,
    pub system_chars: u64,
}

impl Default for ContextSnapshot {
    fn default() -> (r: Self)
        ensures
            r == empty_snapshot(),
    {
        ContextSnapshot {
            message_count: 0,
            tool_result_count: 0,
            tool_result_chars: 0,
            tool_use_count: 0,
            tool_use_chars: 0,
            thinking_chars: 0,
            text_chars: 0,
            system_chars: 0,
        }
    }
}

/// The snapshot of an empty context.
pub open spec fn empty_snapshot() -> ContextSnapshot {
    ContextSnapshot {
        message_count: 0,
        tool_result_count: 0,
        tool_result_chars: 0,
        tool_use_count: 0,
        tool_use_chars: 0,
        thinking_chars: 0,
        text_chars: 0,
        system_chars: 0,
    }
}

/// Signed difference between two snapshots.
#[derive(Debug, Clone, Copy, PartialEq, Eq, Structural)]
pub struct ContextSnapshotDiff {
    pub message_count: i32,
    pub tool_result_count: i32,
    pub tool_result_chars: i64,
    pub tool_use_count: i32,
    pub tool_use_chars: i64,
    pub thinking_chars: i64,
    pub text_chars: i64,
    pub system_chars: i64,
}

impl Default for ContextSnapshotDiff {
    fn default() -> (r: Self)
        ensures
            r == (ContextSnapshotDiff {
                message_count: 0,
                tool_result_count: 0,
                tool_result_chars: 0,
                tool_use_count: 0,
                tool_use_chars: 0,
                thinking_chars: 0,
                text_chars: 0,
                system_chars: 0,
            }),
    {
        ContextSnapshotDiff {
            message_count: 0,
            tool_result_count: 0,
            tool_result_chars: 0,
            tool_use_count: 0,
            tool_use_chars: 0,
            thinking_chars: 0,
            text_chars: 0,
            system_chars: 0,
        }
    }
}

/// A count difference as computed on the counts reinterpreted as signed.
pub open spec fn count_delta(a: u32, b: u32) -> int {
    (a as i32) - (b as i32)
}

/// A size difference as computed on the sizes reinterpreted as signed.
pub open spec fn size_delta(a: u64, b: u64) -> int {
    (a as i64) - (b as i64)
}

/// Whether every difference of `cur - prev` fits its signed type.
pub open spec fn diff_fits(cur: ContextSnapshot, prev: ContextSnapshot) -> bool {
    &&& i32::MIN <= count_delta(cur.message_count, prev.message_count) <= i32::MAX
    &&& i32::MIN <= count_delta(cur.tool_result_count, prev.tool_result_count) <= i32::MAX
    &&& i32::MIN <= count_delta(cur.tool_use_count, prev.tool_use_count) <= i32::MAX
    &&& i64::MIN <= size_delta(cur.tool_result_chars, prev.tool_result_chars) <= i64::MAX
    &&& i64::MIN <= size_delta(cur.tool_use_chars, prev.tool_use_chars) <= i64::MAX
    &&& i64::MIN <= size_delta(cur.thinking_chars, prev.thinking_chars) <= i64::MAX
    &&& i64::MIN <= size_delta(cur.text_chars, prev.text_chars) <= i64::MAX
    &&& i64::MIN <= size_delta(cur.system_chars, prev.system_chars) <= i64::MAX
}

/// The difference `cur - prev`, field by field.
pub open spec fn snapshot_diff(cur: ContextSnapshot, prev: ContextSnapshot) -> ContextSnapshotDiff {
    ContextSnapshotDiff {
        message_count: count_delta(cur.message_count, prev.message_count) as i32,
        tool_result_count: count_delta(cur.tool_result_count, prev.tool_result_count) as i32,
        tool_result_chars: size_delta(cur.tool_result_chars, prev.tool_result_chars) as i64,
        tool_use_count: count_delta(cur.tool_use_count, prev.tool_use_count) as i32,
        tool_use_chars: size_delta(cur.tool_use_chars, prev.tool_use_chars) as i64,
        thinking_chars: size_delta(cur.thinking_chars, prev.thinking_chars) as i64,
        text_chars: size_delta(cur.text_chars, prev.text_chars) as i64,
        system_chars: size_delta(cur.system_chars, prev.system_chars) as i64,
    }
}

/// The total of the character sizes of a snapshot.
pub open spec fn snapshot_total(s: ContextSnapshot) -> int {
    s.tool_result_chars + s.tool_use_chars + s.thinking_chars + s.text_chars + s.system_chars
}

impl ContextSnapshot {
    /// The difference `self - previous`, each field taken as signed.
    pub fn diff(&self, previous: &Self) -> (r: ContextSnapshotDiff)
        requires
            diff_fits(*self, *previous),
        ensures
            r == snapshot_diff(*self, *previous),
    {
        ContextSnapshotDiff {
            message_count: self.message_count as i32 - previous.message_count as i32,
            tool_result_count: self.tool_result_count as i32 - previous.tool_result_count as i32,
            tool_result_chars: self.tool_result_chars as i64 - previous.tool_result_chars as i64,
            tool_use_count: self.tool_use_count as i32 - previous.tool_use_count as i32,
            tool_use_chars: self.tool_use_chars as i64 - previous.tool_use_chars as i64,
            thinking_chars: self.thinking_chars as i64 - previous.thinking_chars as i64,
            text_chars: self.text_chars as i64 - previous.text_chars as i64,
            system_chars: self.system_chars as i64 - previous.system_chars as i64,
        }
    }

    /// Total content size in characters.
    pub fn total_chars(&self) -> (r: u64)
        requires
            snapshot_total(*self) <= u64::MAX,
        ensures
            r == snapshot_total(*self),
    {
        self.tool_result_chars + self.tool_use_chars + self.thinking_chars + self.text_chars
            + self.system_chars
    }
}

/// A snapshot compared with itself shows no change.
pub proof fn lemma_diff_self_is_zero(s: ContextSnapshot)
    ensures
        diff_fits(s, s),
        snapshot_diff(s, s) == (ContextSnapshotDiff {
            message_count: 0,
            tool_result_count: 0,
            tool_result_chars: 0,
            tool_use_count: 0,
            tool_use_chars: 0,
            thinking_chars: 0,
            text_chars: 0,
            system_chars: 0,
        }),
{
}

/// The character differences add up to the difference of the totals (for
/// sizes that are still non-negative when read as signed).
pub proof fn lemma_diff_chars_sum_to_totals(a: ContextSnapshot, b: ContextSnapshot)
    requires
        diff_fits(a, b),
        a.tool_result_chars <= i64::MAX && a.tool_use_chars <= i64::MAX && a.thinking_chars <= i64::MAX
            && a.text_chars <= i64::MAX && a.system_chars <= i64::MAX,
        b.tool_result_chars <= i64::MAX && b.tool_use_chars <= i64::MAX && b.thinking_chars <= i64::MAX
            && b.text_chars <= i64::MAX && b.system_chars <= i64::MAX,
    ensures
        ({
            let d = snapshot_diff(a, b);
            d.tool_result_chars + d.tool_use_chars + d.thinking_chars + d.text_chars + d.system_chars
                == snapshot_total(a) - snapshot_total(b)
        }),
{
}

/// Swapping the snapshots negates every difference.
pub proof fn lemma_diff_antisymmetric(a: ContextSnapshot, b: ContextSnapshot)
    requires
        diff_fits(a, b),
        diff_fits(b, a),
    ensures
        snapshot_diff(a, b).message_count == -snapshot_diff(b, a).message_count,
        snapshot_diff(a, b).tool_result_count == -snapshot_diff(b, a).tool_result_count,
        snapshot_diff(a, b).tool_result_chars == -snapshot_diff(b, a).tool_result_chars,
        snapshot_diff(a, b).tool_use_count == -snapshot_diff(b, a).tool_use_count,
        snapshot_diff(a, b).tool_use_chars == -snapshot_diff(b, a).tool_use_chars,
        snapshot_diff(a, b).thinking_chars == -snapshot_diff(b, a).thinking_chars,
        snapshot_diff(a, b).text_chars == -snapshot_diff(b, a).text_chars,
        snapshot_diff(a, b).system_chars == -snapshot_diff(b, a).system_chars,
{
}

/// The five reduction categories with their reductions (negated growth),
/// in the order in which they are compared.
pub open spec fn reductions(d: ContextSnapshotDiff) -> Seq<(Seq<char>, int)> {
    seq![
        ("tool_results"@, -d.tool_result_chars),
        ("tool_inputs"@, -d.tool_use_chars),
        ("thinking"@, -d.thinking_chars),
        ("text"@, -d.text_chars),
        ("system"@, -d.system_chars),
    ]
}

/// The positive entry with the largest value; among equal largest values,
/// the last one.
pub open spec fn largest_positive(rs: Seq<(Seq<char>, int)>) -> Option<(Seq<char>, int)>
    decreases rs.len(),
{
    if rs.len() == 0 {
        None
    } else {
        let best = largest_positive(rs.drop_last());
        let x = rs.last();
        match best {
            None => if x.1 > 0 {
                Some(x)
            } else {
                best
            },
            Some(b) => if x.1 > 0 && x.1 >= b.1 {
                Some(x)
            } else {
                best
            },
        }
    }
}

/// Whether no character size of the diff is `i64::MIN` (so each can be negated).
pub open spec fn negatable(d: ContextSnapshotDiff) -> bool {
    &&& d.tool_result_chars != i64::MIN
    &&& d.tool_use_chars != i64::MIN
    &&& d.thinking_chars != i64::MIN
    &&& d.text_chars != i64::MIN
    &&& d.system_chars != i64::MIN
}

/// One part of the summary: `{label}: {value:+} chars`.
pub open spec fn summary_part(label: Seq<char>, v: int) -> Seq<char> {
    label + ": "@ + signed_decimal(v) + " chars"@
}

/// The summary parts, for the sizes that changed, in summary order.
pub open spec fn summary_parts(d: ContextSnapshotDiff) -> Seq<Seq<char>> {
    let p1: Seq<Seq<char>> = if d.tool_result_chars != 0 {
        seq![summary_part("tool_results"@, d.tool_result_chars as int)]
    } else {
        seq![]
    };
    let p2 = if d.thinking_chars != 0 {
        p1.push(summary_part("thinking"@, d.thinking_chars as int))
    } else {
        p1
    };
    let p3 = if d.text_chars != 0 {
        p2.push(summary_part("text"@, d.text_chars as int))
    } else {
        p2
    };
    if d.tool_use_chars != 0 {
        p3.push(summary_part("tool_inputs"@, d.tool_use_chars as int))
    } else {
        p3
    }
}

/// The human-readable summary of a diff.
pub open spec fn summary_text(d: ContextSnapshotDiff) -> Seq<char> {
    if summary_parts(d).len() == 0 {
        "no significant changes"@
    } else {
        join(summary_parts(d), ", "@)
    }
}

fn summary_piece(label: &str, v: i64) -> (r: String)
    ensures
        r@ == summary_part(label@, v as int),
{
    let mut s = owned(label);
    push_str(&mut s, ": ");
    push_signed_decimal(&mut s, v);
    push_str(&mut s, " chars");
    s
}

impl ContextSnapshotDiff {
    /// The category that was reduced most (with the amount), among those that
    /// shrank; on a tie the later category in the order tool_results,
    /// tool_inputs, thinking, text, system.
    pub fn primary_reduction(&self) -> (r: Option<(&'static str, i64)>)
        requires
            negatable(*self),
        ensures
            match r {
                Some((name, v)) => largest_positive(reductions(*self)) == Some((name@, v as int)),
                None => largest_positive(reductions(*self)) is None,
            },
    {
        let ghost rs = reductions(*self);
        proof {
            reveal_with_fuel(largest_positive, 6);
            assert(rs.drop_last().drop_last().drop_last().drop_last().drop_last() =~= Seq::<(Seq<char>, int)>::empty());
            assert(rs.drop_last().drop_last().drop_last().drop_last() =~= seq![rs[0]]);
            assert(rs.drop_last().drop_last().drop_last() =~= seq![rs[0], rs[1]]);
            assert(rs.drop_last().drop_last() =~= seq![rs[0], rs[1], rs[2]]);
            assert(rs.drop_last() =~= seq![rs[0], rs[1], rs[2], rs[3]]);
        }
        let mut best: Option<(&'static str, i64)> = None;
        let v0 = -self.tool_result_chars;
        if v0 > 0 {
            best = Some(("tool_results", v0));
        }
        let v1 = -self.tool_use_chars;
        if v1 > 0 {
            match best {
                Some((_, b)) => if v1 >= b {
                    best = Some(("tool_inputs", v1));
                },
                None => best = Some(("tool_inputs", v1)),
            }
        }
        let v2 = -self.thinking_chars;
        if v2 > 0 {
            match best {
                Some((_, b)) => if v2 >= b {
                    best = Some(("thinking", v2));
                },
                None => best = Some(("thinking", v2)),
            }
        }
        let v3 = -self.text_chars;
        if v3 > 0 {
            match best {
                Some((_, b)) => if v3 >= b {
                    best = Some(("text", v3));
                },
                None => best = Some(("text", v3)),
            }
        }
        let v4 = -self.system_chars;
        if v4 > 0 {
            match best {
                Some((_, b)) => if v4 >= b {
                    best = Some(("system", v4));
                },
                None => best = Some(("system", v4)),
            }
        }
        best
    }

    /// A human-readable summary: the changed sizes among tool results,
    /// thinking, text and tool inputs as `name: {+n} chars`, joined by ", ";
    /// "no significant changes" when none changed.
    pub fn summary(&self) -> (r: String)
        ensures
            r@ == summary_text(*self),
    {
        let mut parts: Vec<String> = Vec::new();
        if self.tool_result_chars != 0 {
            parts.push(summary_piece("tool_results", self.tool_result_chars));
        }
        if self.thinking_chars != 0 {
            parts.push(summary_piece("thinking", self.thinking_chars));
        }
        if self.text_chars != 0 {
            parts.push(summary_piece("text", self.text_chars));
        }
        if self.tool_use_chars != 0 {
            parts.push(summary_piece("tool_inputs", self.tool_use_chars));
        }
        assert(views(parts@) =~= summary_parts(*self));
        if parts.len() == 0 {
            owned("no significant changes")
        } else {
            join_strings(&parts, ", ")
        }
    }
}

// ─────────────────────────────────────────────────────────────────────────────
// Compaction detection
// ─────────────────────────────────────────────────────────────────────────────

/// Per-user state of compaction detection.
#[derive(Debug, Clone, Copy, PartialEq, Eq, Structural)]
pub struct CompactDetectionState {
    /// Total cache tokens (read + creation) of the last call that had cache.
    pub last_cached_tokens: u64,
    /// Context size of that call.
    pub last_context_tokens: u64,
    /// Snapshot of the previous request.
    pub last_snapshot: Option<ContextSnapshot>,
    /// Snapshot of the current request.
    pub pending_snapshot: Option<ContextSnapshot>,
}

/// A detected compaction.
#[derive(Debug, Clone, Copy, PartialEq, Eq, Structural)]
pub struct CompactDetection {
    /// Context size before the compaction.
    pub previous_context: u64,
    /// Context size of the call that revealed it.
    pub new_context: u64,
    /// What changed between the two requests, when both snapshots are known.
    pub breakdown: Option<ContextSnapshotDiff>,
}

/// Whether the cache total dropped enough to be a compaction: the previous
/// total was above 10,000, the new one is not zero, and it fell by more than
/// 30,000 tokens or below 70% of the previous total.
pub open spec fn significant_drop(prev_cache: u64, total_cache: int) -> bool {
    &&& prev_cache > 10_000
    &&& total_cache > 0
    &&& (total_cache < (if prev_cache >= 30_000 { prev_cache - 30_000 } else { 0 })
        || total_cache < (prev_cache * 70) / 100)
}

/// Whether a call with this cache total can be checked without overflow:
/// the 70% bound is computable when it is needed, and the breakdown that a
/// compaction would report can be computed.
pub open spec fn check_defined(s: CompactDetectionState, total_cache: int) -> bool {
    &&& (s.last_cached_tokens > 10_000 && total_cache > 0
        && !(total_cache < (if s.last_cached_tokens >= 30_000 { s.last_cached_tokens - 30_000 } else { 0 })))
        ==> s.last_cached_tokens * 70 <= u64::MAX
    &&& significant_drop(s.last_cached_tokens, total_cache) ==> match (s.last_snapshot, s.pending_snapshot) {
        (Some(prev), Some(cur)) => diff_fits(cur, prev),
        _ => true,
    }
}

impl CompactDetectionState {
    /// No call seen yet.
    pub fn new() -> (r: Self)
        ensures
            r.last_cached_tokens == 0,
            r.last_context_tokens == 0,
            r.last_snapshot is None,
            r.pending_snapshot is None,
    {
        CompactDetectionState { last_cached_tokens: 0, last_context_tokens: 0, last_snapshot: None, pending_snapshot: None }
    }

    /// What a call of `check` returns (see there).
    pub open spec fn detection(self, model: Seq<char>, input_tokens: u32, cache_read_tokens: u32, cache_creation_tokens: u32) -> Option<CompactDetection> {
        let total = cache_read_tokens + cache_creation_tokens;
        if contains_seq(model, "haiku"@) || !significant_drop(self.last_cached_tokens, total) {
            None
        } else {
            Some(CompactDetection {
                previous_context: self.last_context_tokens,
                new_context: (input_tokens + total) as u64,
                breakdown: match (self.last_snapshot, self.pending_snapshot) {
                    (Some(prev), Some(cur)) => Some(snapshot_diff(cur, prev)),
                    _ => None,
                },
            })
        }
    }

    /// The state after a call of `check` (see there).
    pub open spec fn after_check(self, model: Seq<char>, input_tokens: u32, cache_read_tokens: u32, cache_creation_tokens: u32) -> CompactDetectionState {
        let total = cache_read_tokens + cache_creation_tokens;
        if contains_seq(model, "haiku"@) {
            self
        } else if total > 0 {
            CompactDetectionState {
                last_cached_tokens: total as u64,
                last_context_tokens: (input_tokens + total) as u64,
                last_snapshot: if self.pending_snapshot is Some {
                    self.pending_snapshot
                } else {
                    self.last_snapshot
                },
                pending_snapshot: if self.pending_snapshot is Some {
                    None
                } else {
                    self.pending_snapshot
                },
            }
        } else {
            self
        }
    }

    /// Stores the snapshot of the current request for the next check.
    pub fn store_snapshot(&mut self, snapshot: ContextSnapshot)
        ensures
            *final(self) == (CompactDetectionState { pending_snapshot: Some(snapshot), ..*old(self) }),
    {
        self.pending_snapshot = Some(snapshot);
    }

    /// The most recent snapshot: the current request's, else the previous one.
    pub fn current_snapshot(&self) -> (r: Option<ContextSnapshot>)
        ensures
            r == if self.pending_snapshot is Some {
                self.pending_snapshot
            } else {
                self.last_snapshot
            },
    {
        match self.pending_snapshot {
            Some(s) => Some(s),
            None => self.last_snapshot,
        }
    }

    /// Checks an API call for a context compaction. Haiku models (the
    /// dispatcher) are ignored. A compaction is reported when the cache
    /// total (read + creation) dropped significantly; then the breakdown is
    /// the difference between the current and the previous request's
    /// snapshots when both are known. A call with cache becomes the new
    /// reference, and the current snapshot becomes the previous one.
    pub fn check(&mut self, model: &str, input_tokens: u32, cache_read_tokens: u32, cache_creation_tokens: u32) -> (r: Option<CompactDetection>)
        requires
            check_defined(*old(self), cache_read_tokens + cache_creation_tokens),
        ensures
            r == old(self).detection(model@, input_tokens, cache_read_tokens, cache_creation_tokens),
            *final(self) == old(self).after_check(model@, input_tokens, cache_read_tokens, cache_creation_tokens),
    {
        proof {
            reveal_strlit("haiku");
        }
        if contains_str(model, "haiku") {
            return None;
        }
        let total_cache: u64 = cache_read_tokens as u64 + cache_creation_tokens as u64;
        let current_context: u64 = input_tokens as u64 + total_cache;
        let prev_cache = self.last_cached_tokens;
        let significant = prev_cache > 10_000 && total_cache > 0 && (total_cache
            < prev_cache.saturating_sub(30_000) || total_cache < prev_cache * 70 / 100);
        let detection = if significant {
            let breakdown = match (self.last_snapshot, self.pending_snapshot) {
                (Some(prev), Some(cur)) => Some(cur.diff(&prev)),
                _ => None,
            };
            Some(CompactDetection { previous_context: self.last_context_tokens, new_context: current_context, breakdown })
        } else {
            None
        };
        if total_cache > 0 {
            self.last_cached_tokens = total_cache;
            self.last_context_tokens = current_context;
            if self.pending_snapshot.is_some() {
                self.last_snapshot = self.pending_snapshot;
                self.pending_snapshot = None;
            }
        } else if detection.is_some() {
            self.last_cached_tokens = 0;
            self.last_context_tokens = current_context;
            self.last_snapshot = self.pending_snapshot;
            self.pending_snapshot = None;
        }
        detection
    }
}

/// Calls of a Haiku model neither report a compaction nor change the state.
pub proof fn lemma_haiku_ignored(s: CompactDetectionState, model: Seq<char>, i: u32, cr: u32, cc: u32)
    requires
        contains_seq(model, "haiku"@),
    ensures
        s.detection(model, i, cr, cc) is None,
        s.after_check(model, i, cr, cc) == s,
{
}

/// A call without cache (a fresh session) never reports a compaction.
pub proof fn lemma_no_cache_no_compaction(s: CompactDetectionState, model: Seq<char>, i: u32)
    ensures
        s.detection(model, i, 0, 0) is None,
{
}

/// Without a previous cache total above 10,000 tokens no compaction is
/// reported, whatever the call.
pub proof fn lemma_small_cache_no_compaction(s: CompactDetectionState, model: Seq<char>, i: u32, cr: u32, cc: u32)
    requires
        s.last_cached_tokens <= 10_000,
    ensures
        s.detection(model, i, cr, cc) is None,
{
}

/// A reported compaction is a real drop: the new cache total is smaller than
/// the previous one.
pub proof fn lemma_compaction_is_a_drop(s: CompactDetectionState, model: Seq<char>, i: u32, cr: u32, cc: u32)
    requires
        s.detection(model, i, cr, cc) is Some,
    ensures
        cr + cc < s.last_cached_tokens,
        cr + cc > 0,
{
}

/// After a non-Haiku call with cache, the state remembers that call: the same
/// call repeated reports no compaction.
pub proof fn lemma_repeat_call_is_stable(s: CompactDetectionState, model: Seq<char>, i: u32, cr: u32, cc: u32)
    requires
        !contains_seq(model, "haiku"@),
        cr + cc > 0,
    ensures
        s.after_check(model, i, cr, cc).detection(model, i, cr, cc) is None,
        s.after_check(model, i, cr, cc).last_cached_tokens == cr + cc,
{
}

} // verus!
