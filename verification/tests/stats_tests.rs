use aspy::stats::{StatEvent, Stats, HISTORY_LEN};

fn usage(model: &str, input: u32, output: u32, creation: u32, read: u32) -> StatEvent {
    StatEvent::ApiUsage {
        model: model.to_string(),
        input_tokens: input,
        output_tokens: output,
        cache_creation_tokens: creation,
        cache_read_tokens: read,
    }
}

#[test]
fn stats_count_requests_and_responses() {
    let mut s = Stats::default();
    s.update(&StatEvent::Request);
    s.update(&StatEvent::Request);
    s.update(&StatEvent::Response { status: 200, ttfb_nanos: 1_000 });
    s.update(&StatEvent::Response { status: 503, ttfb_nanos: 3_000 });
    assert_eq!(s.total_requests, 2);
    assert_eq!(s.failed_requests, 1);
    assert_eq!(s.response_count, 2);
    assert_eq!(s.total_ttfb_nanos, 4_000);
    assert_eq!(s.avg_ttfb_nanos(), 2_000);
    assert_eq!(Stats::new().avg_ttfb_nanos(), 0);
}

#[test]
fn stats_usage_goes_to_totals_and_model() {
    let mut s = Stats::new();
    s.update(&usage("opus", 100, 20, 5, 1000));
    s.update(&usage("opus", 50, 10, 0, 2000));
    s.update(&usage("haiku", 7, 3, 0, 0));
    assert_eq!(s.total_input_tokens, 157);
    assert_eq!(s.total_output_tokens, 33);
    assert_eq!(s.total_cache_creation_tokens, 5);
    assert_eq!(s.total_cache_read_tokens, 3000);
    assert_eq!(s.total_tokens(), 157 + 33 + 5 + 3000);
    let opus = s.model_tokens.get("opus").unwrap();
    assert_eq!(opus.input, 150);
    assert_eq!(opus.output, 30);
    assert_eq!(opus.cache_read, 3000);
    assert_eq!(opus.cache_creation, 5);
    assert_eq!(opus.calls, 2);
    assert_eq!(*s.model_calls.get("opus").unwrap(), 2);
    assert_eq!(*s.model_calls.get("haiku").unwrap(), 1);
    assert_eq!(s.token_history.len(), 3);
    assert_eq!(s.token_history[1].cached, 2000);
    let last_rate = s.cache_rate_history.last().unwrap();
    assert_eq!(last_rate.cache_read, 3000);
    assert_eq!(last_rate.input, 157);
}

#[test]
fn stats_tools_and_thinking() {
    let mut s = Stats::new();
    s.update(&StatEvent::ToolCall);
    s.update(&StatEvent::ToolCall);
    s.update(&StatEvent::ToolResult { tool_name: "Read".to_string(), success: true, duration_ms: 12 });
    s.update(&StatEvent::ToolResult { tool_name: "Read".to_string(), success: false, duration_ms: 30 });
    s.update(&StatEvent::Thinking { token_estimate: 40 });
    s.update(&StatEvent::ContextCompact);
    s.update(&StatEvent::Other);
    assert_eq!(s.total_tool_calls, 2);
    assert_eq!(s.failed_tool_calls, 1);
    assert_eq!(*s.tool_calls_by_name.get("Read").unwrap(), 2);
    assert_eq!(s.tool_durations_ms.get("Read").unwrap(), &vec![12, 30]);
    assert_eq!(s.tool_call_history, vec![1, 2]);
    assert_eq!(s.thinking_blocks, 1);
    assert_eq!(s.thinking_tokens, 40);
    assert_eq!(s.thinking_token_history, vec![40]);
    assert_eq!(s.compact_count, 1);
}

#[test]
fn stats_histories_keep_the_last_points() {
    let mut s = Stats::new();
    for i in 0..(HISTORY_LEN as u32 + 5) {
        s.update(&StatEvent::Thinking { token_estimate: i });
    }
    assert_eq!(s.thinking_token_history.len(), HISTORY_LEN);
    assert_eq!(s.thinking_token_history[0], 5);
    assert_eq!(*s.thinking_token_history.last().unwrap(), HISTORY_LEN as u64 + 4);
}

#[test]
fn stats_update_history_leaves_counters() {
    let mut s = Stats::new();
    s.total_tool_calls = 7;
    s.update_history(&StatEvent::ToolCall);
    assert_eq!(s.total_tool_calls, 7);
    assert_eq!(s.tool_call_history, vec![7]);
    s.update_history(&usage("m", 1, 2, 3, 4));
    assert_eq!(s.total_input_tokens, 0);
    assert_eq!(s.token_history.len(), 1);
}

#[test]
fn stats_merge_adds_everything() {
    let mut a = Stats::new();
    a.update(&StatEvent::Request);
    a.update(&usage("opus", 10, 1, 0, 0));
    let mut b = Stats::new();
    b.update(&StatEvent::Request);
    b.update(&StatEvent::Request);
    b.update(&usage("opus", 5, 2, 0, 0));
    b.update(&usage("sonnet", 1, 1, 0, 0));
    b.update(&StatEvent::ToolResult { tool_name: "Bash".to_string(), success: true, duration_ms: 1 });
    a.merge(&b);
    assert_eq!(a.total_requests, 3);
    assert_eq!(a.total_input_tokens, 16);
    assert_eq!(a.model_tokens.get("opus").unwrap().input, 15);
    assert_eq!(a.model_tokens.get("opus").unwrap().calls, 2);
    assert_eq!(*a.model_calls.get("sonnet").unwrap(), 1);
    assert_eq!(*a.tool_calls_by_name.get("Bash").unwrap(), 1);
    assert!(a.tool_durations_ms.get("Bash").is_none());
}

#[test]
fn stats_merge_with_empty_changes_nothing() {
    let mut a = Stats::new();
    a.update(&usage("opus", 10, 1, 2, 3));
    a.merge(&Stats::new());
    assert_eq!(a.total_input_tokens, 10);
    assert_eq!(a.model_tokens.get("opus").unwrap().calls, 1);
    assert_eq!(a.model_calls.len(), 1);
}
