use aspy::lifestats::{
    extract_todo_content_for_fts, is_user_rejection, plan_store, thinking_to_store, truncate_utf8_safe, LifestatsConfig,
    StoreEvent, StoreRow, writer_step, WriterAction, WriterEvent,
};
use aspy::telemetry::{plan_span, AttrValue, TelemetryEvent};

fn attrs(p: &aspy::telemetry::SpanPlan) -> Vec<(String, String)> {
    p.attributes
        .iter()
        .map(|(k, v)| {
            let s = match v {
                AttrValue::Str(s) => s.clone(),
                AttrValue::Int(i) => i.to_string(),
                AttrValue::Bool(b) => b.to_string(),
            };
            (k.clone(), s)
        })
        .collect()
}

#[test]
fn response_span_marks_http_errors() {
    let e = TelemetryEvent::Response {
        request_id: "r1".to_string(),
        status: 502,
        body_size: 10,
        ttfb_ms: 40,
        duration_ms: 90,
    };
    let p = plan_span(&e, Some("sess")).unwrap();
    assert_eq!(p.name, "api.response");
    assert!(p.server);
    assert_eq!(p.error.as_deref(), Some("HTTP 502"));
    let a = attrs(&p);
    assert_eq!(a[1], ("http.status_code".to_string(), "502".to_string()));
    assert_eq!(a.last().unwrap(), &("session.id".to_string(), "sess".to_string()));
    let ok = TelemetryEvent::Response { request_id: "r2".to_string(), status: 200, body_size: 1, ttfb_ms: 1, duration_ms: 2 };
    assert!(plan_span(&ok, None).unwrap().error.is_none());
}

#[test]
fn tool_spans_are_named_after_the_tool() {
    let call = TelemetryEvent::ToolCall { id: "t".to_string(), tool_name: "Read".to_string(), input_size: 17 };
    let p = plan_span(&call, None).unwrap();
    assert_eq!(p.name, "tool.Read");
    assert!(!p.server);
    assert_eq!(attrs(&p).len(), 3);
    let res = TelemetryEvent::ToolResult { id: "t".to_string(), tool_name: "Read".to_string(), duration_ms: 5, success: false };
    let q = plan_span(&res, Some("s")).unwrap();
    assert_eq!(q.name, "tool.Read.result");
    assert_eq!(q.error.as_deref(), Some("Tool execution failed"));
    assert_eq!(attrs(&q).len(), 4, "tool results carry no session attribute");
}

#[test]
fn usage_compact_and_transform_spans() {
    let u = TelemetryEvent::ApiUsage {
        model: "m".to_string(),
        input_tokens: 10,
        output_tokens: 5,
        cache_creation_tokens: 1,
        cache_read_tokens: 2,
    };
    let a = attrs(&plan_span(&u, None).unwrap());
    assert_eq!(a.last().unwrap(), &("tokens.total".to_string(), "15".to_string()));
    let c = TelemetryEvent::ContextCompact { previous_context: 150_000, new_context: 20_000 };
    let a = attrs(&plan_span(&c, Some("s")).unwrap());
    assert_eq!(a[2], ("context.reduction".to_string(), "130000".to_string()));
    assert_eq!(a.len(), 3);
    let t = TelemetryEvent::RequestTransformed {
        transformer: "tag-editor".to_string(),
        tokens_before: 100,
        tokens_after: 80,
        modifications: 2,
    };
    let a = attrs(&plan_span(&t, None).unwrap());
    assert_eq!(a[3], ("tokens.delta".to_string(), "-20".to_string()));
    let err = TelemetryEvent::Error { message: "boom".to_string(), context: Some("upstream".to_string()) };
    let p = plan_span(&err, None).unwrap();
    assert_eq!(p.error.as_deref(), Some("boom"));
    assert_eq!(attrs(&p)[1], ("error.context".to_string(), "upstream".to_string()));
    assert!(plan_span(&TelemetryEvent::Other, None).is_none());
}

#[test]
fn utf8_truncation_keeps_whole_characters() {
    assert_eq!(truncate_utf8_safe("héllo", 2), "h");
    assert_eq!(truncate_utf8_safe("héllo", 3), "hé");
    assert_eq!(truncate_utf8_safe("héllo", 100), "héllo");
    assert_eq!(truncate_utf8_safe("日本", 5), "日");
    assert_eq!(truncate_utf8_safe("", 0), "");
}

#[test]
fn long_thinking_is_cut_with_a_note() {
    assert_eq!(thinking_to_store("short", 10), "short");
    assert_eq!(thinking_to_store("abcdefghij", 4), "abcd... [truncated, 10 bytes total]");
}

#[test]
fn store_plan_follows_the_settings() {
    let mut cfg = LifestatsConfig::default();
    cfg.store_tool_io = false;
    cfg.store_thinking = false;
    let t = StoreEvent::Thinking { timestamp: "t0".to_string(), content: "x".to_string(), token_estimate: 1 };
    assert!(plan_store(t, &cfg).is_none());
    let r = StoreEvent::ToolResult {
        id: "c1".to_string(),
        timestamp: "t1".to_string(),
        output_json: "\"The user doesn't want to take this action right now\"".to_string(),
        duration_ms: 12,
        success: false,
    };
    match plan_store(r, &cfg) {
        Some(StoreRow::ToolResult { output_json, is_rejection, duration_ms, .. }) => {
            assert!(output_json.is_none());
            assert!(is_rejection);
            assert_eq!(duration_ms, 12);
        }
        _ => panic!("expected a tool result row"),
    }
    let todo = StoreEvent::TodoSnapshot {
        timestamp: "t2".to_string(),
        todos_json: r#"[{"content":"a"},{"content":"b"},{"status":"x"}]"#.to_string(),
        pending_count: 2,
        in_progress_count: 0,
        completed_count: 1,
    };
    match plan_store(todo, &LifestatsConfig::default()) {
        Some(StoreRow::Todo { fts_content, pending_count, .. }) => {
            assert_eq!(fts_content, "a. b");
            assert_eq!(pending_count, 2);
        }
        _ => panic!("expected a todo row"),
    }
    assert!(plan_store(StoreEvent::Other, &cfg).is_none());
}

#[test]
fn rejection_and_todo_text() {
    assert!(is_user_rejection("The tool use was rejected (eg. if it was a file edit, the new_string was NOT written to the file)"));
    assert!(!is_user_rejection("permission denied"));
    assert_eq!(extract_todo_content_for_fts("not json"), "not json");
    assert_eq!(extract_todo_content_for_fts("[]"), "");
}

fn action(flush: bool, run_cleanup: bool, reset_cleanup_clock: bool, stop: bool) -> WriterAction {
    WriterAction { flush, run_cleanup, reset_cleanup_clock, stop }
}

#[test]
fn writer_flushes_full_batches_and_on_shutdown() {
    let config = LifestatsConfig::default();
    assert_eq!(writer_step(WriterEvent::Stored { pending: 99 }, &config), action(false, false, false, false));
    assert_eq!(writer_step(WriterEvent::Stored { pending: 100 }, &config), action(true, false, false, false));
    assert_eq!(writer_step(WriterEvent::Shutdown { pending: 3 }, &config), action(true, false, false, true));
    assert_eq!(writer_step(WriterEvent::Shutdown { pending: 0 }, &config), action(false, false, false, true));
    assert_eq!(writer_step(WriterEvent::Disconnected { pending: 1 }, &config), action(true, false, false, true));
}

#[test]
fn writer_timeout_flushes_after_interval_and_cleans_daily() {
    let mut config = LifestatsConfig::default();
    let t = |pending, f, c| WriterEvent::Timeout { pending, since_flush_ms: f, since_cleanup_ms: c };
    assert_eq!(writer_step(t(5, 999, 0), &config), action(false, false, false, false));
    assert_eq!(writer_step(t(5, 1000, 0), &config), action(true, false, false, false));
    assert_eq!(writer_step(t(0, 5000, 0), &config), action(false, false, false, false));
    assert_eq!(writer_step(t(0, 0, 86_400_000), &config), action(false, true, true, false));
    config.retention_days = 0;
    assert_eq!(writer_step(t(0, 0, 86_400_000), &config), action(false, false, true, false));
    assert_eq!(writer_step(t(0, 0, 86_399_999), &config), action(false, false, false, false));
}
