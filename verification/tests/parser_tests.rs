use aspy::context::ContextSnapshot;
use aspy::parser::{ApiRequest, ApiResponse, ContentBlock, Message, MessageContent, ParsedEvent, Parser, Usage};

fn request(messages: Vec<Message>) -> ApiRequest {
    ApiRequest {
        model: "opus-4".to_string(),
        messages,
        system_json: Some("\"be brief\"".to_string()),
        top_k: None,
        stop_sequences: vec![],
        tools: vec![],
        max_tokens: 8096,
        stream: Some(true),
        metadata_json: None,
    }
}

fn tool_result(id: &str, content: &str, is_error: bool) -> ContentBlock {
    ContentBlock::ToolResult { tool_use_id: id.to_string(), content_json: content.to_string(), is_error }
}

#[test]
fn test_parse_tool_use() {
    let mut parser = Parser::new();
    let resp = ApiResponse {
        id: "msg_123".to_string(),
        model: "opus-3".to_string(),
        content: vec![ContentBlock::ToolUse {
            id: "tool_abc".to_string(),
            name: "Read".to_string(),
            input_json: r#"{"file_path":"/test/file.txt"}"#.to_string(),
        }],
        stop_reason: None,
        stop_sequence: None,
        usage: None,
    };
    let events = parser.parse_response(&resp, None, 1_000);
    assert_eq!(events.len(), 1);
    match &events[0] {
        ParsedEvent::ToolCall { tool_name, .. } => assert_eq!(tool_name, "Read"),
        _ => panic!("Expected ToolCall event"),
    }
}

#[test]
fn test_parse_tool_result_with_cache_control() {
    let mut parser = Parser::new();
    parser.register_pending_tool("toolu_01ASGBmB2GxUaBj6UsJ9fhZE".to_string(), "Glob".to_string(), 1_000);
    let req = request(vec![Message {
        role: "user".to_string(),
        content: MessageContent::Blocks(vec![tool_result("toolu_01ASGBmB2GxUaBj6UsJ9fhZE", "\"file1.txt\\nfile2.txt\"", false)]),
    }]);
    let events = parser.parse_request(&req, None, 1_250);
    assert_eq!(events.len(), 1, "Expected 1 ToolResult event");
    match &events[0] {
        ParsedEvent::ToolResult { id, tool_name, success, duration_ms, .. } => {
            assert_eq!(id, "toolu_01ASGBmB2GxUaBj6UsJ9fhZE");
            assert_eq!(tool_name, "Glob");
            assert!(*success);
            assert_eq!(*duration_ms, 250);
        }
        _ => panic!("Expected ToolResult event"),
    }
    let again = parser.parse_request(&req, None, 2_000);
    assert!(again.is_empty(), "a result is matched once");
}

#[test]
fn unknown_results_are_ignored_and_errors_reported() {
    let mut parser = Parser::new();
    parser.register_pending_tool("a".to_string(), "Bash".to_string(), 500);
    let req = request(vec![
        Message { role: "user".to_string(), content: MessageContent::Text("hi".to_string()) },
        Message {
            role: "user".to_string(),
            content: MessageContent::Blocks(vec![tool_result("zzz", "1", false), tool_result("a", "2", true)]),
        },
    ]);
    let events = parser.parse_request(&req, Some("dev-1"), 100);
    assert_eq!(events.len(), 1);
    match &events[0] {
        ParsedEvent::ToolResult { id, success, duration_ms, output_json, .. } => {
            assert_eq!(id, "a");
            assert!(!*success);
            assert_eq!(*duration_ms, 0);
            assert_eq!(output_json, "2");
        }
        _ => panic!("Expected ToolResult event"),
    }
}

#[test]
fn request_snapshot_measures_content() {
    let req = request(vec![
        Message { role: "user".to_string(), content: MessageContent::Text("héllo".to_string()) },
        Message {
            role: "assistant".to_string(),
            content: MessageContent::Blocks(vec![
                ContentBlock::Thinking { thinking: "abc".to_string(), signature: None },
                ContentBlock::ToolUse { id: "t".to_string(), name: "Read".to_string(), input_json: "{}".to_string() },
                ContentBlock::Other,
            ]),
        },
        Message { role: "user".to_string(), content: MessageContent::Blocks(vec![tool_result("t", "\"ok\"", false)]) },
    ]);
    let snap = ContextSnapshot::from_request(&req);
    assert_eq!(snap.message_count, 3);
    assert_eq!(snap.text_chars, 6);
    assert_eq!(snap.thinking_chars, 3);
    assert_eq!(snap.tool_use_count, 1);
    assert_eq!(snap.tool_use_chars, 2);
    assert_eq!(snap.tool_result_count, 1);
    assert_eq!(snap.tool_result_chars, 4);
    assert_eq!(snap.system_chars, 10);
    let mut parser = Parser::new();
    parser.parse_request(&req, Some("dev-1"), 0);
    assert_eq!(parser.get_context_snapshot("dev-1"), Some(snap));
    assert_eq!(parser.get_context_snapshot("other"), None);
}

#[test]
fn response_text_and_usage() {
    let mut parser = Parser::new();
    let resp = ApiResponse {
        id: "m".to_string(),
        model: "sonnet".to_string(),
        content: vec![
            ContentBlock::Text { text: "one".to_string() },
            ContentBlock::Text { text: "two".to_string() },
        ],
        stop_reason: Some("end_turn".to_string()),
        stop_sequence: None,
        usage: Some(Usage { input_tokens: 10, output_tokens: 5, cache_creation_input_tokens: None, cache_read_input_tokens: Some(7) }),
    };
    let events = parser.parse_response(&resp, None, 0);
    assert_eq!(events.len(), 2);
    match &events[0] {
        ParsedEvent::AssistantResponse { content } => assert_eq!(content, "one\n\ntwo"),
        _ => panic!("expected text"),
    }
    match &events[1] {
        ParsedEvent::ApiUsage { model, input_tokens, output_tokens, cache_creation_tokens, cache_read_tokens } => {
            assert_eq!(model, "sonnet");
            assert_eq!((*input_tokens, *output_tokens, *cache_creation_tokens, *cache_read_tokens), (10, 5, 0, 7));
        }
        _ => panic!("expected usage"),
    }
}

#[test]
fn compaction_is_detected_per_user() {
    let mut parser = Parser::new();
    assert!(parser.check_for_compact(Some("u1"), "opus", 100, 50_000, 0).is_none());
    let d = parser.check_for_compact(Some("u1"), "opus", 100, 5_000, 1_000).expect("a drop");
    assert_eq!(d.previous_context, 50_100);
    assert_eq!(d.new_context, 6_100);
    assert!(parser.check_for_compact(Some("u2"), "opus", 100, 5_000, 0).is_none());
    assert!(parser.check_for_compact(Some("u1"), "fast-haiku", 100, 1, 0).is_none());
}

#[test]
fn streamed_tool_call_is_remembered() {
    let mut parser = Parser::new();
    let body = [
        r#"data: {"type":"message_start","message":{"model":"opus-4","usage":{"input_tokens":12}}}"#,
        r#"data: {"type":"content_block_start","index":0,"content_block":{"type":"tool_use","id":"toolu_9","name":"Edit"}}"#,
        r#"data: {"type":"content_block_stop","index":0}"#,
        r#"data: {"type":"message_delta","usage":{"output_tokens":3}}"#,
    ]
    .join("\n");
    let events = parser.parse_sse(&body, None, 10);
    assert_eq!(events.len(), 2);
    assert!(matches!(&events[0], ParsedEvent::ToolCall { id, .. } if id == "toolu_9"));
    assert!(matches!(&events[1], ParsedEvent::ApiUsage { input_tokens: 12, output_tokens: 3, .. }));
    let req = request(vec![Message {
        role: "user".to_string(),
        content: MessageContent::Blocks(vec![tool_result("toolu_9", "\"done\"", false)]),
    }]);
    let results = parser.parse_request(&req, None, 40);
    assert!(matches!(&results[0], ParsedEvent::ToolResult { tool_name, duration_ms: 30, .. } if tool_name == "Edit"));
}

#[test]
fn request_helpers() {
    let req = request(vec![Message {
        role: "user".to_string(),
        content: MessageContent::Blocks(vec![tool_result("x", "1", true), ContentBlock::Text { text: "t".to_string() }]),
    }]);
    assert!(req.is_streaming());
    let rs = req.tool_results();
    assert_eq!(rs, vec![("x".to_string(), "1".to_string(), true)]);
    let mut r2 = request(vec![]);
    r2.stream = None;
    assert!(!r2.is_streaming());
}

#[test]
fn diff_chars_add_up_to_the_totals() {
    let a = ContextSnapshot {
        message_count: 4,
        tool_result_count: 2,
        tool_result_chars: 900,
        tool_use_count: 2,
        tool_use_chars: 120,
        thinking_chars: 50,
        text_chars: 300,
        system_chars: 1000,
    };
    let b = ContextSnapshot {
        message_count: 6,
        tool_result_count: 1,
        tool_result_chars: 100,
        tool_use_count: 3,
        tool_use_chars: 200,
        thinking_chars: 0,
        text_chars: 500,
        system_chars: 1000,
    };
    let d = a.diff(&b);
    let sum = d.tool_result_chars + d.tool_use_chars + d.thinking_chars + d.text_chars + d.system_chars;
    assert_eq!(sum, a.total_chars() as i64 - b.total_chars() as i64);
    assert_eq!(d.message_count, -2);
    assert_eq!(d.tool_result_chars, 800);
}

#[test]
fn default_diff_is_zero() {
    let d = aspy::context::ContextSnapshotDiff::default();
    assert_eq!(d.message_count, 0);
    assert_eq!(d.tool_result_chars, 0);
    assert_eq!(d.system_chars, 0);
}
