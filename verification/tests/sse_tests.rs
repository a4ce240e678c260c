use aspy::sse::{is_sse, parse_sse_events, tool_input_form, SseBlock, ToolInputForm};

fn stream() -> String {
    let lines = [
        "event: message_start",
        r#"data: {"type":"message_start","message":{"model":"opus-4","usage":{"input_tokens":120,"cache_creation_input_tokens":7,"cache_read_input_tokens":3000}}}"#,
        "",
        "event: content_block_start",
        r#"data: {"type":"content_block_start","index":0,"content_block":{"type":"thinking"}}"#,
        r#"data: {"type":"content_block_delta","index":0,"delta":{"type":"thinking_delta","thinking":"Let me "}}"#,
        r#"data: {"type":"content_block_delta","index":0,"delta":{"type":"thinking_delta","thinking":"look."}}"#,
        r#"data: {"type":"content_block_stop","index":0}"#,
        r#"data: {"type":"content_block_start","index":1,"content_block":{"type":"tool_use","id":"toolu_1","name":"Read"}}"#,
        r#"data: {"type":"content_block_delta","index":1,"delta":{"type":"input_json_delta","partial_json":"{\"file_path\":"}}"#,
        r#"data: {"type":"content_block_delta","index":1,"delta":{"type":"input_json_delta","partial_json":"\"/a.txt\"}"}}"#,
        r#"data: {"type":"content_block_stop","index":1}"#,
        r#"data: {"type":"message_delta","usage":{"output_tokens":42}}"#,
        "data: [DONE]",
    ];
    lines.join("\r\n")
}

#[test]
fn sse_stream_yields_blocks_in_stop_order() {
    let r = parse_sse_events(&stream());
    assert_eq!(r.blocks.len(), 2);
    match &r.blocks[0] {
        SseBlock::Thinking { content, token_estimate } => {
            assert_eq!(content, "Let me look.");
            assert_eq!(*token_estimate, 3);
        }
        _ => panic!("expected a thinking block first"),
    }
    match &r.blocks[1] {
        SseBlock::ToolCall { id, tool_name, input_json } => {
            assert_eq!(id, "toolu_1");
            assert_eq!(tool_name, "Read");
            assert_eq!(input_json, r#"{"file_path":"/a.txt"}"#);
        }
        _ => panic!("expected a tool call second"),
    }
}

#[test]
fn sse_stream_usage_is_collected() {
    let r = parse_sse_events(&stream());
    let u = r.usage.expect("usage");
    assert_eq!(u.model, "opus-4");
    assert_eq!(u.input_tokens, 120);
    assert_eq!(u.output_tokens, 42);
    assert_eq!(u.cache_creation_tokens, 7);
    assert_eq!(u.cache_read_tokens, 3000);
}

#[test]
fn sse_empty_text_block_is_dropped_and_open_blocks_flushed() {
    let body = [
        r#"data: {"type":"content_block_start","index":0,"content_block":{"type":"text"}}"#,
        r#"data: {"type":"content_block_stop","index":0}"#,
        r#"data: {"type":"content_block_start","index":2,"content_block":{"type":"text"}}"#,
        r#"data: {"type":"content_block_delta","index":2,"delta":{"type":"text_delta","text":"Done"}}"#,
    ]
    .join("\n");
    let r = parse_sse_events(&body);
    assert_eq!(r.blocks.len(), 1);
    match &r.blocks[0] {
        SseBlock::Text { content } => assert_eq!(content, "Done"),
        _ => panic!("expected text"),
    }
    assert!(r.usage.is_none());
}

#[test]
fn sse_bad_json_and_other_lines_are_skipped() {
    let body = "event: ping\ndata: {not json\n: comment\ndata:\n";
    let r = parse_sse_events(body);
    assert!(r.blocks.is_empty());
    assert!(r.usage.is_none());
}

#[test]
fn sse_usage_needs_a_nonzero_count() {
    let body = r#"data: {"type":"message_start","message":{"model":"m","usage":{"input_tokens":0}}}"#;
    let r = parse_sse_events(body);
    assert!(r.usage.is_none());
}

#[test]
fn sse_mismatched_delta_type_is_ignored() {
    let body = [
        r#"data: {"type":"content_block_start","index":0,"content_block":{"type":"text"}}"#,
        r#"data: {"type":"content_block_delta","index":0,"delta":{"type":"thinking_delta","thinking":"x"}}"#,
        r#"data: {"type":"content_block_delta","index":0,"delta":{"type":"text_delta","text":"y"}}"#,
        r#"data: {"type":"content_block_stop","index":0}"#,
    ]
    .join("\n");
    let r = parse_sse_events(&body);
    match &r.blocks[0] {
        SseBlock::Text { content } => assert_eq!(content, "y"),
        _ => panic!("expected text"),
    }
}

#[test]
fn sse_detection() {
    assert!(is_sse("event: message_start\ndata: {}"));
    assert!(is_sse("\nevent: ping"));
    assert!(!is_sse("{\"id\":\"msg\"}"));
    assert!(!is_sse("data: x\n event: y"));
}

#[test]
fn tool_input_forms() {
    assert_eq!(tool_input_form(""), ToolInputForm::EmptyObject);
    assert_eq!(tool_input_form(r#"{"a":5}"#), ToolInputForm::Json);
    assert_eq!(tool_input_form("{broken"), ToolInputForm::RawText);
}
