use enki::json::{JsonNumber, JsonValue};
use enki::llm::capabilities::ModelCapabilities;
use enki::llm::stream::{process_chunk, LineBuffer};
use enki::llm::types::{
    parse_fallback_tool_call, tool_call_fallback_schema, ChatStreamChunk, ModelDetails, Role,
    ShowModelResponse, StreamEvent, StreamMessage, ToolCallFunction, ToolCallResponse,
};

fn show(model_info: Option<JsonValue>, caps: Option<Vec<&str>>, details: Option<ModelDetails>) -> ShowModelResponse {
    ShowModelResponse {
        modelfile: None,
        parameters: None,
        template: None,
        details,
        model_info,
        capabilities: caps.map(|c| c.into_iter().map(|s| s.to_string()).collect()),
    }
}

fn num(n: u64) -> JsonValue {
    JsonValue::Number(JsonNumber::PosInt(n))
}

#[test]
fn capabilities_from_show_response() {
    let info = JsonValue::Object(vec![
        ("general.architecture".to_string(), JsonValue::String("llama".to_string())),
        ("llama.context_length".to_string(), num(8192)),
    ]);
    let details = ModelDetails {
        parent_model: None,
        format: None,
        family: Some("llama".to_string()),
        families: None,
        parameter_size: Some("8B".to_string()),
        quantization_level: Some("Q4_0".to_string()),
    };
    let caps = ModelCapabilities::from_show_response("m", &show(Some(info), Some(vec!["completion", "tools"]), Some(details)));
    assert_eq!(caps.model_name, "m");
    assert!(caps.supports_tools);
    assert!(!caps.supports_vision);
    assert_eq!(caps.context_length, 8192);
    assert_eq!(caps.parameter_size.as_deref(), Some("8B"));
    assert_eq!(caps.family.as_deref(), Some("llama"));
    assert_eq!(caps.quantization.as_deref(), Some("Q4_0"));
    assert_eq!(caps.reply_token_budget(), 4096);
    assert_eq!(caps.history_budget(), 4096);
}

#[test]
fn capabilities_key_order_and_defaults() {
    let info = JsonValue::Object(vec![
        ("context_length".to_string(), num(1000)),
        ("qwen2.context_length".to_string(), num(40000)),
    ]);
    let caps = ModelCapabilities::from_show_response("q", &show(Some(info), Some(vec!["vision"]), None));
    assert_eq!(caps.context_length, 40000);
    assert!(caps.supports_vision);
    assert_eq!(caps.reply_token_budget(), 8192);
    assert_eq!(caps.history_budget(), 40000 - 8192);
    assert_eq!(caps.parameter_size, None);

    let none = ModelCapabilities::from_show_response("n", &show(None, None, None));
    assert_eq!(none.context_length, 4096);
    assert!(!none.supports_tools);
    assert_eq!(none.reply_token_budget(), 2048);
    assert_eq!(none.history_budget(), 2048);

    // a first key that is no unsigned number gives the default, not a later key
    let odd = JsonValue::Object(vec![
        ("llama.context_length".to_string(), JsonValue::String("big".to_string())),
        ("context_length".to_string(), num(9000)),
    ]);
    let c = ModelCapabilities::from_show_response("o", &show(Some(odd), None, None));
    assert_eq!(c.context_length, 4096);

    // lengths beyond 32 bits are truncated
    let huge = JsonValue::Object(vec![("context_length".to_string(), num((1u64 << 32) + 100))]);
    let h = ModelCapabilities::from_show_response("h", &show(Some(huge), None, None));
    assert_eq!(h.context_length, 100);
}

#[test]
fn fallback_capabilities() {
    let c = ModelCapabilities::fallback("x");
    assert_eq!(c.model_name, "x");
    assert!(!c.supports_tools);
    assert_eq!(c.context_length, 4096);
    let d = ModelCapabilities::default();
    assert_eq!(d.model_name, "unknown");
    assert_eq!(d.context_length, 4096);
}

#[test]
fn small_context_budget_saturates() {
    let mut c = ModelCapabilities::fallback("x");
    c.context_length = 1000;
    assert_eq!(c.reply_token_budget(), 2048);
    assert_eq!(c.history_budget(), 0);
}

#[test]
fn parse_fallback_with_tool() {
    let r = parse_fallback_tool_call(
        r#"{"thinking":"look","tool":"read_file","arguments":{"path":"a.rs"}}"#,
    )
    .unwrap();
    assert_eq!(r.thinking, "look");
    assert!(r.response.is_none());
    let tc = r.tool_call.unwrap();
    assert_eq!(tc.name, "read_file");
    assert_eq!(tc.arguments.get_str("path").as_deref(), Some("a.rs"));
}

#[test]
fn parse_fallback_with_response_only() {
    let r = parse_fallback_tool_call(r#"{"response":"done","tool":""}"#).unwrap();
    assert_eq!(r.thinking, "");
    assert_eq!(r.response.as_deref(), Some("done"));
    assert!(r.tool_call.is_none());
}

#[test]
fn parse_fallback_tool_without_arguments_gets_null() {
    let r = parse_fallback_tool_call(r#"{"tool":"ask_user"}"#).unwrap();
    let tc = r.tool_call.unwrap();
    assert!(matches!(tc.arguments, JsonValue::Null));
}

#[test]
fn parse_fallback_rejects_invalid_json() {
    assert!(parse_fallback_tool_call("not json").is_err());
    assert!(parse_fallback_tool_call("{\"thinking\": ").is_err());
}

#[test]
fn fallback_schema_lists_properties() {
    let s = tool_call_fallback_schema();
    assert_eq!(s.get_str("type").as_deref(), Some("object"));
    let props = s.get("properties").unwrap();
    for key in ["thinking", "response", "tool", "arguments"] {
        assert!(props.get(key).is_some(), "{}", key);
    }
}

fn chunk(message: Option<StreamMessage>, done: bool) -> ChatStreamChunk {
    ChatStreamChunk {
        model: "m".to_string(),
        created_at: String::new(),
        message,
        done,
        done_reason: None,
        total_duration: Some(5),
        load_duration: None,
        prompt_eval_count: Some(12),
        prompt_eval_duration: None,
        eval_count: None,
        eval_duration: Some(7),
    }
}

#[test]
fn process_chunk_done_reports_usage() {
    let es = process_chunk(&chunk(None, true));
    assert_eq!(es.len(), 1);
    match &es[0] {
        StreamEvent::Done(s) => {
            assert_eq!(s.prompt_tokens, 12);
            assert_eq!(s.completion_tokens, 0);
            assert_eq!(s.total_duration_ns, 5);
            assert_eq!(s.eval_duration_ns, 7);
        }
        _ => panic!("expected done"),
    }
}

#[test]
fn process_chunk_tool_calls_then_text() {
    let m = StreamMessage {
        role: Role::Assistant,
        content: "hi".to_string(),
        tool_calls: Some(vec![ToolCallResponse {
            function: ToolCallFunction { name: "bash".to_string(), arguments: JsonValue::Null },
        }]),
    };
    let es = process_chunk(&chunk(Some(m), false));
    assert_eq!(es.len(), 2);
    assert!(matches!(&es[0], StreamEvent::ToolCall(tc) if tc.name == "bash"));
    assert!(matches!(&es[1], StreamEvent::TextDelta(t) if t == "hi"));
}

#[test]
fn process_chunk_empty_text_gives_nothing() {
    let m = StreamMessage { role: Role::Assistant, content: String::new(), tool_calls: None };
    assert_eq!(process_chunk(&chunk(Some(m), false)).len(), 0);
    assert_eq!(process_chunk(&chunk(None, false)).len(), 0);
}

#[test]
fn line_buffer_frames_lines_across_pushes() {
    let mut b = LineBuffer::new();
    let first = b.push("{\"a\":1}\n  \n{\"b\"");
    assert_eq!(first, vec!["{\"a\":1}".to_string()]);
    let second = b.push(":2}\r\n");
    assert_eq!(second, vec!["{\"b\":2}".to_string()]);
    assert_eq!(b.finish(), None);
    b.push("  tail  ");
    assert_eq!(b.finish().as_deref(), Some("tail"));
}

#[test]
fn line_buffer_split_anywhere_gives_same_lines() {
    let text = "one\ntwo\n\nthree\nfour";
    let mut whole = LineBuffer::new();
    let all = whole.push(text);
    for cut in 0..=text.len() {
        let mut b = LineBuffer::new();
        let mut got = b.push(&text[..cut]);
        got.extend(b.push(&text[cut..]));
        assert_eq!(got, all);
        assert_eq!(b.finish(), whole.finish());
    }
}
