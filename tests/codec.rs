use shell_werk_lib::config::{LlmProvider, ProviderConnectionConfig};
use shell_werk_lib::error::LlmError;
use shell_werk_lib::json::{parse_json, render_json, JsonValue};
use shell_werk_lib::message::{IdSource, decimal_text, ChatMessage, ChatRole};
use shell_werk_lib::models::decode_models;
use shell_werk_lib::tools::{available_tools, execute_tool, normalize_arguments, ToolCall};
use shell_werk_lib::wire::chat_request;

#[test]
fn echo_tool_repeats_its_text() {
    let args = parse_json(r#"{"text":"hello"}"#).expect("json");
    let call = ToolCall { id: "1".into(), name: "mock_echo".into(), arguments: args };
    assert_eq!(execute_tool(&call).expect("runs"), "Echo: hello");
    let call = ToolCall { id: "2".into(), name: "mock_echo".into(), arguments: JsonValue::Null };
    assert_eq!(execute_tool(&call).expect("runs"), "Echo: ");
}

#[test]
fn unknown_tool_is_named() {
    let call = ToolCall { id: "1".into(), name: "other".into(), arguments: JsonValue::Null };
    assert!(matches!(execute_tool(&call), Err(LlmError::Tool(m)) if m == "Unknown tool: other"));
}

#[test]
fn string_arguments_are_decoded_or_kept() {
    let decoded = normalize_arguments(JsonValue::Str(r#"{"text":"hi"}"#.into()));
    assert!(matches!(decoded, JsonValue::Object(ref fs) if fs.len() == 1 && fs[0].0 == "text"));
    let kept = normalize_arguments(JsonValue::Str("not json".into()));
    assert!(matches!(kept, JsonValue::Str(ref s) if s == "not json"));
    let other = normalize_arguments(JsonValue::Bool(true));
    assert!(matches!(other, JsonValue::Bool(true)));
}

#[test]
fn json_round_trip_through_text() {
    let v = parse_json(r#"{"a":[1,2.5,null,true,"x"]}"#).expect("json");
    assert_eq!(render_json(&v), r#"{"a":[1,2.5,null,true,"x"]}"#);
    assert!(parse_json("{").is_err());
}

#[test]
fn registry_offers_the_echo_tool() {
    let tools = available_tools();
    assert_eq!(tools.len(), 1);
    assert_eq!(tools[0].tool_type, "function");
    assert_eq!(tools[0].function.name, "mock_echo");
}

#[test]
fn ollama_request_lists_empty_tool_calls_and_link() {
    let mut ids = IdSource::new();
    let conn = ProviderConnectionConfig {
        base_url: "http://h".into(),
        api_key: Some("secret".into()),
    };
    let messages = vec![
        ChatMessage::user(&mut ids, "q".into()),
        ChatMessage::tool(&mut ids, "a".into(), "call-7".into()),
    ];
    let q = chat_request(LlmProvider::Ollama, &conn, "m", &messages, available_tools(), false);
    assert_eq!(q.url, "http://h/api/chat");
    assert!(q.bearer.is_none());
    let body: serde_json::Value = serde_json::from_str(&q.body_text()).expect("json");
    assert_eq!(body["stream"], serde_json::Value::Bool(false));
    assert_eq!(body["messages"][0]["tool_calls"], serde_json::Value::Array(Vec::new()));
    assert!(body["messages"][0].get("tool_call_id").is_none());
    assert_eq!(body["messages"][1]["tool_call_id"], "call-7");
    assert_eq!(body["messages"][1]["role"], "tool");
}

#[test]
fn openai_request_without_tools_omits_them() {
    let mut ids = IdSource::new();
    let conn = ProviderConnectionConfig { base_url: "http://h".into(), api_key: None };
    let messages = vec![ChatMessage::assistant(&mut ids, "a".into())];
    let q = chat_request(LlmProvider::Vllm, &conn, "m", &messages, Vec::new(), true);
    let body: serde_json::Value = serde_json::from_str(&q.body_text()).expect("json");
    assert!(body.get("tools").is_none());
    assert!(body["messages"][0].get("tool_calls").is_none());
    assert_eq!(body["messages"][0]["role"], "assistant");
}

#[test]
fn ollama_label_without_details_is_the_name() {
    let models = decode_models(
        LlmProvider::Ollama,
        r#"{"models":[{"name":"a"},{"name":"b","details":null},{"name":"c","details":{}}]}"#,
    )
    .expect("decodes");
    let labels: Vec<&str> = models.iter().map(|m| m.label.as_str()).collect();
    assert_eq!(labels, vec!["a", "b", "c"]);
}

#[test]
fn malformed_listing_is_a_request_failure() {
    assert!(matches!(decode_models(LlmProvider::Vllm, "{}"), Err(LlmError::Http(_))));
    assert!(matches!(decode_models(LlmProvider::Vllm, r#"{"data":[{"id":3}]}"#), Err(LlmError::Http(_))));
    assert!(matches!(decode_models(LlmProvider::Ollama, "nope"), Err(LlmError::Http(_))));
}

#[test]
fn decimal_digits() {
    assert_eq!(decimal_text(0), "0");
    assert_eq!(decimal_text(1234567890123), "1234567890123");
}

#[test]
fn error_messages() {
    assert_eq!(LlmError::Io("x".into()).message(), "I/O error: x");
    assert_eq!(LlmError::Http("y".into()).message(), "Request failed: y");
    assert_eq!(
        LlmError::MissingProviderConfig(LlmProvider::Ollama).message(),
        "Missing configuration for provider Ollama"
    );
    assert_eq!(ChatRole::Tool, ChatRole::Tool);
}
