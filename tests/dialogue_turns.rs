use shell_werk_lib::config::{LlmConfiguration, LlmProvider};
use shell_werk_lib::dialogue::{run_dialogue, run_stream, DialogueRequest, StreamRequest};
use shell_werk_lib::error::LlmError;
use shell_werk_lib::message::{IdSource, ChatMessage, ChatRole};

fn configured(provider: LlmProvider) -> LlmConfiguration {
    let mut config = LlmConfiguration::default();
    config.active_provider = provider;
    config.selected_model = Some("demo-model".into());
    config
}

fn request(input: &str) -> DialogueRequest {
    DialogueRequest { history: Vec::new(), input: input.to_string() }
}

const TOOL_REPLY: &str = r#"{"choices":[{"message":{"role":"assistant","content":null,"tool_calls":[{"id":"c1","function":{"name":"mock_echo","arguments":"{\"text\":\"ping\"}"}}]}}]}"#;

#[test]
fn plain_answer_appends_one_assistant_message() {
    let mut ids = IdSource::new();
    let mut dialogue = run_dialogue(&configured(LlmProvider::Vllm), request("  hi  "), &mut ids).expect("starts");
    assert_eq!(dialogue.conversation.len(), 1);
    assert_eq!(dialogue.conversation[0].content, "hi");
    assert_eq!(dialogue.conversation[0].role, ChatRole::User);
    let q = dialogue.next_request().expect("first request");
    assert_eq!(q.url, "http://127.0.0.1:8000/v1/chat/completions");
    dialogue
        .on_reply(r#"{"choices":[{"message":{"role":"assistant","content":"Hello there"}}]}"#, &mut ids)
        .expect("reply decodes");
    assert!(dialogue.finished);
    assert!(dialogue.next_request().is_none());
    let response = dialogue.into_response();
    assert_eq!(response.messages.len(), 1);
    assert_eq!(response.messages[0].role, ChatRole::Assistant);
    assert_eq!(response.messages[0].content, "Hello there");
    assert!(response.messages[0].tool_call_id.is_none());
}

#[test]
fn looping_provider_stops_after_four_round_trips() {
    let mut ids = IdSource::new();
    let mut dialogue = run_dialogue(&configured(LlmProvider::Vllm), request("loop"), &mut ids).expect("starts");
    let mut round_trips = 0;
    while let Some(_q) = dialogue.next_request() {
        round_trips += 1;
        assert!(round_trips <= 4);
        dialogue.on_reply(TOOL_REPLY, &mut ids).expect("tool runs");
    }
    assert_eq!(round_trips, 4);
    let response = dialogue.into_response();
    assert_eq!(response.messages.len(), 4);
    for m in &response.messages {
        assert_eq!(m.role, ChatRole::Tool);
        assert_eq!(m.content, "Echo: ping");
        assert_eq!(m.tool_call_id.as_deref(), Some("c1"));
    }
}

#[test]
fn tool_round_trip_then_answer() {
    let mut ids = IdSource::new();
    let mut dialogue = run_dialogue(&configured(LlmProvider::Ollama), request("echo"), &mut ids).expect("starts");
    assert_eq!(dialogue.next_request().unwrap().url, "http://127.0.0.1:11434/api/chat");
    dialogue
        .on_reply(r#"{"message":{"role":"assistant","content":"calling","tool_calls":[{"function":{"name":"mock_echo","arguments":{"text":"x"}}}]}}"#, &mut ids)
        .expect("tool runs");
    assert!(!dialogue.finished);
    assert_eq!(dialogue.round_trips, 2);
    dialogue
        .on_reply(r#"{"message":{"role":"assistant","content":"done"}}"#, &mut ids)
        .expect("answer");
    let response = dialogue.into_response();
    assert_eq!(response.messages.len(), 3);
    assert_eq!(response.messages[0].content, "calling");
    assert_eq!(response.messages[1].content, "Echo: x");
    assert!(response.messages[1].tool_call_id.as_deref().unwrap().starts_with("tool-call-"));
    assert_eq!(response.messages[2].content, "done");
}

#[test]
fn unknown_tool_fails_the_turn() {
    let mut ids = IdSource::new();
    let mut dialogue = run_dialogue(&configured(LlmProvider::Vllm), request("x"), &mut ids).expect("starts");
    let err = dialogue
        .on_reply(r#"{"choices":[{"message":{"role":"assistant","tool_calls":[{"id":"z","function":{"name":"rm_rf","arguments":{}}}]}}]}"#, &mut ids)
        .unwrap_err();
    assert!(matches!(err, LlmError::Tool(ref m) if m == "Unknown tool: rm_rf"));
    assert!(dialogue.finished);
    assert_eq!(err.message(), "Unknown tool: rm_rf");
}

#[test]
fn blank_content_is_not_kept() {
    let mut ids = IdSource::new();
    let mut dialogue = run_dialogue(&configured(LlmProvider::Vllm), request("x"), &mut ids).expect("starts");
    dialogue
        .on_reply(r#"{"choices":[{"message":{"role":"assistant","content":"  \n"}}]}"#, &mut ids)
        .expect("decodes");
    assert!(dialogue.finished);
    assert!(dialogue.into_response().messages.is_empty());
}

#[test]
fn reply_without_choices_is_no_response() {
    let mut ids = IdSource::new();
    let mut dialogue = run_dialogue(&configured(LlmProvider::Vllm), request("x"), &mut ids).expect("starts");
    let err = dialogue.on_reply(r#"{"choices":[]}"#, &mut ids).unwrap_err();
    assert!(matches!(err, LlmError::Path(ref m) if m == "No response from provider"));
    assert!(dialogue.finished);
    assert!(dialogue.next_request().is_none());
    let mut dialogue = run_dialogue(&configured(LlmProvider::Vllm), request("x"), &mut ids).expect("starts");
    let err = dialogue.on_reply("not json", &mut ids).unwrap_err();
    assert!(matches!(err, LlmError::Http(_)));
    assert!(dialogue.finished);
}

#[test]
fn blank_input_is_rejected_before_any_request() {
    let mut ids = IdSource::new();
    let err = run_dialogue(&configured(LlmProvider::Vllm), request(" \t\n"), &mut ids).unwrap_err();
    assert!(matches!(err, LlmError::Path(ref m) if m == "Message cannot be empty"));
    let err = run_stream(
        &configured(LlmProvider::Vllm),
        StreamRequest { history: Vec::new(), input: "   ".into(), request_id: "r".into() },
        &mut ids,
    )
    .unwrap_err();
    assert!(matches!(err, LlmError::Path(ref m) if m == "Message cannot be empty"));
}

#[test]
fn missing_model_is_rejected() {
    let mut ids = IdSource::new();
    let err = run_dialogue(&LlmConfiguration::default(), request("hi"), &mut ids).unwrap_err();
    assert!(matches!(err, LlmError::Path(ref m) if m == "Select a model before chatting"));
    assert_eq!(err.message(), "Select a model before chatting");
}

#[test]
fn stream_start_builds_one_streaming_request() {
    let mut ids = IdSource::new();
    let mut config = configured(LlmProvider::Vllm);
    config.providers.vllm.api_key = Some("sk".into());
    let history = vec![ChatMessage::user(&mut ids, "earlier".into())];
    let start = run_stream(
        &config,
        StreamRequest { history, input: " now ".into(), request_id: "req-9".into() },
        &mut ids,
    )
    .expect("starts");
    assert_eq!(start.request.url, "http://127.0.0.1:8000/v1/chat/completions");
    assert_eq!(start.request.bearer.as_deref(), Some("sk"));
    assert_eq!(start.decoder.request_id, "req-9");
    let body: serde_json::Value = serde_json::from_str(&start.request.body_text()).expect("json");
    assert_eq!(body["stream"], serde_json::Value::Bool(true));
    assert_eq!(body["model"], "demo-model");
    assert_eq!(body["messages"].as_array().unwrap().len(), 2);
    assert_eq!(body["messages"][1]["content"], "now");
    assert_eq!(body["messages"][1]["role"], "user");
    assert_eq!(body["tools"][0]["function"]["name"], "mock_echo");
}

#[test]
fn messages_carry_a_link_only_as_tool_replies() {
    let mut ids = IdSource::new();
    assert!(ChatMessage::new(&mut ids, ChatRole::Tool, "r".into(), None).is_none());
    assert!(ChatMessage::new(&mut ids, ChatRole::User, "r".into(), Some("c".into())).is_none());
    let tool = ChatMessage::new(&mut ids, ChatRole::Tool, "r".into(), Some("c".into())).expect("linked");
    assert!(tool.id.starts_with("tool-"));
    let user = ChatMessage::new(&mut ids, ChatRole::User, "u".into(), None).expect("plain");
    assert!(user.id.starts_with("user-"));
    assert!(user.id["user-".len()..].chars().all(|c| c.is_ascii_digit()));
}

fn stamp(id: &str) -> u128 {
    id.rsplit('-').next().unwrap().parse().unwrap()
}

#[test]
fn ids_of_one_source_never_repeat() {
    let mut ids = IdSource::new();
    let mut dialogue = run_dialogue(&configured(LlmProvider::Vllm), request("loop"), &mut ids).expect("starts");
    while dialogue.next_request().is_some() {
        dialogue
            .on_reply(r#"{"choices":[{"message":{"role":"assistant","content":"c","tool_calls":[{"function":{"name":"mock_echo","arguments":"{}"}},{"function":{"name":"mock_echo","arguments":"{}"}}]}}]}"#, &mut ids)
            .expect("tools run");
    }
    let mut stamps: Vec<u128> = dialogue.conversation.iter().map(|m| stamp(&m.id)).collect();
    for m in &dialogue.conversation {
        if let Some(link) = &m.tool_call_id {
            stamps.push(stamp(link));
        }
    }
    let mut sorted = stamps.clone();
    sorted.sort();
    sorted.dedup();
    assert_eq!(sorted.len(), stamps.len());
    assert_eq!(dialogue.conversation.len(), 1 + 4 * 3);
}

#[test]
fn stamps_rise_even_when_the_clock_does_not() {
    let mut ids = IdSource { last: u128::MAX - 1 };
    assert_eq!(ids.next_stamp(), u128::MAX);
    assert_eq!(ids.last, u128::MAX);
    let mut ids = IdSource::new();
    let a = ids.next_stamp();
    let b = ids.next_stamp();
    assert!(b > a);
}
