use shell_werk_lib::config::LlmProvider;
use shell_werk_lib::error::LlmError;
use shell_werk_lib::stream::{StreamDecoder, StreamEvent};

fn feed_all(decoder: &mut StreamDecoder, body: &str) -> Result<Vec<StreamEvent>, LlmError> {
    let mut events = Vec::new();
    for line in body.lines() {
        events.extend(decoder.feed_line(line)?);
    }
    Ok(events)
}

fn answer_text(events: &[StreamEvent]) -> String {
    events
        .iter()
        .filter_map(|evt| match evt {
            StreamEvent::Answer { delta, .. } => Some(delta.as_str()),
            _ => None,
        })
        .collect()
}

#[test]
fn stream_openai_emits_answer_and_done() {
    let body = r#"
data: {"choices":[{"delta":{"content":"Hello"}}]}

data: {"choices":[{"delta":{"content":" world"}}]}

data: [DONE]
"#;
    let mut decoder = StreamDecoder::new(LlmProvider::Vllm, "req-1");
    let events = feed_all(&mut decoder, body).expect("stream succeeds");

    assert!(matches!(
        events.last(),
        Some(StreamEvent::Done { request_id }) if request_id == "req-1"
    ));
    assert_eq!(answer_text(&events), "Hello world");
}

#[test]
fn req_013_streams_answer_tokens() {
    let body = r#"
    data: {"choices":[{"delta":{"content":"Hello"}}]}

    data: {"choices":[{"delta":{"content":" world"}}]}

    data: [DONE]
    "#;
    let mut collected = Vec::new();
    let mut decoder = StreamDecoder::new(LlmProvider::Vllm, "req-1");
    for line in body.lines() {
        collected.extend(decoder.feed_line(line).expect("stream succeeds"));
    }
    assert_eq!(answer_text(&collected), "Hello world");
    assert!(matches!(
        collected.last(),
        Some(StreamEvent::Done { request_id }) if request_id == "req-1"
    ));
}

#[test]
fn openai_stream_gives_two_answers_then_one_done() {
    let body = "data: {\"choices\":[{\"delta\":{\"content\":\"Hel\"}}]}\n\ndata: {\"choices\":[{\"delta\":{\"content\":\"lo\"}}]}\ndata: [DONE]\ndata: {\"choices\":[{\"delta\":{\"content\":\"late\"}}]}\n";
    let mut decoder = StreamDecoder::new(LlmProvider::Vllm, "r");
    let events = feed_all(&mut decoder, body).expect("decodes");
    assert_eq!(events.len(), 3);
    assert!(matches!(&events[0], StreamEvent::Answer { request_id, delta } if request_id == "r" && delta == "Hel"));
    assert!(matches!(&events[1], StreamEvent::Answer { delta, .. } if delta == "lo"));
    assert!(matches!(&events[2], StreamEvent::Done { request_id } if request_id == "r"));
    assert!(decoder.finished);
    assert!(decoder.close().is_none());
}

#[test]
fn ollama_stream_gives_two_answers_then_one_done() {
    let body = "{\"message\":{\"role\":\"assistant\",\"content\":\"Hel\"},\"done\":false}\n\n{\"message\":{\"role\":\"assistant\",\"content\":\"lo\"},\"done\":false}\n{\"message\":{\"role\":\"assistant\",\"content\":\"\"},\"done\":true}\n{\"message\":{\"role\":\"assistant\",\"content\":\"late\"},\"done\":false}\n";
    let mut decoder = StreamDecoder::new(LlmProvider::Ollama, "o");
    let events = feed_all(&mut decoder, body).expect("decodes");
    assert_eq!(events.len(), 3);
    assert_eq!(answer_text(&events), "Hello");
    assert!(matches!(&events[2], StreamEvent::Done { request_id } if request_id == "o"));
}

#[test]
fn ollama_line_with_text_and_done_gives_answer_then_done() {
    let mut decoder = StreamDecoder::new(LlmProvider::Ollama, "o");
    let events = decoder
        .feed_line("{\"message\":{\"role\":\"assistant\",\"content\":\"bye\"},\"done\":true}")
        .expect("decodes");
    assert_eq!(events.len(), 2);
    assert!(matches!(&events[0], StreamEvent::Answer { delta, .. } if delta == "bye"));
    assert!(matches!(&events[1], StreamEvent::Done { .. }));
}

#[test]
fn malformed_openai_chunk_fails_the_stream() {
    let mut decoder = StreamDecoder::new(LlmProvider::Vllm, "bad");
    let err = decoder.feed_line("data: {not json").unwrap_err();
    assert!(matches!(err, LlmError::Serde(_)));
    let event = decoder.fail(&err);
    assert!(matches!(&event, StreamEvent::Error { request_id, message }
        if request_id == "bad" && message.starts_with("Invalid configuration: ")));
    assert!(decoder.finished);
}

#[test]
fn openai_chunk_without_choices_fails() {
    let mut decoder = StreamDecoder::new(LlmProvider::Vllm, "x");
    assert!(decoder.feed_line("data: {\"id\":1}").is_err());
    assert!(decoder.feed_line("data: {\"choices\":[{\"delta\":3}]}").is_err());
}

#[test]
fn repeated_data_markers_and_empty_deltas() {
    let mut decoder = StreamDecoder::new(LlmProvider::Vllm, "x");
    let events = decoder
        .feed_line("  data:data: {\"choices\":[{\"delta\":{\"content\":\"\"}},{\"delta\":{}},{\"delta\":{\"content\":\"a\"}}]}  ")
        .expect("decodes");
    assert_eq!(events.len(), 1);
    assert!(matches!(&events[0], StreamEvent::Answer { delta, .. } if delta == "a"));
    assert!(decoder.feed_line("   ").expect("blank").is_empty());
}

#[test]
fn stream_that_stops_early_ends_with_error() {
    let mut decoder = StreamDecoder::new(LlmProvider::Ollama, "cut");
    decoder
        .feed_line("{\"message\":{\"role\":\"assistant\",\"content\":\"par\"}}")
        .expect("decodes");
    let last = decoder.close().expect("a terminal event is owed");
    assert!(matches!(&last, StreamEvent::Error { request_id, message }
        if request_id == "cut" && message == "Stream ended before completion"));
    assert!(decoder.close().is_none());
}

#[test]
fn ollama_chunk_with_bad_done_fails() {
    let mut decoder = StreamDecoder::new(LlmProvider::Ollama, "o");
    assert!(decoder.feed_line("{\"done\":\"yes\"}").is_err());
    assert!(decoder.feed_line("[1,2]").is_err());
    assert!(decoder.feed_line("{\"message\":{\"content\":\"no role\"}}").is_err());
}
