use schelm_ores::decoder::StreamingError;
use schelm_ores::stream::{Pull, StreamDriver, MAX_EVENT_BYTES};
use schelm_ores::urls::{normalized_path, relative_path};
use serde::de::Error as _;

type Item = Result<serde_json::Value, StreamingError>;

/// A stand-in for the typed event decoder: a JSON object with a string `type`
/// decodes; a `response.output_text.delta` must also carry its `delta`.
fn decode_tagged(s: String) -> Result<serde_json::Value, serde_json::Error> {
    let v: serde_json::Value = serde_json::from_str(&s)?;
    match v.get("type") {
        Some(serde_json::Value::String(t)) => {
            if t == "response.output_text.delta" && v.get("delta").is_none() {
                Err(serde_json::Error::custom("missing field `delta`"))
            } else {
                Ok(v)
            }
        }
        _ => Err(serde_json::Error::custom("missing field `type`")),
    }
}

/// Runs a driver over the chunks as a byte source would, one pull at a time.
struct Run {
    driver: StreamDriver,
    chunks: std::vec::IntoIter<Vec<u8>>,
}

impl Run {
    fn new(chunks: Vec<Vec<u8>>) -> Run {
        Run { driver: StreamDriver::new(), chunks: chunks.into_iter() }
    }

    fn next(&mut self) -> Option<Item> {
        loop {
            match self.driver.pull(&decode_tagged) {
                Pull::Ready(x) => return Some(x),
                Pull::End => return None,
                Pull::NeedChunk => match self.chunks.next() {
                    Some(c) => {
                        if let Some(e) = self.driver.receive(&c) {
                            return Some(Err(e));
                        }
                    }
                    None => {
                        self.driver.close();
                        return None;
                    }
                },
            }
        }
    }

    fn collect_all(&mut self) -> Vec<Item> {
        let mut out = Vec::new();
        while let Some(item) = self.next() {
            out.push(item);
        }
        out
    }
}

fn text_delta_json(seq: i32, delta: &str) -> String {
    format!(
        "{{\"type\":\"response.output_text.delta\",\"sequence_number\":{seq},\"item_id\":\"msg_001\",\"output_index\":0,\"content_index\":0,\"delta\":{},\"logprobs\":[]}}",
        serde_json::Value::String(delta.to_owned())
    )
}

fn sse_frame(event: Option<&str>, data: &str) -> String {
    let mut frame = String::new();
    if let Some(e) = event {
        frame.push_str(&format!("event: {e}\n"));
    }
    frame.push_str(&format!("data: {data}\n\n"));
    frame
}

fn delta_of(item: &Item) -> String {
    match item {
        Ok(v) if v["type"] == "response.output_text.delta" => v["delta"].as_str().unwrap().to_owned(),
        other => panic!("expected ResponseOutputTextDelta, got: {other:?}"),
    }
}

#[test]
fn parses_multiple_events() {
    let body = format!(
        "{}{}{}",
        sse_frame(Some("response.output_text.delta"), &text_delta_json(0, "Hello")),
        sse_frame(Some("response.output_text.delta"), &text_delta_json(1, " world")),
        "data: [DONE]\n\n",
    );
    let events = Run::new(vec![body.into_bytes()]).collect_all();
    assert_eq!(events.len(), 2);
    for event in &events {
        assert!(event.is_ok(), "expected Ok, got: {event:?}");
    }
    assert_eq!(delta_of(&events[0]), "Hello");
    assert_eq!(delta_of(&events[1]), " world");
}

#[test]
fn tolerant_injection_adds_type_from_event_name() {
    let data = "{\"sequence_number\":0,\"item_id\":\"msg_001\",\"output_index\":0,\"content_index\":0,\"delta\":\"injected\",\"logprobs\":[]}";
    let body = format!(
        "{}{}",
        sse_frame(Some("response.output_text.delta"), data),
        "data: [DONE]\n\n",
    );
    let events = Run::new(vec![body.into_bytes()]).collect_all();
    assert_eq!(events.len(), 1);
    assert_eq!(delta_of(&events[0]), "injected");
}

#[test]
fn mismatch_detection_errors() {
    let data = text_delta_json(0, "mismatch");
    let body = format!("{}{}", sse_frame(Some("response.completed"), &data), "data: [DONE]\n\n");
    let mut run = Run::new(vec![body.into_bytes()]);
    let event = run.next();
    assert!(event.is_some());
    match event.unwrap() {
        Err(StreamingError::TypeMismatch { event, ty }) => {
            assert_eq!(event, "response.completed");
            assert_eq!(ty, "response.output_text.delta");
        }
        other => panic!("expected TypeMismatch, got: {other:?}"),
    }
    assert!(run.next().is_none());
}

#[test]
fn chunk_boundary_robustness() {
    let full = format!(
        "{}{}",
        sse_frame(Some("response.output_text.delta"), &text_delta_json(0, "split")),
        "data: [DONE]\n\n",
    );
    let mid = full.len() / 2;
    let chunk1 = full.as_bytes()[..mid].to_vec();
    let chunk2 = full.as_bytes()[mid..].to_vec();
    let events = Run::new(vec![chunk1, chunk2]).collect_all();
    assert_eq!(events.len(), 1);
    assert!(events[0].is_ok());
    assert_eq!(delta_of(&events[0]), "split");
}

#[test]
fn done_marker_terminates_stream() {
    let body = format!(
        "{}{}{}",
        sse_frame(Some("response.output_text.delta"), &text_delta_json(0, "before done")),
        "data: [DONE]\n\n",
        sse_frame(Some("response.output_text.delta"), &text_delta_json(1, "after done")),
    );
    let mut run = Run::new(vec![body.into_bytes()]);
    let first = run.next();
    assert!(first.is_some());
    assert!(first.unwrap().is_ok());
    let second = run.next();
    assert!(second.is_none(), "expected None after [DONE]");
    assert!(run.driver.is_done());
    assert!(run.next().is_none());
}

#[test]
fn event_too_large_errors() {
    let oversized = vec![b'x'; MAX_EVENT_BYTES + 1];
    let mut run = Run::new(vec![oversized]);
    let event = run.next();
    assert!(event.is_some());
    match event.unwrap() {
        Err(StreamingError::EventTooLarge { limit_bytes }) => {
            assert_eq!(limit_bytes, MAX_EVENT_BYTES);
        }
        other => panic!("expected EventTooLarge, got: {other:?}"),
    }
    assert!(run.next().is_none());
}

#[test]
fn unsupported_event_type_does_not_kill_stream() {
    let unknown_json = "{\"type\":\"response.new_unknown.delta\",\"sequence_number\":0,\"content\":\"thinking\"}";
    let body = format!(
        "{}{}{}",
        sse_frame(Some("response.new_unknown.delta"), unknown_json),
        sse_frame(Some("response.output_text.delta"), &text_delta_json(1, "Hello")),
        "data: [DONE]\n\n",
    );
    let events = Run::new(vec![body.into_bytes()]).collect_all();
    assert_eq!(events.len(), 2);
    match &events[0] {
        Ok(v) => {
            assert_eq!(v["type"], "response.new_unknown.delta");
            assert_eq!(v["content"], "thinking");
        }
        other => panic!("expected Unknown, got: {other:?}"),
    }
    assert_eq!(delta_of(&events[1]), "Hello");
}

#[test]
fn unknown_event_with_type_injection() {
    let data = r#"{"sequence_number":0,"data":"something"}"#;
    let body = format!("{}{}", sse_frame(Some("response.new_feature"), data), "data: [DONE]\n\n");
    let events = Run::new(vec![body.into_bytes()]).collect_all();
    assert_eq!(events.len(), 1);
    match &events[0] {
        Ok(v) => {
            assert_eq!(v["type"], "response.new_feature");
            assert_eq!(v["data"], "something");
        }
        other => panic!("expected Unknown, got: {other:?}"),
    }
}

#[test]
fn single_delta_then_done_scenario() {
    let input = "event: response.output_text.delta\ndata: {\"type\":\"response.output_text.delta\",\"sequence_number\":0,\"item_id\":\"msg_001\",\"output_index\":0,\"content_index\":0,\"delta\":\"Hello\",\"logprobs\":[]}\n\ndata: [DONE]\n\n";
    let mut run = Run::new(vec![input.as_bytes().to_vec()]);
    let first = run.next().expect("one event");
    assert_eq!(delta_of(&first), "Hello");
    assert!(run.next().is_none());
}

#[test]
fn every_cut_gives_the_same_events() {
    let input = format!(
        "{}: keep-alive\n\n{}data: [DONE]\n\n",
        sse_frame(Some("response.output_text.delta"), &text_delta_json(0, "caf\u{e9} \u{20ac}")),
        sse_frame(None, &text_delta_json(1, "two")),
    );
    let bytes = input.as_bytes();
    let whole: Vec<String> = Run::new(vec![bytes.to_vec()]).collect_all().iter().map(delta_of).collect();
    assert_eq!(whole, vec!["caf\u{e9} \u{20ac}".to_owned(), "two".to_owned()]);
    for cut in 0..=bytes.len() {
        let chunks = vec![bytes[..cut].to_vec(), bytes[cut..].to_vec()];
        let got: Vec<String> = Run::new(chunks).collect_all().iter().map(delta_of).collect();
        assert_eq!(got, whole, "cut at {cut}");
    }
    let bytewise: Vec<Vec<u8>> = bytes.iter().map(|b| vec![*b]).collect();
    let got: Vec<String> = Run::new(bytewise).collect_all().iter().map(delta_of).collect();
    assert_eq!(got, whole);
}

#[test]
fn frames_then_clean_end_without_marker() {
    let body = format!(
        "{}{}",
        sse_frame(None, &text_delta_json(0, "a")),
        sse_frame(None, &text_delta_json(1, "b")),
    );
    let events = Run::new(vec![body.into_bytes(), b"data: trailing".to_vec()]).collect_all();
    assert_eq!(events.len(), 2);
    assert!(events.iter().all(|e| e.is_ok()));
}

#[test]
fn decode_error_ends_the_stream() {
    let body = format!(
        "{}{}{}",
        sse_frame(None, "{\"type\":\"response.output_text.delta\"}"),
        sse_frame(None, &text_delta_json(1, "never")),
        "data: [DONE]\n\n",
    );
    let events = Run::new(vec![body.into_bytes()]).collect_all();
    assert_eq!(events.len(), 1);
    match &events[0] {
        Err(StreamingError::Json { source, .. }) => assert!(source.to_string().contains("missing field")),
        other => panic!("expected Json error, got: {other:?}"),
    }
}

#[test]
fn bound_is_checked_on_the_whole_buffer() {
    let mut driver = StreamDriver::new();
    let half = vec![b'x'; MAX_EVENT_BYTES / 2];
    assert!(matches!(driver.pull(&decode_tagged), Pull::NeedChunk));
    assert!(driver.receive(&half).is_none());
    assert!(matches!(driver.pull(&decode_tagged), Pull::NeedChunk));
    assert!(driver.receive(&half).is_none());
    assert!(matches!(driver.pull(&decode_tagged), Pull::NeedChunk));
    assert!(matches!(driver.receive(b"x"), Some(StreamingError::EventTooLarge { limit_bytes: MAX_EVENT_BYTES })));
    assert!(matches!(driver.pull(&decode_tagged), Pull::End));
    assert!(driver.receive(b"data: x\n\n").is_none());
    assert!(matches!(driver.pull(&decode_tagged), Pull::End));
}

#[test]
fn base_path_gets_a_trailing_slash() {
    assert_eq!(normalized_path("/v1"), "/v1/");
    assert_eq!(normalized_path("/v1/"), "/v1/");
    assert_eq!(normalized_path(""), "/");
}

#[test]
fn endpoint_path_loses_leading_slashes() {
    assert_eq!(relative_path("responses"), "responses");
    assert_eq!(relative_path("/responses"), "responses");
    assert_eq!(relative_path("//a/b"), "a/b");
}
