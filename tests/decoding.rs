use schelm_ores::decoder::{
    accept_decoded, decode_frame, is_known_event_type, recover_refused, unknown_fallback,
    validate_content_type, Member, Recovery, StreamingError,
};
use schelm_ores::frame::SseFrame;
use serde::de::Error as _;

/// A stand-in for the typed event decoder: any JSON object with a string
/// `type` decodes; anything else is refused.
fn decode_tagged(s: String) -> Result<serde_json::Value, serde_json::Error> {
    let v: serde_json::Value = serde_json::from_str(&s)?;
    match v.get("type") {
        Some(serde_json::Value::String(_)) => Ok(v),
        _ => Err(serde_json::Error::custom("missing field `type`")),
    }
}

fn frame(event: Option<&str>, data: &str) -> SseFrame {
    SseFrame { event: event.map(|e| e.to_owned()), data: data.to_owned() }
}

fn failure() -> serde_json::Error {
    serde_json::Error::custom("boom")
}

#[test]
fn empty_data_and_end_marker_decode_to_nothing() {
    assert!(matches!(decode_frame(frame(Some("x"), ""), &decode_tagged), Ok(None)));
    assert!(matches!(decode_frame(frame(None, "[DONE]"), &decode_tagged), Ok(None)));
}

#[test]
fn matching_event_name_and_type_decode() {
    let data = r#"{"type":"response.output_text.delta","delta":"Hi"}"#;
    let v = decode_frame(frame(Some("response.output_text.delta"), data), &decode_tagged)
        .unwrap()
        .unwrap();
    assert_eq!(v["delta"], "Hi");
}

#[test]
fn payload_without_event_name_decodes_on_its_own() {
    let v = decode_frame(frame(None, r#"{"type":"error"}"#), &decode_tagged).unwrap().unwrap();
    assert_eq!(v["type"], "error");
}

#[test]
fn differing_event_name_and_type_is_a_mismatch() {
    let data = r#"{"type":"response.output_text.delta"}"#;
    match decode_frame(frame(Some("response.completed"), data), &decode_tagged) {
        Err(StreamingError::TypeMismatch { event, ty }) => {
            assert_eq!(event, "response.completed");
            assert_eq!(ty, "response.output_text.delta");
        }
        other => panic!("expected TypeMismatch, got: {other:?}"),
    }
}

#[test]
fn refused_payload_with_other_type_is_a_mismatch() {
    let refuse = |_s: String| -> Result<serde_json::Value, serde_json::Error> { Err(failure()) };
    match decode_frame(frame(Some("a.b"), r#"{"type":"c.d"}"#), &refuse) {
        Err(StreamingError::TypeMismatch { event, ty }) => {
            assert_eq!(event, "a.b");
            assert_eq!(ty, "c.d");
        }
        other => panic!("expected TypeMismatch, got: {other:?}"),
    }
}

#[test]
fn missing_type_is_injected_from_event_name() {
    let v = decode_frame(frame(Some("response.new_feature"), r#"{"seq":1}"#), &decode_tagged)
        .unwrap()
        .unwrap();
    assert_eq!(v["type"], "response.new_feature");
    assert_eq!(v["seq"], 1);
}

#[test]
fn refused_payload_with_matching_type_keeps_first_error() {
    let refuse = |_s: String| -> Result<serde_json::Value, serde_json::Error> { Err(failure()) };
    match decode_frame(frame(Some("a.b"), r#"{"type":"a.b"}"#), &refuse) {
        Err(StreamingError::Json { source, payload }) => {
            assert!(source.to_string().contains("boom"));
            assert_eq!(payload, r#"{"type":"a.b"}"#);
        }
        other => panic!("expected Json error, got: {other:?}"),
    }
}

#[test]
fn non_json_payload_is_a_json_error() {
    match decode_frame(frame(Some("a.b"), "not json"), &decode_tagged) {
        Err(StreamingError::Json { payload, .. }) => assert_eq!(payload, "not json"),
        other => panic!("expected Json error, got: {other:?}"),
    }
    match decode_frame(frame(None, "[1,2]"), &decode_tagged) {
        Err(StreamingError::Json { payload, .. }) => assert_eq!(payload, "[1,2]"),
        other => panic!("expected Json error, got: {other:?}"),
    }
}

#[test]
fn accept_decoded_compares_name_and_type() {
    let ok = accept_decoded(Some("t".to_owned()), Member::Text("t".to_owned()), 5);
    assert!(matches!(ok, Ok(5)));
    let no_name = accept_decoded(None, Member::Text("t".to_owned()), 5);
    assert!(matches!(no_name, Ok(5)));
    let bad = accept_decoded(Some("a".to_owned()), Member::Text("b".to_owned()), 5);
    assert!(matches!(bad, Err(StreamingError::TypeMismatch { .. })));
}

#[test]
fn recover_refused_decides_each_case() {
    let r = recover_refused(Some("n".to_owned()), "{}".to_owned(), Member::Absent, failure());
    assert!(matches!(r, Recovery::Inject(ref name, _) if name == "n"));
    let r = recover_refused(Some("n".to_owned()), "{}".to_owned(), Member::NotText, failure());
    assert!(matches!(r, Recovery::Fail(StreamingError::Json { .. })));
    let r = recover_refused(None, "{}".to_owned(), Member::Absent, failure());
    assert!(matches!(r, Recovery::Fail(StreamingError::Json { .. })));
    let r = recover_refused(Some("n".to_owned()), "x".to_owned(), Member::NotObject, failure());
    assert!(matches!(r, Recovery::Fail(StreamingError::Json { .. })));
}

#[test]
fn known_event_types_are_recognised() {
    assert!(is_known_event_type("response.output_text.delta"));
    assert!(is_known_event_type("error"));
    assert!(is_known_event_type("response.function_call_arguments.done"));
    assert!(!is_known_event_type("response.new_type"));
    assert!(!is_known_event_type(""));
    assert!(!is_known_event_type("Error"));
}

#[test]
fn known_type_with_bad_fields_keeps_its_error() {
    let r: Result<u8, &str> = unknown_fallback("missing field", "response.output_text.delta", Ok(1));
    assert_eq!(r, Err("missing field"));
}

#[test]
fn unknown_type_falls_back_to_unknown_event() {
    let r: Result<u8, &str> = unknown_fallback("missing field", "response.new_type", Ok(1));
    assert_eq!(r, Ok(1));
}

#[test]
fn content_type_must_be_event_stream() {
    assert!(validate_content_type(Some("text/event-stream")).is_ok());
    assert!(validate_content_type(Some("text/event-stream; charset=utf-8")).is_ok());
    match validate_content_type(Some("application/json")) {
        Err(StreamingError::UnexpectedContentType { got }) => {
            assert_eq!(got.as_deref(), Some("application/json"))
        }
        other => panic!("expected UnexpectedContentType, got: {other:?}"),
    }
    assert!(matches!(
        validate_content_type(None),
        Err(StreamingError::UnexpectedContentType { got: None })
    ));
    assert!(validate_content_type(Some("text/event")).is_err());
}
