use schelm_ores::frame::{extract_frame, SseFrame};

fn frame(buf: &[u8]) -> (SseFrame, usize) {
    extract_frame(buf).expect("a complete frame")
}

#[test]
fn lf_delimited_frame_is_extracted() {
    let buf = b"event: response.created\ndata: {\"a\":1}\n\nrest";
    let (f, n) = frame(buf);
    assert_eq!(f.event.as_deref(), Some("response.created"));
    assert_eq!(f.data, "{\"a\":1}");
    assert_eq!(n, buf.len() - 4);
}

#[test]
fn crlf_delimiter_is_tried_first() {
    let buf = b"data: a\n\ndata: b\r\n\r\n";
    let (f, n) = frame(buf);
    assert_eq!(f.event, None);
    assert_eq!(f.data, "a\nb");
    assert_eq!(n, buf.len());
}

#[test]
fn crlf_lines_lose_their_carriage_return() {
    let buf = b"event: x\r\ndata: y\r\n\r\n";
    let (f, n) = frame(buf);
    assert_eq!(f.event.as_deref(), Some("x"));
    assert_eq!(f.data, "y");
    assert_eq!(n, buf.len());
}

#[test]
fn no_delimiter_means_no_frame() {
    assert!(extract_frame(b"data: partial\n").is_none());
    assert!(extract_frame(b"").is_none());
}

#[test]
fn invalid_utf8_means_no_frame_yet() {
    // The euro sign is cut after its first byte.
    let mut buf = b"data: \xe2".to_vec();
    buf.extend_from_slice(b"\n\n");
    assert!(extract_frame(&buf).is_none());
    let whole = "data: \u{20ac}\n\n".as_bytes();
    let (f, n) = frame(whole);
    assert_eq!(f.data, "\u{20ac}");
    assert_eq!(n, whole.len());
}

#[test]
fn multiple_data_lines_are_joined() {
    let (f, _) = frame(b"data: one\ndata: two\ndata:three\n\n");
    assert_eq!(f.data, "one\ntwo\nthree");
}

#[test]
fn at_most_one_leading_space_is_stripped() {
    let (f, _) = frame(b"data:   spaced\n\n");
    assert_eq!(f.data, "  spaced");
}

#[test]
fn comments_ids_and_retries_are_ignored() {
    let (f, _) = frame(b": keep-alive\nid: 7\nretry: 100\nfoo: bar\ndata: x\n\n");
    assert_eq!(f.event, None);
    assert_eq!(f.data, "x");
}

#[test]
fn last_event_line_wins_and_is_trimmed() {
    let (f, _) = frame(b"event: first\nevent:\t second \ndata: x\n\n");
    assert_eq!(f.event.as_deref(), Some("second"));
}

#[test]
fn blank_frame_is_an_empty_frame() {
    let (f, n) = frame(b": only a comment\n\ndata: next\n\n");
    assert_eq!(f.event, None);
    assert_eq!(f.data, "");
    assert_eq!(n, 18);
}

#[test]
fn event_without_data_has_empty_data() {
    let (f, _) = frame(b"event: ping\n\n");
    assert_eq!(f.event.as_deref(), Some("ping"));
    assert_eq!(f.data, "");
}
