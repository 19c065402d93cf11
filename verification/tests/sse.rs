use openrouter_rs::sse::{chars_of, is_done_marker, is_event_stream, take_line, SseDecoder};
use openrouter_rs::http::{is_success_status, reply_body};
use openrouter_rs::error::OpenRouterError;

#[test]
fn event_stream_content_types() {
    assert!(is_event_stream(Some("text/event-stream")));
    assert!(is_event_stream(Some("Text/Event-Stream; charset=utf-8")));
    assert!(is_event_stream(Some("  text/event-stream\t;x=y")));
    assert!(!is_event_stream(Some("application/json")));
    assert!(!is_event_stream(Some("text/event-streams")));
    assert!(!is_event_stream(Some("")));
    assert!(!is_event_stream(None));
}

#[test]
fn done_marker() {
    assert!(is_done_marker("[DONE]"));
    assert!(!is_done_marker(" [DONE]"));
    assert!(!is_done_marker("{}"));
}

#[test]
fn decoder_joins_data_lines_and_skips_comments() {
    let mut d = SseDecoder::new();
    assert!(d.feed_line(": comment").is_none());
    assert!(d.feed_line("event: message").is_none());
    assert!(d.feed_line("data: first").is_none());
    assert!(d.feed_line("data:second").is_none());
    assert!(d.feed_line("data:  third").is_none());
    let frame = d.feed_line("").expect("blank line should end the event");
    assert_eq!(frame.data, "first\nsecond\n third");
    assert!(d.feed_line("").is_none());
    assert!(d.feed_line("data").is_none());
    assert_eq!(d.feed_line("").expect("empty data event").data, "");
    assert!(d.feed_line("data: tail").is_none());
    assert_eq!(d.finish().expect("pending data").data, "tail");
    assert!(d.finish().is_none());
}

#[test]
fn chars_of_unicode_text() {
    assert_eq!(chars_of("aé😀"), vec!['a', 'é', '😀']);
    assert!(chars_of("").is_empty());
}

#[test]
fn take_line_splits_on_line_feed_and_drops_carriage_return() {
    let mut buf = b"data: a\r\ndata: b\npartial".to_vec();
    assert_eq!(take_line(&mut buf), Some(b"data: a".to_vec()));
    assert_eq!(take_line(&mut buf), Some(b"data: b".to_vec()));
    assert_eq!(take_line(&mut buf), None);
    assert_eq!(buf, b"partial".to_vec());
    let mut blank = b"\r\n\n".to_vec();
    assert_eq!(take_line(&mut blank), Some(Vec::new()));
    assert_eq!(take_line(&mut blank), Some(Vec::new()));
    assert!(blank.is_empty());
}

#[test]
fn decoder_reads_byte_lines_with_replacement_characters() {
    let mut d = SseDecoder::new();
    assert!(d.feed_line_bytes(b"data: caf\xc3\xa9").is_none());
    assert!(d.feed_line_bytes(b"data: bad \xff byte").is_none());
    let frame = d.feed_line_bytes(b"").expect("blank line should end the event");
    assert_eq!(frame.data, "caf\u{e9}\nbad \u{fffd} byte");
}

#[test]
fn finish_with_rest_feeds_the_unterminated_line_first() {
    let mut d = SseDecoder::new();
    assert!(d.feed_line("data: one").is_none());
    let frames = d.finish_with_rest(b"data: two\r");
    assert_eq!(frames.len(), 1);
    assert_eq!(frames[0].data, "one\ntwo");
    assert!(d.finish().is_none());

    let mut d = SseDecoder::new();
    assert!(d.feed_line("data: one").is_none());
    let frames = d.finish_with_rest(b"\r");
    assert_eq!(frames.len(), 1);
    assert_eq!(frames[0].data, "one");

    let mut d = SseDecoder::new();
    assert!(d.finish_with_rest(b"").is_empty());
    assert!(d.finish_with_rest(b": comment").is_empty());
    assert_eq!(d.finish_with_rest(b"data: last")[0].data, "last");
}

#[test]
fn reply_status_decides_success() {
    assert!(is_success_status(200));
    assert!(is_success_status(204));
    assert!(is_success_status(299));
    assert!(!is_success_status(199));
    assert!(!is_success_status(300));
    assert!(!is_success_status(404));
    assert_eq!(reply_body(201, "ok".to_string()).unwrap(), "ok");
    match reply_body(429, "slow down".to_string()) {
        Err(OpenRouterError::Api { status, body }) => {
            assert_eq!(status, 429);
            assert_eq!(body, "slow down");
        }
        other => panic!("expected an API error, got {other:?}"),
    }
}
