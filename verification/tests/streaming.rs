//! End-to-end tests of the streaming pipeline: SSE framing, event decoding,
//! and delta projection.

use brave_opus::events::MessageEvent;
use brave_opus::events::MessageEventType;
use brave_opus::project::decode_frame;
use brave_opus::project::delta_text;
use brave_opus::project::frame_delta_text;
use brave_opus::project::project_deltas;
use brave_opus::sse::FrameBuilder;
use brave_opus::sse::RawFrame;

fn feed(lines: &[&str]) -> Vec<RawFrame> {
    let mut builder = FrameBuilder::new();
    let mut frames = Vec::new();
    for line in lines {
        if let Some(f) = builder.push_line(line) {
            frames.push(f);
        }
    }
    frames
}

#[test]
fn hello_world_delta_sequence() {
    let frames = feed(&[
        "data: {\"type\":\"content_block_delta\",\"delta\":{\"text\":\"Hello\"}}",
        "",
        "data: {\"type\":\"content_block_delta\",\"delta\":{\"text\":\" world\"}}",
        "",
        "data: {\"type\":\"message_stop\"}",
        "",
    ]);
    assert_eq!(frames.len(), 3);
    let out: Vec<String> = frames.into_iter().map(frame_delta_text).collect();
    assert_eq!(out, vec!["Hello".to_string(), " world".to_string(), String::new()]);
    assert_eq!(out.concat(), "Hello world");
}

#[test]
fn malformed_frame_does_not_stop_the_stream() {
    let frames = feed(&[
        "data: not-json",
        "",
        "data: {\"type\":\"content_block_delta\",\"delta\":{\"text\":\"next\"}}",
        "",
    ]);
    assert_eq!(frames.len(), 2);
    let first = decode_frame(frames[0].clone());
    assert_eq!(first.kind, MessageEventType::Error);
    assert_eq!(first.comment.as_deref(), Some("fail to deserialize event: not-json"));
    let out: Vec<String> = frames.into_iter().map(frame_delta_text).collect();
    assert_eq!(out, vec![String::new(), "next".to_string()]);
}

#[test]
fn comment_line_becomes_comment_event() {
    let frames = feed(&[": keep-alive"]);
    assert_eq!(frames.len(), 1);
    match &frames[0] {
        RawFrame::Comment { text } => assert_eq!(text, "keep-alive"),
        RawFrame::Event { .. } => panic!("expected a comment frame"),
    }
    let ev = decode_frame(frames[0].clone());
    assert_eq!(ev.kind, MessageEventType::Comment);
    assert_eq!(ev.comment.as_deref(), Some("keep-alive"));
    assert_eq!(delta_text(&ev), "");
}

#[test]
fn event_name_and_multiline_data_accumulate() {
    let frames = feed(&["event: ping", "data: line one", "data: line two", ""]);
    assert_eq!(frames.len(), 1);
    match &frames[0] {
        RawFrame::Event { event_name, data } => {
            assert_eq!(event_name.as_deref(), Some("ping"));
            assert_eq!(data, "line one\nline two");
        }
        RawFrame::Comment { .. } => panic!("expected an event frame"),
    }
}

#[test]
fn blank_line_without_data_emits_nothing() {
    let frames = feed(&["", "", "event: ping", "", "retry: 500", ""]);
    assert!(frames.is_empty());
}

#[test]
fn field_values_strip_one_leading_space() {
    let frames = feed(&["data:no-space", ""]);
    match &frames[0] {
        RawFrame::Event { data, .. } => assert_eq!(data, "no-space"),
        RawFrame::Comment { .. } => panic!("expected an event frame"),
    }
    let frames = feed(&["data:  two spaces", ""]);
    match &frames[0] {
        RawFrame::Event { data, .. } => assert_eq!(data, " two spaces"),
        RawFrame::Comment { .. } => panic!("expected an event frame"),
    }
}

#[test]
fn empty_data_line_still_dispatches_a_frame() {
    let frames = feed(&["data:", ""]);
    assert_eq!(frames.len(), 1);
    match &frames[0] {
        RawFrame::Event { data, event_name } => {
            assert_eq!(data, "");
            assert_eq!(*event_name, None);
        }
        RawFrame::Comment { .. } => panic!("expected an event frame"),
    }
    let ev = decode_frame(frames[0].clone());
    assert_eq!(ev.kind, MessageEventType::Error);
    assert_eq!(ev.comment.as_deref(), Some("fail to deserialize event: "));
}

#[test]
fn projector_emits_delta_text_exactly() {
    let frames = feed(&[
        "data: {\"type\":\"content_block_delta\",\"index\":0,\"delta\":{\"type\":\"text_delta\",\"text\":\"exact text\"}}",
        "",
    ]);
    let ev = decode_frame(frames[0].clone());
    assert_eq!(ev.kind, MessageEventType::ContentBlockDelta);
    assert_eq!(ev.index, Some(0));
    assert_eq!(delta_text(&ev), "exact text");
}

#[test]
fn projector_is_silent_for_other_kinds() {
    for data in [
        "{\"type\":\"message_start\"}",
        "{\"type\":\"message_delta\",\"delta\":{\"stop_reason\":\"end_turn\"}}",
        "{\"type\":\"message_stop\"}",
        "{\"type\":\"ping\"}",
        "{\"type\":\"content_block_start\"}",
        "{\"type\":\"content_block_stop\"}",
        "{\"type\":\"content_block_delta\"}",
        "{\"type\":\"content_block_delta\",\"delta\":{}}",
    ] {
        let ev = brave_opus::decode::decode_data(data);
        assert_eq!(delta_text(&ev), "", "expected no text for {data}");
    }
}

#[test]
fn frame_decoding_keeps_arrival_order() {
    let frames = feed(&[
        ": note",
        "data: {\"type\":\"ping\"}",
        "",
        "data: not json at all",
        "",
    ]);
    let events = brave_opus::project::decode_frames(&frames);
    assert_eq!(events.len(), 3);
    assert_eq!(events[0].kind, MessageEventType::Comment);
    assert_eq!(events[1].kind, MessageEventType::Ping);
    assert_eq!(events[2].kind, MessageEventType::Error);
}

#[test]
fn projection_keeps_arrival_order() {
    let mut events: Vec<MessageEvent> = Vec::new();
    for text in ["a", "", "b"] {
        let data = format!("{{\"type\":\"content_block_delta\",\"delta\":{{\"text\":\"{text}\"}}}}");
        events.push(brave_opus::decode::decode_data(&data));
    }
    events.push(MessageEvent::new(MessageEventType::Ping));
    let out = project_deltas(&events);
    assert_eq!(out, vec!["a", "", "b", ""]);
}
