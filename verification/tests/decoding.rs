//! Tests of the event decoder: the schema of each event kind, the fail-soft
//! error sentinel, and the non-streaming response path.

use brave_opus::anthropic::Error;
use brave_opus::anthropic::message_create_response;
use brave_opus::decode::decode_data;
use brave_opus::events::MessageEventType;
use brave_opus::http::HttpOutcome;

#[test]
fn message_start_envelope_decodes_fully() {
    let data = "{\"type\":\"message_start\",\"message\":{\"id\":\"msg_1\",\"type\":\"message\",\
                \"role\":\"assistant\",\"content\":[{\"type\":\"text\",\"text\":\"hi\"}],\
                \"model\":\"m-1\",\"stop_reason\":null,\"stop_sequence\":null,\
                \"usage\":{\"input_tokens\":10,\"output_tokens\":1}}}";
    let ev = decode_data(data);
    assert_eq!(ev.kind, MessageEventType::MessageStart);
    let m = ev.message.expect("envelope expected");
    assert_eq!(m.id, "msg_1");
    assert_eq!(m.kind, "message");
    assert_eq!(m.role, "assistant");
    assert_eq!(m.model, "m-1");
    assert_eq!(m.content.len(), 1);
    assert_eq!(m.content[0].kind, "text");
    assert_eq!(m.content[0].text.as_deref(), Some("hi"));
    assert_eq!(m.stop_reason, None);
    assert_eq!(m.usage.input_tokens, Some(10));
    assert_eq!(m.usage.output_tokens, Some(1));
}

#[test]
fn message_delta_carries_stop_reason_and_usage() {
    let data = "{\"type\":\"message_delta\",\"delta\":{\"stop_reason\":\"end_turn\"},\
                \"usage\":{\"output_tokens\":25}}";
    let ev = decode_data(data);
    assert_eq!(ev.kind, MessageEventType::MessageDelta);
    let d = ev.delta.expect("delta expected");
    assert_eq!(d.stop_reason.as_deref(), Some("end_turn"));
    assert_eq!(d.text, None);
    let u = ev.usage.expect("usage expected");
    assert_eq!(u.output_tokens, Some(25));
    assert_eq!(u.input_tokens, None);
}

#[test]
fn content_block_start_carries_block() {
    let data = "{\"type\":\"content_block_start\",\"index\":2,\
                \"content_block\":{\"type\":\"text\",\"text\":\"\"}}";
    let ev = decode_data(data);
    assert_eq!(ev.kind, MessageEventType::ContentBlockStart);
    assert_eq!(ev.index, Some(2));
    let c = ev.content_block.expect("content block expected");
    assert_eq!(c.kind, "text");
    assert_eq!(c.text.as_deref(), Some(""));
}

#[test]
fn unknown_tag_becomes_error_sentinel() {
    let ev = decode_data("{\"type\":\"mystery_event\"}");
    assert_eq!(ev.kind, MessageEventType::Error);
    assert_eq!(
        ev.comment.as_deref(),
        Some("fail to deserialize event: {\"type\":\"mystery_event\"}")
    );
}

#[test]
fn wrong_field_type_becomes_error_sentinel() {
    let ev = decode_data("{\"type\":\"content_block_delta\",\"delta\":{\"text\":5}}");
    assert_eq!(ev.kind, MessageEventType::Error);
    let ev = decode_data("{\"type\":\"content_block_delta\",\"index\":\"zero\"}");
    assert_eq!(ev.kind, MessageEventType::Error);
    let ev = decode_data("{\"type\":5}");
    assert_eq!(ev.kind, MessageEventType::Error);
    let ev = decode_data("[1,2,3]");
    assert_eq!(ev.kind, MessageEventType::Error);
}

#[test]
fn decode_on_error_is_repeatable() {
    let a = decode_data("data garbage");
    let b = decode_data("data garbage");
    assert_eq!(a.kind, MessageEventType::Error);
    assert_eq!(b.kind, MessageEventType::Error);
    assert_eq!(a.comment, b.comment);
    assert_eq!(a.comment.as_deref(), Some("fail to deserialize event: data garbage"));
}

#[test]
fn unknown_fields_are_ignored() {
    let ev = decode_data("{\"type\":\"ping\",\"extra\":{\"deep\":[1,2,3]}}");
    assert_eq!(ev.kind, MessageEventType::Ping);
    assert_eq!(ev.comment, None);
}

#[test]
fn create_response_success_decodes() {
    let body = "{\"id\":\"msg_2\",\"type\":\"message\",\"role\":\"assistant\",\
                \"content\":{\"type\":\"text\",\"text\":\"answer\"},\"model\":\"m-1\",\
                \"stop_reason\":\"end_turn\",\"stop_sequence\":null,\
                \"usage\":{\"input_tokens\":3,\"output_tokens\":4}}";
    let r = message_create_response(HttpOutcome::Success { body: body.to_string() });
    let m = r.expect("response expected");
    assert_eq!(m.id, "msg_2");
    assert_eq!(m.content.text.as_deref(), Some("answer"));
    assert_eq!(m.stop_reason.as_deref(), Some("end_turn"));
}

#[test]
fn create_response_error_status_carries_api_body() {
    let r = message_create_response(HttpOutcome::Status {
        code: 400,
        body: "{\"error\":\"bad request\"}".to_string(),
    });
    match r {
        Err(Error::ApiError(s)) => assert_eq!(s, "{\"error\":\"bad request\"}"),
        _ => panic!("expected an api error"),
    }
}

#[test]
fn create_response_transport_failure_is_request_error() {
    let r = message_create_response(HttpOutcome::Transport { note: "connection refused".into() });
    match r {
        Err(Error::RequestError(s)) => assert_eq!(s, "connection refused"),
        _ => panic!("expected a request error"),
    }
}

#[test]
fn create_response_unreadable_body_is_deserialize_error() {
    let r = message_create_response(HttpOutcome::Success { body: "not json".to_string() });
    match r {
        Err(Error::DeserializeIntoJson(s)) => assert_eq!(s, "not json"),
        _ => panic!("expected a deserialize error"),
    }
}

#[test]
fn create_response_wrong_shape_is_deserialize_error() {
    let r = message_create_response(HttpOutcome::Success { body: "{\"id\":7}".to_string() });
    match r {
        Err(Error::DeserializeError(s)) => assert_eq!(s, "{\"id\":7}"),
        _ => panic!("expected a deserialize error"),
    }
}
