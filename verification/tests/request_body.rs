//! Tests of the request body: serialization to the wire text, the
//! deserializer, and the round trip between them.

use brave_opus::request::Message;
use brave_opus::request::MessageBody;
use brave_opus::request::Role;
use brave_opus::request::message_body_from_json;

fn sample_body() -> MessageBody {
    MessageBody {
        model: "m-large".to_string(),
        messages: vec![
            Message { role: Role::User, content: "say \"hi\"\n".to_string() },
            Message { role: Role::Assistant, content: "hi".to_string() },
        ],
        max_tokens: 256,
        metadata: Some(vec![("user_id".to_string(), "u-1".to_string())]),
        stop_sequences: Some(vec!["STOP".to_string()]),
        stream: Some(true),
        system: Some("be brief".to_string()),
    }
}

#[test]
fn render_produces_the_exact_wire_text() {
    let text = sample_body().render();
    assert_eq!(
        text,
        "{\"model\":\"m-large\",\
         \"messages\":[{\"role\":\"user\",\"content\":\"say \\\"hi\\\"\\u000a\"},\
         {\"role\":\"assistant\",\"content\":\"hi\"}],\
         \"max_tokens\":256,\
         \"metadata\":{\"user_id\":\"u-1\"},\
         \"stop_sequences\":[\"STOP\"],\
         \"stream\":true,\
         \"system\":\"be brief\"}"
    );
}

#[test]
fn render_skips_unset_fields() {
    let body = MessageBody {
        model: "m".to_string(),
        messages: vec![Message { role: Role::User, content: "q".to_string() }],
        max_tokens: 1,
        metadata: None,
        stop_sequences: None,
        stream: None,
        system: None,
    };
    assert_eq!(
        body.render(),
        "{\"model\":\"m\",\"messages\":[{\"role\":\"user\",\"content\":\"q\"}],\"max_tokens\":1}"
    );
}

#[test]
fn rendered_text_reparses_under_a_structural_parser() {
    let body = sample_body();
    let text = body.render();
    let v: serde_json::Value = serde_json::from_str(&text).expect("renderer must emit JSON");
    assert_eq!(v.get("model").and_then(|x| x.as_str()), Some("m-large"));
    assert_eq!(v.get("max_tokens").and_then(|x| x.as_i64()), Some(256));
    assert_eq!(v.get("stream").and_then(|x| x.as_bool()), Some(true));
    let messages = v.get("messages").and_then(|x| x.as_array()).expect("array expected");
    assert_eq!(messages.len(), 2);
    assert_eq!(messages[0].get("content").and_then(|x| x.as_str()), Some("say \"hi\"\n"));
    assert_eq!(
        v.get("metadata").and_then(|m| m.get("user_id")).and_then(|x| x.as_str()),
        Some("u-1")
    );
}

#[test]
fn body_round_trips_through_its_document() {
    let body = sample_body();
    let doc = body.body_to_json();
    let back = message_body_from_json(&doc).expect("round trip must succeed");
    assert_eq!(back.model, body.model);
    assert_eq!(back.max_tokens, body.max_tokens);
    assert_eq!(back.messages.len(), body.messages.len());
    for (a, b) in back.messages.iter().zip(body.messages.iter()) {
        assert_eq!(a.role, b.role);
        assert_eq!(a.content, b.content);
    }
    assert_eq!(back.metadata, body.metadata);
    assert_eq!(back.stop_sequences, body.stop_sequences);
    assert_eq!(back.stream, body.stream);
    assert_eq!(back.system, body.system);
}

#[test]
fn minimal_body_round_trips_too() {
    let body = MessageBody {
        model: "m".to_string(),
        messages: Vec::new(),
        max_tokens: -1,
        metadata: None,
        stop_sequences: None,
        stream: None,
        system: None,
    };
    let back = message_body_from_json(&body.body_to_json()).expect("round trip must succeed");
    assert_eq!(back.model, "m");
    assert_eq!(back.max_tokens, -1);
    assert!(back.messages.is_empty());
    assert_eq!(back.stream, None);
}
