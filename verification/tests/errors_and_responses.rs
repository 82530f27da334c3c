//! Tests of the error taxonomies, their display texts, and generic response
//! handling for the web-search side.

use brave_opus::anthropic;
use brave_opus::anthropic::post_headers;
use brave_opus::anthropic::stream_headers;
use brave_opus::brave;
use brave_opus::brave::summarize_step;
use brave_opus::brave::summarizer_key;
use brave_opus::events::MessageEvent;
use brave_opus::events::MessageEventType;
use brave_opus::http::HttpOutcome;
use brave_opus::json::JsonValue;

#[test]
fn anthropic_error_messages_match_their_variants() {
    assert_eq!(anthropic::Error::TimedOut.message(), "timed out");
    assert_eq!(anthropic::Error::StreamClosed.message(), "stream closed");
    assert_eq!(anthropic::Error::Eof.message(), "eof");
    assert_eq!(anthropic::Error::UnexpectedEof.message(), "unexpected eof");
    assert_eq!(anthropic::Error::InvalidEvent.message(), "invalid event");
    assert_eq!(anthropic::Error::InvalidLine("x:".to_string()).message(), "invalid line: x:");
    assert_eq!(anthropic::Error::InvalidParameter("p".to_string()).message(), "invalid parameter: p");
    assert_eq!(
        anthropic::Error::SseStreamCreation("no tls".to_string()).message(),
        "sse stream creation error: no tls"
    );
    assert_eq!(anthropic::Error::Unknown("odd".to_string()).message(), "sse stream error: odd");
    assert_eq!(anthropic::Error::ApiError("denied".to_string()).message(), "API Error: denied");
    assert_eq!(anthropic::Error::RequestError("dns".to_string()).message(), "Request Error: dns");
    assert_eq!(anthropic::Error::SerializeError("s".to_string()).message(), "serialize error: s");
    assert_eq!(anthropic::Error::DeserializeError("d".to_string()).message(), "deserialize error: d");
    assert_eq!(
        anthropic::Error::DeserializeIntoJson("io".to_string()).message(),
        "deserialize into error: io"
    );
}

#[test]
fn brave_error_messages_match_their_variants() {
    assert_eq!(brave::Error::Unknown("odd".to_string()).message(), "sse stream error: odd");
    assert_eq!(brave::Error::ApiError("denied".to_string()).message(), "API Error: denied");
    assert_eq!(brave::Error::SerializeError("s".to_string()).message(), "serialize error: s");
    assert_eq!(brave::Error::DeserializeError("d".to_string()).message(), "deserialize error: d");
    assert_eq!(brave::Error::DeserializeIoError("io".to_string()).message(), "deserialize into error: io");
    assert_eq!(brave::Error::RequestError("dns".to_string()).message(), "Request Error: dns");
}

#[test]
fn brave_deal_response_parses_and_classifies() {
    let ok = brave::deal_response(HttpOutcome::Success { body: " { \"a\" : 1 } ".to_string() });
    match ok {
        Ok(doc) => assert_eq!(doc.to_text(), "{\"a\":1}"),
        Err(_) => panic!("expected a parsed body"),
    }
    let status = brave::deal_response(HttpOutcome::Status {
        code: 429,
        body: "{ \"error\" : \"slow down\" }".to_string(),
    });
    match status {
        Err(brave::Error::ApiError(s)) => assert_eq!(s, "{\"error\":\"slow down\"}"),
        _ => panic!("expected an api error"),
    }
    let broken = brave::deal_response(HttpOutcome::Success { body: "<html>".to_string() });
    match broken {
        Err(brave::Error::DeserializeIoError(s)) => assert_eq!(s, "<html>"),
        _ => panic!("expected an unreadable-body error"),
    }
}

#[test]
fn numbers_survive_the_parse_and_render_boundary() {
    let ok = brave::deal_response(HttpOutcome::Success {
        body: "[-5, 0, 9223372036854775807, 18446744073709551615]".to_string(),
    });
    match ok {
        Ok(doc) => assert_eq!(doc.to_text(), "[-5,0,9223372036854775807,18446744073709551615]"),
        Err(_) => panic!("expected a parsed body"),
    }
}

#[test]
fn summarizer_key_is_found_and_missing_is_reported() {
    let doc = JsonValue::Object(vec![(
        "summarizer".to_string(),
        JsonValue::Object(vec![
            ("type".to_string(), JsonValue::Text("summarizer".to_string())),
            ("key".to_string(), JsonValue::Text("k-123".to_string())),
        ]),
    )]);
    assert_eq!(summarizer_key(&doc).as_deref(), Some("k-123"));
    assert_eq!(summarize_step(&doc).unwrap(), "k-123");

    let empty = JsonValue::Object(Vec::new());
    assert_eq!(summarizer_key(&empty), None);
    match summarize_step(&empty) {
        Err(brave::Error::ApiError(s)) => assert_eq!(s, "No summarizer found"),
        _ => panic!("expected the no-summarizer error"),
    }
}

#[test]
fn anthropic_headers_carry_version_and_key() {
    let auth = anthropic::Auth::new("SECRET-REDACTED");
    let hs = post_headers(&auth);
    assert_eq!(
        hs,
        vec![
            ("anthropic-version".to_string(), "2023-06-01".to_string()),
            ("content-type".to_string(), "application/json".to_string()),
            ("x-api-key".to_string(), "SECRET-REDACTED".to_string()),
        ]
    );
    let mut versioned = anthropic::Auth::new("SECRET-REDACTED");
    versioned.version = Some("2024-01-01".to_string());
    assert_eq!(post_headers(&versioned)[0].1, "2024-01-01");
}

#[test]
fn stream_headers_carry_the_beta_marker() {
    let auth = anthropic::Auth::new("SECRET-REDACTED");
    let hs = stream_headers(&auth);
    assert_eq!(
        hs,
        vec![
            ("anthropic-version".to_string(), "2023-06-01".to_string()),
            ("anthropic-beta".to_string(), "messages-2023-12-15".to_string()),
            ("content-type".to_string(), "application/json".to_string()),
            ("x-api-key".to_string(), "SECRET-REDACTED".to_string()),
        ]
    );
}

#[test]
fn event_constructors_set_kind_and_comment() {
    let ev = MessageEvent::new(MessageEventType::Ping);
    assert_eq!(ev.kind, MessageEventType::Ping);
    assert_eq!(ev.comment, None);
    assert_eq!(ev.delta.map(|_| ()), None);
    let ev = MessageEvent::with_comment("note".to_string());
    assert_eq!(ev.kind, MessageEventType::Comment);
    assert_eq!(ev.comment.as_deref(), Some("note"));
}
