//! Decoding wire event payloads into `MessageEvent`s.
//!
//! The wire text is parsed as JSON (the one trusted step, see `json`); what a
//! document must look like to be an event — the tag field, the typed payload
//! fields, the message envelope — is stated here as spec functions over
//! `JsonRep` and checked against the executable decoder. A payload that fails
//! either step becomes an `Error`-kind sentinel event rather than a stream
//! failure.

use vstd::prelude::*;
use vstd::string::StringExecFns;

use crate::events::Content;
use crate::events::ContentRep;
use crate::events::Delta;
use crate::events::DeltaRep;
use crate::events::MessageEvent;
use crate::events::MessageEventRep;
use crate::events::MessageEventResponse;
use crate::events::MessageEventResponseRep;
use crate::events::MessageEventType;
use crate::events::MessageResponse;
use crate::events::MessageResponseRep;
use crate::events::Usage;
use crate::events::bare_event_rep;
use crate::events::opt_str_rep;
use crate::json::JsonRep;
use crate::json::JsonValue;
use crate::json::json_doc_of;
use crate::json::json_seq_rep;
use crate::json::parse_json;
use crate::json::rep_get;
use crate::json::str_eq;

verus! {

// ----- what each typed field means, over the document model -----

/// An optional string field: absent or null is `None`; any other non-string
/// value refuses the document.
pub open spec fn spec_opt_str(doc: JsonRep, key: Seq<char>) -> Option<Option<Seq<char>>> {
    match rep_get(doc, key) {
        Option::None => Some(None),
        Option::Some(JsonRep::Null) => Some(None),
        Option::Some(JsonRep::Text(s)) => Some(Some(s)),
        Option::Some(_) => None,
    }
}

/// A required string field.
pub open spec fn spec_req_str(doc: JsonRep, key: Seq<char>) -> Option<Seq<char>> {
    match rep_get(doc, key) {
        Option::Some(JsonRep::Text(s)) => Some(s),
        _ => None,
    }
}

/// An optional signed 32-bit integer field.
pub open spec fn spec_opt_i32(doc: JsonRep, key: Seq<char>) -> Option<Option<i32>> {
    match rep_get(doc, key) {
        Option::None => Some(None),
        Option::Some(JsonRep::Null) => Some(None),
        Option::Some(JsonRep::Int(i)) => if i32::MIN as int <= i <= i32::MAX as int {
            Some(Some(i as i32))
        } else {
            None
        },
        Option::Some(_) => None,
    }
}

/// An optional unsigned 32-bit integer field.
pub open spec fn spec_opt_u32(doc: JsonRep, key: Seq<char>) -> Option<Option<u32>> {
    match rep_get(doc, key) {
        Option::None => Some(None),
        Option::Some(JsonRep::Null) => Some(None),
        Option::Some(JsonRep::Int(i)) => if 0 <= i <= u32::MAX as int {
            Some(Some(i as u32))
        } else {
            None
        },
        Option::Some(_) => None,
    }
}

/// An optional boolean field.
pub open spec fn spec_opt_bool(doc: JsonRep, key: Seq<char>) -> Option<Option<bool>> {
    match rep_get(doc, key) {
        Option::None => Some(None),
        Option::Some(JsonRep::Null) => Some(None),
        Option::Some(JsonRep::Bool(b)) => Some(Some(b)),
        Option::Some(_) => None,
    }
}

/// A required signed 32-bit integer field.
pub open spec fn spec_req_i32(doc: JsonRep, key: Seq<char>) -> Option<i32> {
    match rep_get(doc, key) {
        Option::Some(JsonRep::Int(i)) => if i32::MIN as int <= i <= i32::MAX as int {
            Some(i as i32)
        } else {
            None
        },
        _ => None,
    }
}

// ----- executable field extraction, checked against the specs -----

pub(crate) fn get_opt_bool(v: &JsonValue, key: &str) -> (r: Result<Option<bool>, ()>)
    ensures
        r matches Ok(o) ==> spec_opt_bool(v@, key@) == Some(o),
        r is Err ==> spec_opt_bool(v@, key@) is None,
{
    match v.get_field(key) {
        None => Ok(None),
        Some(f) => match f {
            JsonValue::Null => Ok(None),
            JsonValue::Bool(b) => Ok(Some(*b)),
            _ => Err(()),
        },
    }
}

pub(crate) fn get_req_i32(v: &JsonValue, key: &str) -> (r: Result<i32, ()>)
    ensures
        r matches Ok(i) ==> spec_req_i32(v@, key@) == Some(i),
        r is Err ==> spec_req_i32(v@, key@) is None,
{
    match v.get_field(key) {
        Some(f) => match f {
            JsonValue::Int(i) => {
                if i32::MIN as i64 <= *i && *i <= i32::MAX as i64 {
                    Ok(*i as i32)
                } else {
                    Err(())
                }
            },
            _ => Err(()),
        },
        None => Err(()),
    }
}

pub(crate) fn get_opt_str(v: &JsonValue, key: &str) -> (r: Result<Option<String>, ()>)
    ensures
        r matches Ok(o) ==> spec_opt_str(v@, key@) == Some(opt_str_rep(o)),
        r is Err ==> spec_opt_str(v@, key@) is None,
{
    match v.get_field(key) {
        None => Ok(None),
        Some(f) => match f {
            JsonValue::Null => Ok(None),
            JsonValue::Text(s) => Ok(Some(s.clone())),
            _ => Err(()),
        },
    }
}

pub(crate) fn get_req_str(v: &JsonValue, key: &str) -> (r: Result<String, ()>)
    ensures
        r matches Ok(s) ==> spec_req_str(v@, key@) == Some(s@),
        r is Err ==> spec_req_str(v@, key@) is None,
{
    match v.get_field(key) {
        Some(f) => match f {
            JsonValue::Text(s) => Ok(s.clone()),
            _ => Err(()),
        },
        None => Err(()),
    }
}

pub(crate) fn get_opt_i32(v: &JsonValue, key: &str) -> (r: Result<Option<i32>, ()>)
    ensures
        r matches Ok(o) ==> spec_opt_i32(v@, key@) == Some(o),
        r is Err ==> spec_opt_i32(v@, key@) is None,
{
    match v.get_field(key) {
        None => Ok(None),
        Some(f) => match f {
            JsonValue::Null => Ok(None),
            JsonValue::Int(i) => {
                if i32::MIN as i64 <= *i && *i <= i32::MAX as i64 {
                    Ok(Some(*i as i32))
                } else {
                    Err(())
                }
            },
            _ => Err(()),
        },
    }
}

fn get_opt_u32(v: &JsonValue, key: &str) -> (r: Result<Option<u32>, ()>)
    ensures
        r matches Ok(o) ==> spec_opt_u32(v@, key@) == Some(o),
        r is Err ==> spec_opt_u32(v@, key@) is None,
{
    match v.get_field(key) {
        None => Ok(None),
        Some(f) => match f {
            JsonValue::Null => Ok(None),
            JsonValue::Int(i) => {
                if 0 <= *i && *i <= u32::MAX as i64 {
                    Ok(Some(*i as u32))
                } else {
                    Err(())
                }
            },
            _ => Err(()),
        },
    }
}

// ----- payload objects -----

/// What a document must be to be a `Delta`: an object whose known fields are
/// optional strings (the wire field `type` is the `kind`). Unknown fields are
/// ignored.
pub open spec fn spec_delta(doc: JsonRep) -> Option<DeltaRep> {
    if !(doc is Object) {
        None
    } else {
        match (
            spec_opt_str(doc, "type"@),
            spec_opt_str(doc, "text"@),
            spec_opt_str(doc, "stop_reason"@),
            spec_opt_str(doc, "end_turn"@),
        ) {
            (Some(kind), Some(text), Some(stop_reason), Some(end_turn)) => Some(
                DeltaRep { kind, text, stop_reason, end_turn },
            ),
            _ => None,
        }
    }
}

fn decode_delta(v: &JsonValue) -> (r: Result<Delta, ()>)
    ensures
        r matches Ok(d) ==> spec_delta(v@) == Some(d@),
        r is Err ==> spec_delta(v@) is None,
{
    match v {
        JsonValue::Object(_) => {},
        _ => {
            return Err(());
        },
    }
    let kind = match get_opt_str(v, "type") {
        Ok(o) => o,
        Err(_) => {
            return Err(());
        },
    };
    let text = match get_opt_str(v, "text") {
        Ok(o) => o,
        Err(_) => {
            return Err(());
        },
    };
    let stop_reason = match get_opt_str(v, "stop_reason") {
        Ok(o) => o,
        Err(_) => {
            return Err(());
        },
    };
    let end_turn = match get_opt_str(v, "end_turn") {
        Ok(o) => o,
        Err(_) => {
            return Err(());
        },
    };
    Ok(Delta { kind, text, stop_reason, end_turn })
}

/// What a document must be to be a `Usage`: an object with optional unsigned
/// token counts.
pub open spec fn spec_usage(doc: JsonRep) -> Option<Usage> {
    if !(doc is Object) {
        None
    } else {
        match (spec_opt_u32(doc, "input_tokens"@), spec_opt_u32(doc, "output_tokens"@)) {
            (Some(input_tokens), Some(output_tokens)) => Some(
                Usage { input_tokens, output_tokens },
            ),
            _ => None,
        }
    }
}

fn decode_usage(v: &JsonValue) -> (r: Result<Usage, ()>)
    ensures
        r matches Ok(u) ==> spec_usage(v@) == Some(u),
        r is Err ==> spec_usage(v@) is None,
{
    match v {
        JsonValue::Object(_) => {},
        _ => {
            return Err(());
        },
    }
    let input_tokens = match get_opt_u32(v, "input_tokens") {
        Ok(o) => o,
        Err(_) => {
            return Err(());
        },
    };
    let output_tokens = match get_opt_u32(v, "output_tokens") {
        Ok(o) => o,
        Err(_) => {
            return Err(());
        },
    };
    Ok(Usage { input_tokens, output_tokens })
}

/// What a document must be to be a `Content` block: an object with a required
/// `type` string and an optional `text` string.
pub open spec fn spec_content(doc: JsonRep) -> Option<ContentRep> {
    if !(doc is Object) {
        None
    } else {
        match (spec_req_str(doc, "type"@), spec_opt_str(doc, "text"@)) {
            (Some(kind), Some(text)) => Some(ContentRep { kind, text }),
            _ => None,
        }
    }
}

fn decode_content(v: &JsonValue) -> (r: Result<Content, ()>)
    ensures
        r matches Ok(c) ==> spec_content(v@) == Some(c@),
        r is Err ==> spec_content(v@) is None,
{
    match v {
        JsonValue::Object(_) => {},
        _ => {
            return Err(());
        },
    }
    let kind = match get_req_str(v, "type") {
        Ok(s) => s,
        Err(_) => {
            return Err(());
        },
    };
    let text = match get_opt_str(v, "text") {
        Ok(o) => o,
        Err(_) => {
            return Err(());
        },
    };
    Ok(Content { kind, text })
}

/// The models of a sequence of content blocks.
pub open spec fn content_seq_rep(cs: Seq<Content>) -> Seq<ContentRep> {
    Seq::new(cs.len(), |i: int| cs[i]@)
}

/// What a sequence of documents must be to be a content list: every element a
/// content block.
pub open spec fn spec_contents(docs: Seq<JsonRep>) -> Option<Seq<ContentRep>>
    decreases docs.len(),
{
    if docs.len() == 0 {
        Some(Seq::empty())
    } else {
        match spec_content(docs[0]) {
            Option::None => None,
            Option::Some(c) => match spec_contents(docs.drop_first()) {
                Option::None => None,
                Option::Some(rest) => Some(seq![c] + rest),
            },
        }
    }
}

proof fn lemma_spec_contents_ok(docs: Seq<JsonRep>, cs: Seq<ContentRep>)
    requires
        docs.len() == cs.len(),
        forall|j: int| 0 <= j < docs.len() ==> spec_content(docs[j]) == Some(cs[j]),
    ensures
        spec_contents(docs) == Some(cs),
    decreases docs.len(),
{
    if docs.len() == 0 {
        assert(cs =~= Seq::<ContentRep>::empty());
    } else {
        lemma_spec_contents_ok(docs.drop_first(), cs.drop_first());
        assert(cs =~= seq![cs[0]] + cs.drop_first());
    }
}

proof fn lemma_spec_contents_err(docs: Seq<JsonRep>, j: int)
    requires
        0 <= j < docs.len(),
        spec_content(docs[j]) is None,
    ensures
        spec_contents(docs) is None,
    decreases j,
{
    if j > 0 {
        lemma_spec_contents_err(docs.drop_first(), j - 1);
    }
}

fn decode_contents(items: &Vec<JsonValue>) -> (r: Result<Vec<Content>, ()>)
    ensures
        r matches Ok(cs) ==> spec_contents(json_seq_rep(items@)) == Some(content_seq_rep(cs@)),
        r is Err ==> spec_contents(json_seq_rep(items@)) is None,
{
    let ghost docs = json_seq_rep(items@);
    let mut out: Vec<Content> = Vec::new();
    let mut i: usize = 0;
    while i < items.len()
        invariant
            docs == json_seq_rep(items@),
            docs.len() == items@.len(),
            i <= items@.len(),
            out@.len() == i,
            forall|j: int| 0 <= j < i ==> spec_content(docs[j]) == Some(out@[j]@),
        decreases items@.len() - i,
    {
        match decode_content(&items[i]) {
            Ok(c) => {
                out.push(c);
            },
            Err(_) => {
                proof {
                    lemma_spec_contents_err(docs, i as int);
                }
                return Err(());
            },
        }
        i = i + 1;
    }
    proof {
        lemma_spec_contents_ok(docs, content_seq_rep(out@));
    }
    Ok(out)
}

// ----- message envelopes -----

/// What a document must be to be the full message envelope of a message-start
/// event: required `id`/`type`/`role`/`model` strings, a required `content`
/// array of content blocks, optional stop fields, and a required `usage`
/// object.
pub open spec fn spec_envelope(doc: JsonRep) -> Option<MessageEventResponseRep> {
    if !(doc is Object) {
        None
    } else {
        match (
            spec_req_str(doc, "id"@),
            spec_req_str(doc, "type"@),
            spec_req_str(doc, "role"@),
            spec_req_str(doc, "model"@),
        ) {
            (Some(id), Some(kind), Some(role), Some(model)) => match rep_get(doc, "content"@) {
                Option::Some(JsonRep::Array(items)) => match spec_contents(items) {
                    Option::None => None,
                    Option::Some(content) => match (
                        spec_opt_str(doc, "stop_reason"@),
                        spec_opt_str(doc, "stop_sequence"@),
                    ) {
                        (Some(stop_reason), Some(stop_sequence)) => match rep_get(doc, "usage"@) {
                            Option::None => None,
                            Option::Some(u) => match spec_usage(u) {
                                Option::None => None,
                                Option::Some(usage) => Some(
                                    MessageEventResponseRep {
                                        id,
                                        kind,
                                        role,
                                        content,
                                        model,
                                        stop_reason,
                                        stop_sequence,
                                        usage,
                                    },
                                ),
                            },
                        },
                        _ => None,
                    },
                    _ => None,
                },
                _ => None,
            },
            _ => None,
        }
    }
}

fn decode_envelope(v: &JsonValue) -> (r: Result<MessageEventResponse, ()>)
    ensures
        r matches Ok(m) ==> spec_envelope(v@) == Some(m@),
        r is Err ==> spec_envelope(v@) is None,
{
    match v {
        JsonValue::Object(_) => {},
        _ => {
            return Err(());
        },
    }
    let id = match get_req_str(v, "id") {
        Ok(s) => s,
        Err(_) => {
            return Err(());
        },
    };
    let kind = match get_req_str(v, "type") {
        Ok(s) => s,
        Err(_) => {
            return Err(());
        },
    };
    let role = match get_req_str(v, "role") {
        Ok(s) => s,
        Err(_) => {
            return Err(());
        },
    };
    let model = match get_req_str(v, "model") {
        Ok(s) => s,
        Err(_) => {
            return Err(());
        },
    };
    let content = match v.get_field("content") {
        Some(f) => match f {
            JsonValue::Array(items) => match decode_contents(items) {
                Ok(cs) => cs,
                Err(_) => {
                    return Err(());
                },
            },
            _ => {
                return Err(());
            },
        },
        None => {
            return Err(());
        },
    };
    let stop_reason = match get_opt_str(v, "stop_reason") {
        Ok(o) => o,
        Err(_) => {
            return Err(());
        },
    };
    let stop_sequence = match get_opt_str(v, "stop_sequence") {
        Ok(o) => o,
        Err(_) => {
            return Err(());
        },
    };
    let usage = match v.get_field("usage") {
        Some(f) => match decode_usage(f) {
            Ok(u) => u,
            Err(_) => {
                return Err(());
            },
        },
        None => {
            return Err(());
        },
    };
    Ok(MessageEventResponse { id, kind, role, content, model, stop_reason, stop_sequence, usage })
}

/// What a document must be to be the response of the non-streaming message
/// call: as the envelope, but with a single `content` block.
pub open spec fn spec_message_response(doc: JsonRep) -> Option<MessageResponseRep> {
    if !(doc is Object) {
        None
    } else {
        match (
            spec_req_str(doc, "id"@),
            spec_req_str(doc, "type"@),
            spec_req_str(doc, "role"@),
            spec_req_str(doc, "model"@),
        ) {
            (Some(id), Some(kind), Some(role), Some(model)) => match rep_get(doc, "content"@) {
                Option::None => None,
                Option::Some(c) => match spec_content(c) {
                    Option::None => None,
                    Option::Some(content) => match (
                        spec_opt_str(doc, "stop_reason"@),
                        spec_opt_str(doc, "stop_sequence"@),
                    ) {
                        (Some(stop_reason), Some(stop_sequence)) => match rep_get(doc, "usage"@) {
                            Option::None => None,
                            Option::Some(u) => match spec_usage(u) {
                                Option::None => None,
                                Option::Some(usage) => Some(
                                    MessageResponseRep {
                                        id,
                                        kind,
                                        role,
                                        content,
                                        model,
                                        stop_reason,
                                        stop_sequence,
                                        usage,
                                    },
                                ),
                            },
                        },
                        _ => None,
                    },
                },
            },
            _ => None,
        }
    }
}

/// Decode the response document of the non-streaming message call.
pub fn message_response_from_json(v: &JsonValue) -> (r: Option<MessageResponse>)
    ensures
        r matches Some(m) ==> spec_message_response(v@) == Some(m@),
        r is None ==> spec_message_response(v@) is None,
{
    match v {
        JsonValue::Object(_) => {},
        _ => {
            return None;
        },
    }
    let id = match get_req_str(v, "id") {
        Ok(s) => s,
        Err(_) => {
            return None;
        },
    };
    let kind = match get_req_str(v, "type") {
        Ok(s) => s,
        Err(_) => {
            return None;
        },
    };
    let role = match get_req_str(v, "role") {
        Ok(s) => s,
        Err(_) => {
            return None;
        },
    };
    let model = match get_req_str(v, "model") {
        Ok(s) => s,
        Err(_) => {
            return None;
        },
    };
    let content = match v.get_field("content") {
        Some(f) => match decode_content(f) {
            Ok(c) => c,
            Err(_) => {
                return None;
            },
        },
        None => {
            return None;
        },
    };
    let stop_reason = match get_opt_str(v, "stop_reason") {
        Ok(o) => o,
        Err(_) => {
            return None;
        },
    };
    let stop_sequence = match get_opt_str(v, "stop_sequence") {
        Ok(o) => o,
        Err(_) => {
            return None;
        },
    };
    let usage = match v.get_field("usage") {
        Some(f) => match decode_usage(f) {
            Ok(u) => u,
            Err(_) => {
                return None;
            },
        },
        None => {
            return None;
        },
    };
    Some(MessageResponse { id, kind, role, content, model, stop_reason, stop_sequence, usage })
}

// ----- the event itself -----

/// The event kind named by a wire tag: the snake_case spelling of the
/// variant.
pub open spec fn spec_tag_kind(tag: Seq<char>) -> Option<MessageEventType> {
    if tag == "error"@ {
        Some(MessageEventType::Error)
    } else if tag == "message_start"@ {
        Some(MessageEventType::MessageStart)
    } else if tag == "message_delta"@ {
        Some(MessageEventType::MessageDelta)
    } else if tag == "message_stop"@ {
        Some(MessageEventType::MessageStop)
    } else if tag == "ping"@ {
        Some(MessageEventType::Ping)
    } else if tag == "content_block_start"@ {
        Some(MessageEventType::ContentBlockStart)
    } else if tag == "content_block_delta"@ {
        Some(MessageEventType::ContentBlockDelta)
    } else if tag == "content_block_stop"@ {
        Some(MessageEventType::ContentBlockStop)
    } else if tag == "comment"@ {
        Some(MessageEventType::Comment)
    } else {
        None
    }
}

fn tag_kind(tag: &str) -> (r: Option<MessageEventType>)
    ensures
        r == spec_tag_kind(tag@),
{
    if str_eq(tag, "error") {
        Some(MessageEventType::Error)
    } else if str_eq(tag, "message_start") {
        Some(MessageEventType::MessageStart)
    } else if str_eq(tag, "message_delta") {
        Some(MessageEventType::MessageDelta)
    } else if str_eq(tag, "message_stop") {
        Some(MessageEventType::MessageStop)
    } else if str_eq(tag, "ping") {
        Some(MessageEventType::Ping)
    } else if str_eq(tag, "content_block_start") {
        Some(MessageEventType::ContentBlockStart)
    } else if str_eq(tag, "content_block_delta") {
        Some(MessageEventType::ContentBlockDelta)
    } else if str_eq(tag, "content_block_stop") {
        Some(MessageEventType::ContentBlockStop)
    } else if str_eq(tag, "comment") {
        Some(MessageEventType::Comment)
    } else {
        None
    }
}

/// An optional message-envelope field.
pub open spec fn spec_opt_message(doc: JsonRep, key: Seq<char>) -> Option<
    Option<MessageEventResponseRep>,
> {
    match rep_get(doc, key) {
        Option::None => Some(None),
        Option::Some(JsonRep::Null) => Some(None),
        Option::Some(inner) => match spec_envelope(inner) {
            Option::None => None,
            Option::Some(m) => Some(Some(m)),
        },
    }
}

/// An optional content-block field.
pub open spec fn spec_opt_content(doc: JsonRep, key: Seq<char>) -> Option<Option<ContentRep>> {
    match rep_get(doc, key) {
        Option::None => Some(None),
        Option::Some(JsonRep::Null) => Some(None),
        Option::Some(inner) => match spec_content(inner) {
            Option::None => None,
            Option::Some(c) => Some(Some(c)),
        },
    }
}

/// An optional delta field.
pub open spec fn spec_opt_delta(doc: JsonRep, key: Seq<char>) -> Option<Option<DeltaRep>> {
    match rep_get(doc, key) {
        Option::None => Some(None),
        Option::Some(JsonRep::Null) => Some(None),
        Option::Some(inner) => match spec_delta(inner) {
            Option::None => None,
            Option::Some(d) => Some(Some(d)),
        },
    }
}

/// An optional usage field.
pub open spec fn spec_opt_usage(doc: JsonRep, key: Seq<char>) -> Option<Option<Usage>> {
    match rep_get(doc, key) {
        Option::None => Some(None),
        Option::Some(JsonRep::Null) => Some(None),
        Option::Some(inner) => match spec_usage(inner) {
            Option::None => None,
            Option::Some(u) => Some(Some(u)),
        },
    }
}

/// What a document must be to be a stream event: an object whose required
/// `type` tag names the kind and whose optional payload fields are each well
/// shaped.
pub open spec fn spec_event(doc: JsonRep) -> Option<MessageEventRep> {
    if !(doc is Object) {
        None
    } else {
        match spec_req_str(doc, "type"@) {
            Option::None => None,
            Option::Some(tag) => match spec_tag_kind(tag) {
                Option::None => None,
                Option::Some(kind) => match (
                    spec_opt_message(doc, "message"@),
                    spec_opt_i32(doc, "index"@),
                    spec_opt_content(doc, "content_block"@),
                    spec_opt_delta(doc, "delta"@),
                    spec_opt_usage(doc, "usage"@),
                    spec_opt_str(doc, "comment"@),
                ) {
                    (
                        Some(message),
                        Some(index),
                        Some(content_block),
                        Some(delta),
                        Some(usage),
                        Some(comment),
                    ) => Some(
                        MessageEventRep {
                            kind,
                            message,
                            index,
                            content_block,
                            delta,
                            usage,
                            comment,
                        },
                    ),
                    _ => None,
                },
            },
        }
    }
}

/// Decode an already-parsed document as a stream event.
pub fn event_from_json(v: &JsonValue) -> (r: Option<MessageEvent>)
    ensures
        r matches Some(ev) ==> spec_event(v@) == Some(ev@),
        r is None ==> spec_event(v@) is None,
{
    match v {
        JsonValue::Object(_) => {},
        _ => {
            return None;
        },
    }
    let tag = match get_req_str(v, "type") {
        Ok(s) => s,
        Err(_) => {
            return None;
        },
    };
    let kind = match tag_kind(tag.as_str()) {
        Some(k) => k,
        None => {
            return None;
        },
    };
    let message = match v.get_field("message") {
        None => None,
        Some(f) => match f {
            JsonValue::Null => None,
            _ => match decode_envelope(f) {
                Ok(m) => Some(m),
                Err(_) => {
                    return None;
                },
            },
        },
    };
    let index = match get_opt_i32(v, "index") {
        Ok(o) => o,
        Err(_) => {
            return None;
        },
    };
    let content_block = match v.get_field("content_block") {
        None => None,
        Some(f) => match f {
            JsonValue::Null => None,
            _ => match decode_content(f) {
                Ok(c) => Some(c),
                Err(_) => {
                    return None;
                },
            },
        },
    };
    let delta = match v.get_field("delta") {
        None => None,
        Some(f) => match f {
            JsonValue::Null => None,
            _ => match decode_delta(f) {
                Ok(d) => Some(d),
                Err(_) => {
                    return None;
                },
            },
        },
    };
    let usage = match v.get_field("usage") {
        None => None,
        Some(f) => match f {
            JsonValue::Null => None,
            _ => match decode_usage(f) {
                Ok(u) => Some(u),
                Err(_) => {
                    return None;
                },
            },
        },
    };
    let comment = match get_opt_str(v, "comment") {
        Ok(o) => o,
        Err(_) => {
            return None;
        },
    };
    Some(MessageEvent { kind, message, index, content_block, delta, usage, comment })
}

// ----- from the wire text to an event -----

/// The note carried by a decoder-made error sentinel.
pub open spec fn decode_failure_note(data: Seq<char>) -> Seq<char> {
    "fail to deserialize event: "@ + data
}

/// The error sentinel substituted for a payload that does not decode.
pub open spec fn error_event_rep(data: Seq<char>) -> MessageEventRep {
    MessageEventRep {
        comment: Some(decode_failure_note(data)),
        ..bare_event_rep(MessageEventType::Error)
    }
}

/// Build the error sentinel for a payload.
pub fn decode_error_event(data: &str) -> (ev: MessageEvent)
    ensures
        ev@ == error_event_rep(data@),
{
    let mut note = String::from_str("fail to deserialize event: ");
    note.append(data);
    let mut ev = MessageEvent::new(MessageEventType::Error);
    ev.comment = Some(note);
    ev
}

/// What decoding a wire payload yields: the decoded event where the text is a
/// JSON document of the event shape, and the error sentinel otherwise. Total:
/// one bad payload never terminates the stream.
pub open spec fn spec_decode_data(data: Seq<char>) -> MessageEventRep {
    match json_doc_of(data) {
        Option::Some(doc) => match spec_event(doc) {
            Option::Some(ev) => ev,
            Option::None => error_event_rep(data),
        },
        Option::None => error_event_rep(data),
    }
}

/// Decode one wire payload, substituting the error sentinel on any failure.
pub fn decode_data(data: &str) -> (ev: MessageEvent)
    ensures
        ev@ == spec_decode_data(data@),
{
    match parse_json(data) {
        Some(doc) => match event_from_json(&doc) {
            Some(ev) => ev,
            None => decode_error_event(data),
        },
        None => decode_error_event(data),
    }
}

/// A payload that is not a JSON document never raises: it always yields the
/// error sentinel that carries the payload, and — the decoder being a
/// function of the payload text alone — the same malformed payload always
/// yields the same sentinel.
pub proof fn lemma_decode_error_is_sentinel(data: Seq<char>)
    requires
        json_doc_of(data) is None,
    ensures
        spec_decode_data(data) == error_event_rep(data),
        spec_decode_data(data).kind == MessageEventType::Error,
        spec_decode_data(data).comment == Some(decode_failure_note(data)),
{
}

} // verus!
