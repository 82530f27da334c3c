//! Typed message events of the streaming chat API.
//!
//! Each decoded wire frame becomes one `MessageEvent`, classified by
//! `MessageEventType`. Every type here has a mathematical model (`...Rep`)
//! that the decoder's and projector's contracts are stated over.

use vstd::prelude::*;

verus! {

/// Kind of a decoded stream event. The wire tag is the snake_case spelling of
/// the variant name.
#[derive(Debug, Clone, Copy, PartialEq, Eq, Structural)]
pub enum MessageEventType {
    Error,
    MessageStart,
    MessageDelta,
    MessageStop,
    Ping,
    ContentBlockStart,
    ContentBlockDelta,
    ContentBlockStop,
    Comment,
}

/// Billing and rate-limit token counts.
#[derive(Debug, Clone, Copy, PartialEq, Eq, Structural)]
pub struct Usage {
    pub input_tokens: Option<u32>,
    pub output_tokens: Option<u32>,
}

/// One block of generated content.
#[derive(Debug, Clone)]
pub struct Content {
    /// Determines the content shape; the wire field is named `type`.
    pub kind: String,
    pub text: Option<String>,
}

/// Model of `Content`.
pub struct ContentRep {
    pub kind: Seq<char>,
    pub text: Option<Seq<char>>,
}

/// Model of an optional owned string.
pub open spec fn opt_str_rep(o: Option<String>) -> Option<Seq<char>> {
    match o {
        Some(s) => Some(s@),
        None => None,
    }
}

impl View for Content {
    type V = ContentRep;

    open spec fn view(&self) -> ContentRep {
        ContentRep { kind: self.kind@, text: opt_str_rep(self.text) }
    }
}

/// The full message envelope carried by a message-start event.
#[derive(Debug, Clone)]
pub struct MessageEventResponse {
    pub id: String,
    /// Object type; the wire field is named `type`.
    pub kind: String,
    pub role: String,
    pub content: Vec<Content>,
    pub model: String,
    pub stop_reason: Option<String>,
    pub stop_sequence: Option<String>,
    pub usage: Usage,
}

/// Model of `MessageEventResponse`.
pub struct MessageEventResponseRep {
    pub id: Seq<char>,
    pub kind: Seq<char>,
    pub role: Seq<char>,
    pub content: Seq<ContentRep>,
    pub model: Seq<char>,
    pub stop_reason: Option<Seq<char>>,
    pub stop_sequence: Option<Seq<char>>,
    pub usage: Usage,
}

impl View for MessageEventResponse {
    type V = MessageEventResponseRep;

    open spec fn view(&self) -> MessageEventResponseRep {
        MessageEventResponseRep {
            id: self.id@,
            kind: self.kind@,
            role: self.role@,
            content: Seq::new(self.content@.len(), |i: int| self.content@[i]@),
            model: self.model@,
            stop_reason: opt_str_rep(self.stop_reason),
            stop_sequence: opt_str_rep(self.stop_sequence),
            usage: self.usage,
        }
    }
}

/// The response of the non-streaming message call.
#[derive(Debug, Clone)]
pub struct MessageResponse {
    pub id: String,
    /// Object type; the wire field is named `type`.
    pub kind: String,
    pub role: String,
    pub content: Content,
    pub model: String,
    pub stop_reason: Option<String>,
    pub stop_sequence: Option<String>,
    pub usage: Usage,
}

/// Model of `MessageResponse`.
pub struct MessageResponseRep {
    pub id: Seq<char>,
    pub kind: Seq<char>,
    pub role: Seq<char>,
    pub content: ContentRep,
    pub model: Seq<char>,
    pub stop_reason: Option<Seq<char>>,
    pub stop_sequence: Option<Seq<char>>,
    pub usage: Usage,
}

impl View for MessageResponse {
    type V = MessageResponseRep;

    open spec fn view(&self) -> MessageResponseRep {
        MessageResponseRep {
            id: self.id@,
            kind: self.kind@,
            role: self.role@,
            content: self.content@,
            model: self.model@,
            stop_reason: opt_str_rep(self.stop_reason),
            stop_sequence: opt_str_rep(self.stop_sequence),
            usage: self.usage,
        }
    }
}

/// The incremental part carried by delta events.
#[derive(Debug, Clone)]
pub struct Delta {
    /// Determines the content shape; the wire field is named `type`.
    pub kind: Option<String>,
    pub text: Option<String>,
    pub stop_reason: Option<String>,
    pub end_turn: Option<String>,
}

/// Model of `Delta`.
pub struct DeltaRep {
    pub kind: Option<Seq<char>>,
    pub text: Option<Seq<char>>,
    pub stop_reason: Option<Seq<char>>,
    pub end_turn: Option<Seq<char>>,
}

impl View for Delta {
    type V = DeltaRep;

    open spec fn view(&self) -> DeltaRep {
        DeltaRep {
            kind: opt_str_rep(self.kind),
            text: opt_str_rep(self.text),
            stop_reason: opt_str_rep(self.stop_reason),
            end_turn: opt_str_rep(self.end_turn),
        }
    }
}

/// One decoded stream event. Which optional payload is populated follows from
/// `kind`; a decoder that fails to parse a payload relaxes this and produces
/// an `Error`-kind event whose `comment` describes the failure.
#[derive(Debug, Clone)]
pub struct MessageEvent {
    /// Event type; the wire field is named `type`.
    pub kind: MessageEventType,
    /// Initial message envelope, present on message-start.
    pub message: Option<MessageEventResponse>,
    /// Which content block the event applies to.
    pub index: Option<i32>,
    /// Present on content-block-start.
    pub content_block: Option<Content>,
    /// Present on content-block-delta and message-delta.
    pub delta: Option<Delta>,
    pub usage: Option<Usage>,
    /// Present on comment events and on decoder-made error events.
    pub comment: Option<String>,
}

/// Model of `MessageEvent`.
pub struct MessageEventRep {
    pub kind: MessageEventType,
    pub message: Option<MessageEventResponseRep>,
    pub index: Option<i32>,
    pub content_block: Option<ContentRep>,
    pub delta: Option<DeltaRep>,
    pub usage: Option<Usage>,
    pub comment: Option<Seq<char>>,
}

impl View for MessageEvent {
    type V = MessageEventRep;

    open spec fn view(&self) -> MessageEventRep {
        MessageEventRep {
            kind: self.kind,
            message: match self.message {
                Some(m) => Some(m@),
                None => None,
            },
            index: self.index,
            content_block: match self.content_block {
                Some(c) => Some(c@),
                None => None,
            },
            delta: match self.delta {
                Some(d) => Some(d@),
                None => None,
            },
            usage: self.usage,
            comment: opt_str_rep(self.comment),
        }
    }
}

/// Model of an event that carries a kind and nothing else.
pub open spec fn bare_event_rep(kind: MessageEventType) -> MessageEventRep {
    MessageEventRep {
        kind,
        message: None,
        index: None,
        content_block: None,
        delta: None,
        usage: None,
        comment: None,
    }
}

impl MessageEvent {
    /// An event of the given kind with no payload.
    pub fn new(kind: MessageEventType) -> (ev: Self)
        ensures
            ev@ == bare_event_rep(kind),
    {
        MessageEvent {
            kind,
            message: None,
            index: None,
            content_block: None,
            delta: None,
            usage: None,
            comment: None,
        }
    }

    /// A comment event carrying the given text.
    pub fn with_comment(comment: String) -> (ev: Self)
        ensures
            ev@ == (MessageEventRep {
                comment: Some(comment@),
                ..bare_event_rep(MessageEventType::Comment)
            }),
    {
        MessageEvent {
            kind: MessageEventType::Comment,
            message: None,
            index: None,
            content_block: None,
            delta: None,
            usage: None,
            comment: Some(comment),
        }
    }
}

} // verus!
