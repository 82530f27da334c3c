//! The delta projector: from decoded events to the text a consumer displays.
//!
//! A content-block-delta event carrying text projects to exactly that text;
//! every other event projects to the empty string, which the consumer treats
//! as a no-op. Deltas are projected in arrival order, one output per event;
//! deltas of different content blocks are not grouped or reordered.

use vstd::prelude::*;

use crate::decode::decode_data;
use crate::decode::spec_decode_data;
use crate::events::DeltaRep;
use crate::events::MessageEvent;
use crate::events::MessageEventRep;
use crate::events::MessageEventType;
use crate::events::bare_event_rep;
use crate::sse::RawFrame;
use crate::sse::RawFrameRep;

verus! {

/// What the projector emits for one event: the delta text of a
/// content-block-delta, the empty string otherwise.
pub open spec fn spec_delta_text(ev: MessageEventRep) -> Seq<char> {
    if ev.kind == MessageEventType::ContentBlockDelta {
        match ev.delta {
            Some(d) => match d.text {
                Some(t) => t,
                None => Seq::empty(),
            },
            None => Seq::empty(),
        }
    } else {
        Seq::empty()
    }
}

/// Project one event to the text to display for it.
pub fn delta_text(ev: &MessageEvent) -> (out: String)
    ensures
        out@ == spec_delta_text(ev@),
{
    match ev.kind {
        MessageEventType::ContentBlockDelta => match &ev.delta {
            Some(d) => match &d.text {
                Some(t) => t.clone(),
                None => String::new(),
            },
            None => String::new(),
        },
        _ => String::new(),
    }
}

/// Project a sequence of events, one output per event, in arrival order.
pub fn project_deltas(events: &Vec<MessageEvent>) -> (out: Vec<String>)
    ensures
        out@.len() == events@.len(),
        forall|i: int| 0 <= i < events@.len() ==> out@[i]@ == spec_delta_text(events@[i]@),
{
    let mut out: Vec<String> = Vec::new();
    let mut i: usize = 0;
    while i < events.len()
        invariant
            i <= events@.len(),
            out@.len() == i,
            forall|j: int| 0 <= j < i ==> out@[j]@ == spec_delta_text(events@[j]@),
        decreases events@.len() - i,
    {
        let t = delta_text(&events[i]);
        out.push(t);
        i = i + 1;
    }
    out
}

/// What decoding one raw frame yields: an event frame's payload is decoded
/// (with the error sentinel on failure), a comment frame becomes a
/// comment-kind event.
pub open spec fn spec_decode_frame(f: RawFrameRep) -> MessageEventRep {
    match f {
        RawFrameRep::Event { event_name, data } => spec_decode_data(data),
        RawFrameRep::Comment { text } => MessageEventRep {
            comment: Some(text),
            ..bare_event_rep(MessageEventType::Comment)
        },
    }
}

/// Decode one raw frame into a message event. Total: this stage never fails
/// the stream.
pub fn decode_frame(frame: RawFrame) -> (ev: MessageEvent)
    ensures
        ev@ == spec_decode_frame(frame@),
{
    match frame {
        RawFrame::Event { event_name: _, data } => decode_data(data.as_str()),
        RawFrame::Comment { text } => MessageEvent::with_comment(text),
    }
}

/// Decode a sequence of raw frames, one event per frame, in arrival order:
/// decoding is stateless across frames and reorders nothing.
pub fn decode_frames(frames: &Vec<RawFrame>) -> (out: Vec<MessageEvent>)
    ensures
        out@.len() == frames@.len(),
        forall|i: int| 0 <= i < frames@.len() ==> out@[i]@ == spec_decode_frame(frames@[i]@),
{
    let mut out: Vec<MessageEvent> = Vec::new();
    let mut i: usize = 0;
    while i < frames.len()
        invariant
            i <= frames@.len(),
            out@.len() == i,
            forall|j: int| 0 <= j < i ==> out@[j]@ == spec_decode_frame(frames@[j]@),
        decreases frames@.len() - i,
    {
        let ev = match &frames[i] {
            RawFrame::Event { event_name: _, data } => decode_data(data.as_str()),
            RawFrame::Comment { text } => MessageEvent::with_comment(text.clone()),
        };
        out.push(ev);
        i = i + 1;
    }
    out
}

/// What one raw frame contributes to the projected text stream.
pub open spec fn spec_frame_delta(f: RawFrameRep) -> Seq<char> {
    spec_delta_text(spec_decode_frame(f))
}

/// Decode one raw frame and project it: the per-frame step of the delta
/// stream.
pub fn frame_delta_text(frame: RawFrame) -> (out: String)
    ensures
        out@ == spec_frame_delta(frame@),
{
    let ev = decode_frame(frame);
    delta_text(&ev)
}

/// For every content-block-delta event that carries text, the projector
/// emits exactly that text, unmodified; order is by construction that of the
/// input (see `project_deltas`, whose output is index-for-index).
pub proof fn lemma_projector_emits_delta_text(ev: MessageEventRep, d: DeltaRep, t: Seq<char>)
    requires
        ev.kind == MessageEventType::ContentBlockDelta,
        ev.delta == Some(d),
        d.text == Some(t),
    ensures
        spec_delta_text(ev) == t,
{
}

/// For every event that is not a content-block-delta, or whose delta carries
/// no text or empty text, the projector emits the empty string.
pub proof fn lemma_projector_silent_otherwise(ev: MessageEventRep)
    requires
        ev.kind != MessageEventType::ContentBlockDelta || ev.delta is None || (ev.delta
            matches Some(d) && d.text is None) || (ev.delta matches Some(d) && d.text
            matches Some(t) && t.len() == 0),
    ensures
        spec_delta_text(ev).len() == 0,
{
}

} // verus!
