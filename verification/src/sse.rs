//! Wire-level framing of a server-sent-event stream.
//!
//! A stream is a sequence of lines. A frame is a block of lines terminated by
//! a blank line: `data:` lines are concatenated with newline separators,
//! `event:` sets the frame's event name, lines starting with `:` are comments
//! and are delivered immediately, and any other field line is ignored. The
//! frame builder below consumes one line at a time and yields frames as they
//! complete; the step it takes is pinned down by `spec_sse_step`.

use vstd::prelude::*;
use vstd::string::StrSliceExecFns;

use crate::json::str_eq;

verus! {

/// One raw protocol frame, as handed from the transport to the decoder.
#[derive(Debug, Clone)]
pub enum RawFrame {
    /// A `data:` block, with the event name if one was set.
    Event { event_name: Option<String>, data: String },
    /// A `:` comment line.
    Comment { text: String },
}

/// Model of `RawFrame`.
pub enum RawFrameRep {
    Event { event_name: Option<Seq<char>>, data: Seq<char> },
    Comment { text: Seq<char> },
}

impl View for RawFrame {
    type V = RawFrameRep;

    open spec fn view(&self) -> RawFrameRep {
        match self {
            RawFrame::Event { event_name, data } => RawFrameRep::Event {
                event_name: match event_name {
                    Some(n) => Some(n@),
                    None => None,
                },
                data: data@,
            },
            RawFrame::Comment { text } => RawFrameRep::Comment { text: text@ },
        }
    }
}

/// Index of the first `:` in a line, or the line's length if there is none.
pub open spec fn first_colon(line: Seq<char>) -> int
    decreases line.len(),
{
    if line.len() == 0 {
        0
    } else if line[0] == ':' {
        0
    } else {
        1 + first_colon(line.drop_first())
    }
}

proof fn lemma_first_colon_bounds(line: Seq<char>)
    ensures
        0 <= first_colon(line) <= line.len(),
    decreases line.len(),
{
    if line.len() > 0 && line[0] != ':' {
        lemma_first_colon_bounds(line.drop_first());
    }
}

proof fn lemma_first_colon_at(line: Seq<char>, i: int)
    requires
        0 <= i < line.len(),
        line[i] == ':',
        forall|j: int| 0 <= j < i ==> line[j] != ':',
    ensures
        first_colon(line) == i,
    decreases i,
{
    if i > 0 {
        lemma_first_colon_at(line.drop_first(), i - 1);
    }
}

proof fn lemma_first_colon_absent(line: Seq<char>)
    requires
        forall|j: int| 0 <= j < line.len() ==> line[j] != ':',
    ensures
        first_colon(line) == line.len(),
    decreases line.len(),
{
    if line.len() > 0 {
        lemma_first_colon_absent(line.drop_first());
    }
}

/// The field name of a line: everything before the first `:`.
pub open spec fn line_name(line: Seq<char>) -> Seq<char> {
    line.take(first_colon(line))
}

/// The field value of a line: everything after the first `:`, minus one
/// leading space; empty if the line has no `:`.
pub open spec fn line_value(line: Seq<char>) -> Seq<char> {
    let p = first_colon(line);
    if p >= line.len() {
        Seq::empty()
    } else {
        let raw = line.skip(p + 1);
        if raw.len() > 0 && raw[0] == ' ' {
            raw.drop_first()
        } else {
            raw
        }
    }
}

fn find_colon(line: &str) -> (p: usize)
    ensures
        p as int == first_colon(line@),
{
    let len = line.unicode_len();
    let mut i: usize = 0;
    while i < len
        invariant
            len == line@.len(),
            i <= len,
            forall|j: int| 0 <= j < i ==> line@[j] != ':',
        decreases len - i,
    {
        if line.get_char(i) == ':' {
            proof {
                lemma_first_colon_at(line@, i as int);
            }
            return i;
        }
        i = i + 1;
    }
    proof {
        lemma_first_colon_absent(line@);
    }
    len
}

/// Accumulates the `event:` name and `data:` lines of the frame being read.
/// `data` is `None` while no `data:` line of the current block has been seen.
#[derive(Debug)]
pub struct FrameBuilder {
    pub event_name: Option<String>,
    pub data: Option<String>,
}

/// Model of `FrameBuilder`.
pub struct FrameBuilderRep {
    pub event_name: Option<Seq<char>>,
    pub data: Option<Seq<char>>,
}

impl View for FrameBuilder {
    type V = FrameBuilderRep;

    open spec fn view(&self) -> FrameBuilderRep {
        FrameBuilderRep {
            event_name: match self.event_name {
                Some(n) => Some(n@),
                None => None,
            },
            data: match self.data {
                Some(d) => Some(d@),
                None => None,
            },
        }
    }
}

/// The state in which nothing of a frame has been read.
pub open spec fn empty_builder_rep() -> FrameBuilderRep {
    FrameBuilderRep { event_name: None, data: None }
}

/// One step of the framing: what the builder's state becomes on reading a
/// line, and which frame (if any) the line completes.
///
/// A blank line dispatches the accumulated `data:` lines (with `\n` between
/// them) as an event frame and clears the builder; with no data accumulated
/// it only clears the builder. A `:` comment line yields a comment frame at
/// once and leaves the builder as it is. A `data:`/`event:` line accumulates.
/// Any other field line is ignored, as the protocol asks.
pub open spec fn spec_sse_step(st: FrameBuilderRep, line: Seq<char>) -> (FrameBuilderRep, Option<
    RawFrameRep,
>) {
    if line.len() == 0 {
        match st.data {
            Some(d) => (
                empty_builder_rep(),
                Some(RawFrameRep::Event { event_name: st.event_name, data: d }),
            ),
            None => (empty_builder_rep(), None),
        }
    } else if first_colon(line) == 0 {
        (st, Some(RawFrameRep::Comment { text: line_value(line) }))
    } else if line_name(line) == "data"@ {
        let appended = match st.data {
            Some(d) => d + "\n"@ + line_value(line),
            None => line_value(line),
        };
        (FrameBuilderRep { event_name: st.event_name, data: Some(appended) }, None)
    } else if line_name(line) == "event"@ {
        (FrameBuilderRep { event_name: Some(line_value(line)), data: st.data }, None)
    } else {
        (st, None)
    }
}

impl FrameBuilder {
    /// A builder with nothing read yet.
    pub fn new() -> (b: Self)
        ensures
            b@ == empty_builder_rep(),
    {
        FrameBuilder { event_name: None, data: None }
    }

    /// Read one line (without its terminator); returns the frame the line
    /// completes, if any.
    pub fn push_line(&mut self, line: &str) -> (out: Option<RawFrame>)
        ensures
            final(self)@ == spec_sse_step(old(self)@, line@).0,
            match out {
                Some(f) => spec_sse_step(old(self)@, line@).1 == Some(f@),
                None => spec_sse_step(old(self)@, line@).1 is None,
            },
    {
        let len = line.unicode_len();
        if len == 0 {
            let name = self.event_name.take();
            let data = self.data.take();
            match data {
                Some(d) => {
                    return Some(RawFrame::Event { event_name: name, data: d });
                },
                None => {
                    return None;
                },
            }
        }
        let p = find_colon(line);
        proof {
            lemma_first_colon_bounds(line@);
        }
        let value_start = if p < len {
            if p + 1 < len && line.get_char(p + 1) == ' ' {
                p + 2
            } else {
                p + 1
            }
        } else {
            len
        };
        let value = line.substring_char(value_start, len).to_owned();
        proof {
            assert(line@.skip(p as int + 1) =~= line@.subrange(p as int + 1, len as int));
            if p < len {
                assert(value@ =~= line_value(line@));
            } else {
                assert(value@ =~= line_value(line@));
            }
        }
        if p == 0 {
            return Some(RawFrame::Comment { text: value });
        }
        let name = line.substring_char(0, p);
        proof {
            assert(line@.take(p as int) =~= line@.subrange(0, p as int));
        }
        if str_eq(name, "data") {
            let appended = match self.data.take() {
                Some(d) => {
                    let mut s = d;
                    s.append("\n");
                    s.append(value.as_str());
                    s
                },
                None => value,
            };
            self.data = Some(appended);
            return None;
        }
        if str_eq(name, "event") {
            self.event_name = Some(value);
            return None;
        }
        None
    }
}

} // verus!
