//! The outcome of one HTTP request, as plain values. The caller that owns
//! the sockets performs the request and hands the library one of these;
//! response handling from here on is pure and verified.

use vstd::prelude::*;

verus! {

/// What one HTTP request came back with.
#[derive(Debug, Clone)]
pub enum HttpOutcome {
    /// A success response, with its body text.
    Success { body: String },
    /// An error-status response, with the status code and the body text.
    Status { code: u16, body: String },
    /// No response: a transport-level failure, with its description.
    Transport { note: String },
}

/// Model of `HttpOutcome`.
pub enum HttpOutcomeRep {
    Success { body: Seq<char> },
    Status { code: u16, body: Seq<char> },
    Transport { note: Seq<char> },
}

impl View for HttpOutcome {
    type V = HttpOutcomeRep;

    open spec fn view(&self) -> HttpOutcomeRep {
        match self {
            HttpOutcome::Success { body } => HttpOutcomeRep::Success { body: body@ },
            HttpOutcome::Status { code, body } => HttpOutcomeRep::Status {
                code: *code,
                body: body@,
            },
            HttpOutcome::Transport { note } => HttpOutcomeRep::Transport { note: note@ },
        }
    }
}

} // verus!
