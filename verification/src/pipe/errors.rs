//! What goes wrong on the pipe.

use vstd::prelude::*;

verus! {

/// A failure of the pipe, with the system's description of it.
#[derive(Debug, Clone, PartialEq, Eq)]
pub enum PipeError {
    /// The pipe could not be opened.
    ConnectionFailed(String),
    /// Reading from or writing to the pipe failed.
    TransportError(String),
}

/// The text of a pipe failure: the system's description.
pub open spec fn pipe_error_text(e: PipeError) -> Seq<char> {
    match e {
        PipeError::ConnectionFailed(s) => s@,
        PipeError::TransportError(s) => s@,
    }
}

impl PipeError {
    /// The text of this failure.
    pub fn to_string(&self) -> (s: String)
        ensures
            s@ == pipe_error_text(*self),
    {
        match self {
            PipeError::ConnectionFailed(e) => e.clone(),
            PipeError::TransportError(e) => e.clone(),
        }
    }
}

} // verus!
