//! What goes wrong in the RPC.

use vstd::prelude::*;

use crate::digits::{decimal, push_decimal};
use crate::pipe::errors::{pipe_error_text, PipeError};

verus! {

/// An error that Discord answered.
#[derive(Debug, Clone, PartialEq, Eq)]
pub struct RpcError {
    pub code: usize,
    pub message: Option<String>,
}

/// A failed handshake.
#[derive(Debug, Clone, PartialEq, Eq)]
pub enum HandshakeError {
    /// Discord answered another event than the one expected.
    ProtocolError { expected: &'static str, got: String },
    /// Discord answered an error.
    RpcError(RpcError),
    /// The frames could not be exchanged.
    TransportError(TransportError),
}

/// A failure to exchange frames.
#[derive(Debug, Clone, PartialEq, Eq)]
pub enum TransportError {
    /// A payload was not valid JSON of the expected shape; the parser's description.
    ParseError(String),
    /// The pipe failed.
    PipeError(PipeError),
}

/// The text of an error that Discord answered: its message ("Unknown" if it
/// has none), then its code.
pub open spec fn rpc_error_text(e: RpcError) -> Seq<char> {
    let message = match e.message {
        Some(m) => m@,
        None => "Unknown"@,
    };
    message + " (code: "@ + decimal(e.code as nat) + ")"@
}

/// The text of a transport failure.
pub open spec fn transport_error_text(e: TransportError) -> Seq<char> {
    match e {
        TransportError::ParseError(m) => "Parse error: "@ + m@,
        TransportError::PipeError(p) => pipe_error_text(p),
    }
}

/// The text of a failed handshake.
pub open spec fn handshake_error_text(e: HandshakeError) -> Seq<char> {
    match e {
        HandshakeError::ProtocolError { expected, got } => "Unexpected value: "@ + got@
            + ", expected: "@ + expected@,
        HandshakeError::RpcError(r) => rpc_error_text(r),
        HandshakeError::TransportError(t) => transport_error_text(t),
    }
}

impl RpcError {
    /// The text of this error.
    pub fn to_string(&self) -> (s: String)
        ensures
            s@ == rpc_error_text(*self),
    {
        let mut s = match &self.message {
            Some(m) => m.clone(),
            None => String::from_str("Unknown"),
        };
        s.append(" (code: ");
        push_decimal(&mut s, self.code as u128);
        s.append(")");
        s
    }
}

impl TransportError {
    /// The text of this failure.
    pub fn to_string(&self) -> (s: String)
        ensures
            s@ == transport_error_text(*self),
    {
        match self {
            TransportError::ParseError(m) => String::from_str("Parse error: ").concat(m.as_str()),
            TransportError::PipeError(p) => p.to_string(),
        }
    }
}

impl HandshakeError {
    /// The text of this failure.
    pub fn to_string(&self) -> (s: String)
        ensures
            s@ == handshake_error_text(*self),
    {
        match self {
            HandshakeError::ProtocolError { expected, got } => {
                let mut s = String::from_str("Unexpected value: ");
                s.append(got.as_str());
                s.append(", expected: ");
                s.append(expected);
                s
            },
            HandshakeError::RpcError(e) => e.to_string(),
            HandshakeError::TransportError(e) => e.to_string(),
        }
    }
}

impl From<RpcError> for HandshakeError {
    fn from(e: RpcError) -> (h: Self) {
        HandshakeError::RpcError(e)
    }
}

impl vstd::std_specs::convert::FromSpecImpl<RpcError> for HandshakeError {
    open spec fn obeys_from_spec() -> bool {
        true
    }

    open spec fn from_spec(e: RpcError) -> HandshakeError {
        HandshakeError::RpcError(e)
    }
}

impl From<TransportError> for HandshakeError {
    fn from(e: TransportError) -> (h: Self) {
        HandshakeError::TransportError(e)
    }
}

impl vstd::std_specs::convert::FromSpecImpl<TransportError> for HandshakeError {
    open spec fn obeys_from_spec() -> bool {
        true
    }

    open spec fn from_spec(e: TransportError) -> HandshakeError {
        HandshakeError::TransportError(e)
    }
}

impl From<PipeError> for TransportError {
    fn from(e: PipeError) -> (t: Self) {
        TransportError::PipeError(e)
    }
}

impl vstd::std_specs::convert::FromSpecImpl<PipeError> for TransportError {
    open spec fn obeys_from_spec() -> bool {
        true
    }

    open spec fn from_spec(e: PipeError) -> TransportError {
        TransportError::PipeError(e)
    }
}

} // verus!
