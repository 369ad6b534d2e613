//! The JSON payloads that the frames carry.

use vstd::prelude::*;

verus! {

/// Any JSON value, carried through as it is.
#[verifier::external_type_specification]
#[verifier::external_body]
pub struct ExJsonValue(serde_json::Value);

/// A command of the RPC.
#[derive(Debug, Clone, Copy, PartialEq, Eq, Structural)]
pub enum RpcCommand {
    Dispatch,
    SetActivity,
}

/// The payload of a frame.
#[derive(Debug, Clone, PartialEq)]
pub enum Payload {
    /// The handshake that opens the conversation.
    Handshake { version: u32, client_id: String },
    /// A command sent, or an event received.
    Event {
        cmd: RpcCommand,
        data: Option<serde_json::Value>,
        args: Option<serde_json::Value>,
        evt: Option<String>,
        nonce: Option<String>,
    },
    /// An error received.
    Error { code: usize, message: Option<String> },
}

} // verus!
