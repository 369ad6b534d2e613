//! The client side of the RPC: what it sends, and how it judges the answers.

use vstd::prelude::*;

use crate::discord::rpc::errors::{HandshakeError, RpcError};
use crate::discord::rpc::op_code::OpCode;
use crate::discord::rpc::payload::{Payload, RpcCommand};

verus! {

/// The client of one Discord application.
#[derive(Debug, Clone, PartialEq, Eq)]
pub struct RpcClient {
    pub client_id: String,
}

/// Whether the answer to the handshake is accepted: an event other than
/// "READY" and an error are refused, anything else accepted.
pub open spec fn handshake_accepted(payload: Payload) -> bool {
    match payload {
        Payload::Event { evt: Some(evt), .. } => evt@ == "READY"@,
        Payload::Error { .. } => false,
        _ => true,
    }
}

impl RpcClient {
    /// The client of the application `client_id`.
    pub fn new(client_id: String) -> (client: RpcClient)
        ensures
            client.client_id == client_id,
    {
        RpcClient { client_id }
    }

    /// The frame that opens the conversation: a `Hello` with the handshake of
    /// version 1 for this application.
    pub fn handshake_request(&self) -> (request: (OpCode, Payload))
        ensures
            request.0 == OpCode::Hello,
            (request.1 matches Payload::Handshake { version, client_id } && version == 1
                && client_id@ == self.client_id@),
    {
        (OpCode::Hello, Payload::Handshake { version: 1, client_id: self.client_id.clone() })
    }

    /// Judges the answer to the handshake: an event other than "READY" is a
    /// protocol error, an error is passed on, anything else completes the
    /// handshake.
    pub fn handshake_reply(payload: Payload) -> (result: Result<(), HandshakeError>)
        ensures
            result is Ok <==> handshake_accepted(payload),
            (match payload {
                Payload::Event { evt: Some(evt), .. } => evt@ != "READY"@ ==> (result matches Err(
                    HandshakeError::ProtocolError { expected, got },
                ) && expected@ == "READY"@ && got == evt),
                Payload::Error { code, message } => result == Err::<(), HandshakeError>(
                    HandshakeError::RpcError(RpcError { code, message }),
                ),
                _ => true,
            }),
    {
        let ready = String::from_str("READY");
        proof {
            reveal_strlit("READY");
        }
        match payload {
            Payload::Event { evt: Some(evt), .. } => {
                if evt != ready {
                    return Err(HandshakeError::ProtocolError { expected: "READY", got: evt });
                }
            },
            Payload::Error { code, message } => {
                return Err(HandshakeError::RpcError(RpcError { code, message }));
            },
            _ => (),
        }
        Ok(())
    }

    /// The frame that sets the activity: a `Dispatch` of the `SET_ACTIVITY`
    /// command with `args`, stamped with `nonce`.
    pub fn set_activity_request(args: serde_json::Value, nonce: String) -> (request: (
        OpCode,
        Payload,
    ))
        ensures
            request.0 == OpCode::Dispatch,
            request.1 == (Payload::Event {
                cmd: RpcCommand::SetActivity,
                args: Some(args),
                data: None,
                evt: None,
                nonce: Some(nonce),
            }),
    {
        (
            OpCode::Dispatch,
            Payload::Event {
                cmd: RpcCommand::SetActivity,
                args: Some(args),
                data: None,
                evt: None,
                nonce: Some(nonce),
            },
        )
    }
}

} // verus!
