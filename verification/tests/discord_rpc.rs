use elite_presence::discord::rpc::client::RpcClient;
use elite_presence::discord::rpc::errors::{HandshakeError, RpcError, TransportError};
use elite_presence::discord::rpc::op_code::OpCode;
use elite_presence::discord::rpc::payload::{Payload, RpcCommand};
use elite_presence::discord::rpc::transport::{decode_header, encode_frame};
use elite_presence::pipe::errors::PipeError;

fn s(text: &str) -> String {
    text.to_string()
}

fn event(evt: Option<&str>) -> Payload {
    Payload::Event { cmd: RpcCommand::Dispatch, data: None, args: None, evt: evt.map(s), nonce: None }
}

#[test]
fn op_code_numbers() {
    assert_eq!(OpCode::Hello.to_u32(), 0);
    assert_eq!(OpCode::Dispatch.to_u32(), 1);
    assert_eq!(OpCode::Unknown(5).to_u32(), 5);
    assert_eq!(OpCode::from(0u32), OpCode::Hello);
    assert_eq!(OpCode::from(1u32), OpCode::Dispatch);
    assert_eq!(OpCode::from(2u32), OpCode::Unknown(2));
}

#[test]
fn op_code_round_trips() {
    for v in [0u32, 1, 2, 3, 4, 100, u32::MAX] {
        assert_eq!(OpCode::from(v).to_u32(), v);
    }
    for op in [OpCode::Hello, OpCode::Dispatch, OpCode::Unknown(3), OpCode::Unknown(u32::MAX)] {
        assert_eq!(OpCode::from(op.to_u32()), op);
    }
    assert_eq!(OpCode::from(OpCode::Unknown(0).to_u32()), OpCode::Hello);
}

#[test]
fn frame_layout() {
    let frame = encode_frame(OpCode::Dispatch, b"{}").unwrap();
    assert_eq!(frame, vec![1, 0, 0, 0, 2, 0, 0, 0, b'{', b'}']);
    let frame = encode_frame(OpCode::Unknown(0x0403_0201), &[]).unwrap();
    assert_eq!(frame, vec![1, 2, 3, 4, 0, 0, 0, 0]);
}

#[test]
fn frame_header_round_trip() {
    let body = vec![7u8; 300];
    let frame = encode_frame(OpCode::Hello, &body).unwrap();
    assert_eq!(frame.len(), 8 + 300);
    assert_eq!(decode_header(&frame), Some((OpCode::Hello, 300)));
    assert_eq!(&frame[8..], &body[..]);
}

#[test]
fn short_header_is_refused() {
    assert_eq!(decode_header(&[1, 0, 0, 0, 2, 0, 0]), None);
    assert_eq!(decode_header(&[]), None);
    assert_eq!(decode_header(&[2, 0, 0, 0, 0, 1, 0, 0]), Some((OpCode::Unknown(2), 256)));
}

#[test]
fn handshake_request_is_hello_version_one() {
    let client = RpcClient::new(s("1234567890"));
    let (op, payload) = client.handshake_request();
    assert_eq!(op, OpCode::Hello);
    assert_eq!(payload, Payload::Handshake { version: 1, client_id: s("1234567890") });
}

#[test]
fn handshake_reply_ready_is_accepted() {
    assert_eq!(RpcClient::handshake_reply(event(Some("READY"))), Ok(()));
    assert_eq!(RpcClient::handshake_reply(event(None)), Ok(()));
    assert_eq!(
        RpcClient::handshake_reply(Payload::Handshake { version: 1, client_id: s("x") }),
        Ok(())
    );
}

#[test]
fn handshake_reply_other_event_is_protocol_error() {
    let err = RpcClient::handshake_reply(event(Some("ERROR"))).unwrap_err();
    assert_eq!(err, HandshakeError::ProtocolError { expected: "READY", got: s("ERROR") });
    assert_eq!(err.to_string(), "Unexpected value: ERROR, expected: READY");
}

#[test]
fn handshake_reply_error_is_rpc_error() {
    let err = RpcClient::handshake_reply(Payload::Error {
        code: 4000,
        message: Some(s("Invalid Client ID")),
    })
    .unwrap_err();
    assert_eq!(
        err,
        HandshakeError::RpcError(RpcError { code: 4000, message: Some(s("Invalid Client ID")) })
    );
    assert_eq!(err.to_string(), "Invalid Client ID (code: 4000)");
}

#[test]
fn set_activity_request_is_dispatch() {
    let args = serde_json::Value::Bool(true);
    let (op, payload) = RpcClient::set_activity_request(args.clone(), s("123"));
    assert_eq!(op, OpCode::Dispatch);
    assert_eq!(
        payload,
        Payload::Event {
            cmd: RpcCommand::SetActivity,
            data: None,
            args: Some(args),
            evt: None,
            nonce: Some(s("123")),
        }
    );
}

#[test]
fn error_texts() {
    assert_eq!(RpcError { code: 0, message: None }.to_string(), "Unknown (code: 0)");
    assert_eq!(
        TransportError::ParseError(s("EOF while parsing")).to_string(),
        "Parse error: EOF while parsing"
    );
    let pipe = PipeError::ConnectionFailed(s("No such file or directory"));
    assert_eq!(pipe.to_string(), "No such file or directory");
    assert_eq!(PipeError::TransportError(s("Broken pipe")).to_string(), "Broken pipe");
    let transport = TransportError::from(pipe.clone());
    assert_eq!(transport, TransportError::PipeError(pipe));
    assert_eq!(transport.to_string(), "No such file or directory");
    let handshake = HandshakeError::from(transport.clone());
    assert_eq!(handshake, HandshakeError::TransportError(transport));
    assert_eq!(handshake.to_string(), "No such file or directory");
    let rpc = RpcError { code: 1000, message: Some(s("Unknown Error")) };
    assert_eq!(HandshakeError::from(rpc.clone()), HandshakeError::RpcError(rpc));
}
