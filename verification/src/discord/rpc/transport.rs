//! The framing of the RPC on the pipe: each frame is its operation code and
//! the length of its payload, both as 32-bit little-endian numbers, then the
//! payload's JSON bytes.

use vstd::prelude::*;

use crate::discord::rpc::op_code::{op_code_of, op_code_value, OpCode};

verus! {

/// The length of a frame's header.
pub const HEADER_LEN: usize = 8;

/// The four bytes of `v`, least significant first.
pub open spec fn le_bytes(v: u32) -> Seq<u8> {
    seq![(v & 0xff) as u8, ((v >> 8) & 0xff) as u8, ((v >> 16) & 0xff) as u8, ((v >> 24) & 0xff) as u8]
}

/// The number that four bytes make, least significant first.
pub open spec fn le_value(b0: u8, b1: u8, b2: u8, b3: u8) -> u32 {
    (b0 as u32) | ((b1 as u32) << 8u32) | ((b2 as u32) << 16u32) | ((b3 as u32) << 24u32)
}

/// The frame of `body` under the operation code `op`.
pub open spec fn frame(op: OpCode, body: Seq<u8>) -> Seq<u8> {
    le_bytes(op_code_value(op)) + le_bytes(body.len() as u32) + body
}

/// What a header says: the operation code and the length of the payload.
pub open spec fn header_of(header: Seq<u8>) -> (OpCode, u32) {
    (
        op_code_of(le_value(header[0], header[1], header[2], header[3])),
        le_value(header[4], header[5], header[6], header[7]),
    )
}

/// Four bytes written from a number read back as the number.
pub proof fn lemma_le_round_trip(v: u32)
    ensures
        le_value(le_bytes(v)[0], le_bytes(v)[1], le_bytes(v)[2], le_bytes(v)[3]) == v,
{
    assert(((v & 0xff) as u8 as u32) | ((((v >> 8) & 0xff) as u8 as u32) << 8u32) | ((((v >> 16)
        & 0xff) as u8 as u32) << 16u32) | ((((v >> 24) & 0xff) as u8 as u32) << 24u32) == v)
        by (bit_vector);
}

fn push_le(out: &mut Vec<u8>, v: u32)
    ensures
        final(out)@ == old(out)@ + le_bytes(v),
{
    let ghost before = out@;
    out.push((v & 0xff) as u8);
    out.push(((v >> 8) & 0xff) as u8);
    out.push(((v >> 16) & 0xff) as u8);
    out.push(((v >> 24) & 0xff) as u8);
    assert(out@ =~= before + le_bytes(v));
}

/// The frame of `body` under `op`; `None` where the body is too long for its
/// length to fit the header.
pub fn encode_frame(op: OpCode, body: &[u8]) -> (bytes: Option<Vec<u8>>)
    ensures
        bytes is Some <==> body@.len() <= u32::MAX,
        bytes matches Some(b) ==> b@ == frame(op, body@),
{
    if body.len() > u32::MAX as usize {
        return None;
    }
    let mut out: Vec<u8> = Vec::new();
    push_le(&mut out, op.to_u32());
    push_le(&mut out, body.len() as u32);
    let ghost head = out@;
    let mut i: usize = 0;
    while i < body.len()
        invariant
            i <= body@.len(),
            out@ == head + body@.take(i as int),
        decreases body@.len() - i,
    {
        out.push(body[i]);
        proof {
            assert(body@.take(i + 1) =~= body@.take(i as int).push(body@[i as int]));
        }
        i = i + 1;
    }
    proof {
        assert(body@.take(i as int) =~= body@);
    }
    Some(out)
}

/// Reads a frame's header: the operation code and the length of the payload
/// that follows; `None` where fewer than eight bytes are given.
pub fn decode_header(header: &[u8]) -> (decoded: Option<(OpCode, u32)>)
    ensures
        decoded is Some <==> header@.len() >= HEADER_LEN,
        decoded matches Some(h) ==> h == header_of(header@),
{
    if header.len() < HEADER_LEN {
        return None;
    }
    let op = (header[0] as u32) | ((header[1] as u32) << 8u32) | ((header[2] as u32) << 16u32) | ((
    header[3] as u32) << 24u32);
    let len = (header[4] as u32) | ((header[5] as u32) << 8u32) | ((header[6] as u32) << 16u32) | ((
    header[7] as u32) << 24u32);
    Some((OpCode::from(op), len))
}

/// The header of a frame says the frame's operation code and the length of its
/// payload, but for the codes `Unknown(0)` and `Unknown(1)`, which read back as
/// `Hello` and `Dispatch`.
pub proof fn lemma_frame_header(op: OpCode, body: Seq<u8>)
    requires
        body.len() <= u32::MAX,
    ensures
        frame(op, body).len() == HEADER_LEN + body.len(),
        frame(op, body).skip(HEADER_LEN as int) == body,
        header_of(frame(op, body)) == (op_code_of(op_code_value(op)), body.len() as u32),
{
    let f = frame(op, body);
    lemma_le_round_trip(op_code_value(op));
    lemma_le_round_trip(body.len() as u32);
    assert(f[0] == le_bytes(op_code_value(op))[0]);
    assert(f[1] == le_bytes(op_code_value(op))[1]);
    assert(f[2] == le_bytes(op_code_value(op))[2]);
    assert(f[3] == le_bytes(op_code_value(op))[3]);
    assert(f[4] == le_bytes(body.len() as u32)[0]);
    assert(f[5] == le_bytes(body.len() as u32)[1]);
    assert(f[6] == le_bytes(body.len() as u32)[2]);
    assert(f[7] == le_bytes(body.len() as u32)[3]);
    assert(f.skip(8) =~= body);
}

} // verus!
