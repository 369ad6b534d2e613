//! The operation code that heads each frame of the RPC.

use vstd::prelude::*;

verus! {

/// The operation code of a frame.
#[derive(Debug, Clone, Copy, PartialEq, Eq, Structural)]
pub enum OpCode {
    /// The handshake (code 0).
    Hello,
    /// A command or an event (code 1).
    Dispatch,
    /// Any other code.
    Unknown(u32),
}

/// The number that stands for an operation code.
pub open spec fn op_code_value(op: OpCode) -> u32 {
    match op {
        OpCode::Hello => 0,
        OpCode::Dispatch => 1,
        OpCode::Unknown(v) => v,
    }
}

/// The operation code that a number stands for.
pub open spec fn op_code_of(value: u32) -> OpCode {
    if value == 0 {
        OpCode::Hello
    } else if value == 1 {
        OpCode::Dispatch
    } else {
        OpCode::Unknown(value)
    }
}

impl OpCode {
    /// The number that stands for this code.
    pub fn to_u32(&self) -> (value: u32)
        ensures
            value == op_code_value(*self),
    {
        match *self {
            OpCode::Hello => 0,
            OpCode::Dispatch => 1,
            OpCode::Unknown(op) => op,
        }
    }
}

impl From<u32> for OpCode {
    fn from(value: u32) -> (op: Self) {
        match value {
            0 => OpCode::Hello,
            1 => OpCode::Dispatch,
            other => OpCode::Unknown(other),
        }
    }
}

impl vstd::std_specs::convert::FromSpecImpl<u32> for OpCode {
    open spec fn obeys_from_spec() -> bool {
        true
    }

    open spec fn from_spec(value: u32) -> OpCode {
        op_code_of(value)
    }
}

/// Reading a number as an operation code and writing it back gives the number.
pub proof fn lemma_value_of_code(value: u32)
    ensures
        op_code_value(op_code_of(value)) == value,
{
}

/// Writing an operation code as a number and reading it back gives the code,
/// for every code but `Unknown(0)` and `Unknown(1)`, which read back as
/// `Hello` and `Dispatch`.
pub proof fn lemma_code_of_value(op: OpCode)
    requires
        op != OpCode::Unknown(0),
        op != OpCode::Unknown(1),
    ensures
        op_code_of(op_code_value(op)) == op,
{
}

} // verus!
