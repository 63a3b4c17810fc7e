use crate::text::{hex_text, push_hex};
use vstd::prelude::*;

verus! {

/// Why a byte sequence could not be decoded into an instruction.
#[derive(Debug, Clone, Copy, PartialEq, Eq, Structural)]
pub enum DecodeError {
    MissingInstruction,
    MissingOperand,
    InvalidOpcode(u16),
    InvalidJumpCondition(u16),
    InvalidAddressingMode,
    InvalidExtensionWord,
    InvalidRegisterCount,
}

/// The message that describes an error; an opcode or condition is written in hexadecimal.
pub open spec fn error_text(e: DecodeError) -> Seq<char> {
    match e {
        DecodeError::MissingInstruction => "Not enough data for instruction"@,
        DecodeError::MissingOperand => "Not enough data for operand"@,
        DecodeError::InvalidOpcode(op) => "Invalid opcode: "@ + hex_text(op as nat),
        DecodeError::InvalidJumpCondition(c) => "Invalid jump condition: "@ + hex_text(c as nat),
        DecodeError::InvalidAddressingMode => "Invalid addressing mode"@,
        DecodeError::InvalidExtensionWord => "Invalid extension word format"@,
        DecodeError::InvalidRegisterCount => "Invalid register count for PUSHM/POPM"@,
    }
}

impl DecodeError {
    /// The message that describes the error.
    pub fn to_string(&self) -> (r: String)
        ensures
            r@ == error_text(*self),
    {
        let mut s = String::new();
        match self {
            DecodeError::MissingInstruction => s.append("Not enough data for instruction"),
            DecodeError::MissingOperand => s.append("Not enough data for operand"),
            DecodeError::InvalidOpcode(op) => {
                s.append("Invalid opcode: ");
                push_hex(&mut s, *op as u32);
            },
            DecodeError::InvalidJumpCondition(c) => {
                s.append("Invalid jump condition: ");
                push_hex(&mut s, *c as u32);
            },
            DecodeError::InvalidAddressingMode => s.append("Invalid addressing mode"),
            DecodeError::InvalidExtensionWord => s.append("Invalid extension word format"),
            DecodeError::InvalidRegisterCount => s.append("Invalid register count for PUSHM/POPM"),
        }
        proof {
            assert(s@ =~= error_text(*self));
        }
        s
    }
}

} // verus!
