//! Decoding errors
use crate::registers::COUNT;
use crate::text::{dec_text, hex_text, push_dec, push_hex};
use crate::types::{Register, Word};
use vstd::prelude::*;

verus! {

/// The kinds of errors that may happen in decoding.
#[derive(Debug, Clone, Copy, PartialEq, Eq, Structural)]
pub enum DecodeError {
    /// The operation type was invalid
    InvalidOpType(Word),
    /// The control operation was invalid
    InvalidControlOp(Word),
    /// The integer operation was invalid
    InvalidIntegerOp(Word),
    /// The floating-point operation was invalid
    InvalidFloatingPointOp(Word),
    /// The register operation was invalid
    InvalidRegisterOp(Word),
    /// Invalid addressing mode
    InvalidAddressingMode(Word),
    /// Invalid push operation
    InvalidPushOp(Word),
    /// Invalid pop operation
    InvalidPopOp(Word),
    /// Invalid register transfer (source, destination)
    InvalidRegister(Register, Register),
}

/// Type alias for a decode result
pub type DecodeResult<T> = Result<T, DecodeError>;

impl DecodeError {
    /// The error as a message; words are in hexadecimal, register numbers in
    /// decimal.
    pub open spec fn shown(self) -> Seq<char> {
        match self {
            DecodeError::InvalidOpType(w) => "Could not decode optype 0x"@ + hex_text(w as nat, false),
            DecodeError::InvalidControlOp(w) => "Could not decode control op type 0x"@ + hex_text(w as nat, false),
            DecodeError::InvalidIntegerOp(w) => "Could not decode integer op type 0x"@ + hex_text(w as nat, false),
            DecodeError::InvalidFloatingPointOp(w) => "Could not decode floating-point op type 0x"@ + hex_text(w as nat, false),
            DecodeError::InvalidRegisterOp(w) => "Could not decode register op type 0x"@ + hex_text(w as nat, false),
            DecodeError::InvalidAddressingMode(w) => "Could not decode addressing mode 0x"@ + hex_text(w as nat, false),
            DecodeError::InvalidPushOp(w) => "Could not decode push op type 0x"@ + hex_text(w as nat, false),
            DecodeError::InvalidPopOp(w) => "Could not decode pop op type 0x"@ + hex_text(w as nat, false),
            DecodeError::InvalidRegister(src, dst) => if src >= COUNT && dst >= COUNT {
                "Invalid registers: src="@ + dec_text(src as nat) + ", dst="@ + dec_text(dst as nat)
            } else if dst >= COUNT {
                "Invalid register: dst="@ + dec_text(dst as nat)
            } else {
                "Invalid register: src="@ + dec_text(src as nat)
            },
        }
    }

    /// Writes the error as a message.
    pub fn fmt(&self, f: &mut String)
        ensures
            final(f)@ == old(f)@ + self.shown(),
    {
        match *self {
            DecodeError::InvalidOpType(w) => {
                f.append("Could not decode optype 0x");
                push_hex(f, w, false);
            },
            DecodeError::InvalidControlOp(w) => {
                f.append("Could not decode control op type 0x");
                push_hex(f, w, false);
            },
            DecodeError::InvalidIntegerOp(w) => {
                f.append("Could not decode integer op type 0x");
                push_hex(f, w, false);
            },
            DecodeError::InvalidFloatingPointOp(w) => {
                f.append("Could not decode floating-point op type 0x");
                push_hex(f, w, false);
            },
            DecodeError::InvalidRegisterOp(w) => {
                f.append("Could not decode register op type 0x");
                push_hex(f, w, false);
            },
            DecodeError::InvalidAddressingMode(w) => {
                f.append("Could not decode addressing mode 0x");
                push_hex(f, w, false);
            },
            DecodeError::InvalidPushOp(w) => {
                f.append("Could not decode push op type 0x");
                push_hex(f, w, false);
            },
            DecodeError::InvalidPopOp(w) => {
                f.append("Could not decode pop op type 0x");
                push_hex(f, w, false);
            },
            DecodeError::InvalidRegister(src, dst) => {
                if (src as usize) >= COUNT && (dst as usize) >= COUNT {
                    f.append("Invalid registers: src=");
                    push_dec(f, src as u32);
                    f.append(", dst=");
                    push_dec(f, dst as u32);
                } else if (dst as usize) >= COUNT {
                    f.append("Invalid register: dst=");
                    push_dec(f, dst as u32);
                } else {
                    f.append("Invalid register: src=");
                    push_dec(f, src as u32);
                }
            },
        }
    }
}

} // verus!
