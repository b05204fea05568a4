//! The structure of an instruction.
//!
//! Each enumerator contains data representing the instruction and
//! its operands. Instructions are represented as a tree, where
//! the value of the previous level dictates the structure of the next.
//!
//! This also contains the traits defining the interfaces for encoding
//! and decoding instructions.
use crate::registers::RegisterFlags;
use crate::types::Word;
use vstd::prelude::*;

pub use control::ControlOp;
pub use floating_point::FloatingPointOp;
pub use integer::IntegerOp;
pub use register::RegisterOp;

pub mod control;
pub mod integer;
pub mod floating_point;
pub mod register;
pub mod error;

use error::{DecodeError, DecodeResult};

verus! {

/// Represents a decodable type.
pub trait Decode: Sized {
    /// What decoding a word yields.
    spec fn spec_decode(word: Word) -> DecodeResult<Self>;

    /// Decodes the word
    fn decode(word: Word) -> (r: DecodeResult<Self>)
        ensures
            r == Self::spec_decode(word),
    ;
}

/// Represents an encodable type.
pub trait Encode: Sized {
    /// The word a value encodes to.
    spec fn spec_encode(self) -> Word;

    /// Encodes to a word
    fn encode(self) -> (w: Word)
        ensures
            w == self.spec_encode(),
    ;
}

/// Represents an interface for getting information about the
/// registers involved in the instruction.
pub trait Info: Sized {
    /// The registers being written to.
    spec fn spec_write_regs(self) -> RegisterFlags;

    /// The registers being read from.
    spec fn spec_read_regs(self) -> RegisterFlags;

    /// Gets the registers being written to
    fn get_write_regs(self) -> (r: RegisterFlags)
        ensures
            r == self.spec_write_regs(),
    ;

    /// Gets the registers being read from
    fn get_read_regs(self) -> (r: RegisterFlags)
        ensures
            r == self.spec_read_regs(),
    ;
}

/// Alias for [`Decode::decode`]
pub fn decode<D: Decode>(word: Word) -> (r: DecodeResult<D>)
    ensures
        r == D::spec_decode(word),
{
    D::decode(word)
}

/// Alias for [`Encode::encode`]
pub fn encode<E: Encode>(e: E) -> (w: Word)
    ensures
        w == e.spec_encode(),
{
    e.encode()
}

/// Instruction categories
#[derive(Debug, Clone, Copy, PartialEq, Eq, Structural)]
pub enum Instruction {
    /// Control operations
    Control(ControlOp),
    /// Integer arithmetic
    Integer(IntegerOp),
    /// Floating-point arithmetic
    FloatingPoint(FloatingPointOp),
    /// Register operations
    Register(RegisterOp),
}

impl Default for Instruction {
    fn default() -> (r: Instruction)
        ensures
            r == Instruction::Control(ControlOp::Nop),
    {
        Instruction::Control(ControlOp::Nop)
    }
}

/// Mask to extract op-type bits
pub const MASK: Word = 0xE000_0000;
/// Amount to shift op-type bits
pub const SHIFT: Word = 29;
/// Control bits
pub const CONTROL: Word = 0b000;
/// Integer bits
pub const INTEGER: Word = 0b001;
/// Floating-point bits
pub const FLOATING_POINT: Word = 0b010;
/// Register bits
pub const REGISTER: Word = 0b011;

impl Instruction {
    /// An instruction that its encoding represents exactly.
    pub open spec fn wf(self) -> bool {
        match self {
            Instruction::Control(c) => c.wf(),
            Instruction::Integer(i) => i.wf(),
            Instruction::FloatingPoint(f) => f.wf(),
            Instruction::Register(r) => r.wf(),
        }
    }
}

impl Decode for Instruction {
    open spec fn spec_decode(word: Word) -> DecodeResult<Instruction> {
        let op_type = (word & MASK) >> SHIFT;
        if op_type == CONTROL {
            match ControlOp::spec_decode(word) {
                Ok(c) => Ok(Instruction::Control(c)),
                Err(e) => Err(e),
            }
        } else if op_type == INTEGER {
            match IntegerOp::spec_decode(word) {
                Ok(i) => Ok(Instruction::Integer(i)),
                Err(e) => Err(e),
            }
        } else if op_type == FLOATING_POINT {
            match FloatingPointOp::spec_decode(word) {
                Ok(f) => Ok(Instruction::FloatingPoint(f)),
                Err(e) => Err(e),
            }
        } else if op_type == REGISTER {
            match RegisterOp::spec_decode(word) {
                Ok(r) => Ok(Instruction::Register(r)),
                Err(e) => Err(e),
            }
        } else {
            Err(DecodeError::InvalidOpType(op_type))
        }
    }

    fn decode(word: Word) -> (r: DecodeResult<Instruction>) {
        let op_type = (word & MASK) >> SHIFT;
        if op_type == CONTROL {
            match ControlOp::decode(word) {
                Ok(c) => Ok(Instruction::Control(c)),
                Err(e) => Err(e),
            }
        } else if op_type == INTEGER {
            match IntegerOp::decode(word) {
                Ok(i) => Ok(Instruction::Integer(i)),
                Err(e) => Err(e),
            }
        } else if op_type == FLOATING_POINT {
            match FloatingPointOp::decode(word) {
                Ok(f) => Ok(Instruction::FloatingPoint(f)),
                Err(e) => Err(e),
            }
        } else if op_type == REGISTER {
            match RegisterOp::decode(word) {
                Ok(r) => Ok(Instruction::Register(r)),
                Err(e) => Err(e),
            }
        } else {
            Err(DecodeError::InvalidOpType(op_type))
        }
    }
}

impl Encode for Instruction {
    open spec fn spec_encode(self) -> Word {
        match self {
            Instruction::Control(c) => (CONTROL << SHIFT) | c.spec_encode(),
            Instruction::Integer(i) => (INTEGER << SHIFT) | i.spec_encode(),
            Instruction::FloatingPoint(f) => (FLOATING_POINT << SHIFT) | f.spec_encode(),
            Instruction::Register(r) => (REGISTER << SHIFT) | r.spec_encode(),
        }
    }

    fn encode(self) -> (w: Word) {
        match self {
            Instruction::Control(c) => (CONTROL << SHIFT) | c.encode(),
            Instruction::Integer(i) => (INTEGER << SHIFT) | i.encode(),
            Instruction::FloatingPoint(f) => (FLOATING_POINT << SHIFT) | f.encode(),
            Instruction::Register(r) => (REGISTER << SHIFT) | r.encode(),
        }
    }
}

impl Info for Instruction {
    open spec fn spec_write_regs(self) -> RegisterFlags {
        match self {
            Instruction::Control(c) => c.spec_write_regs(),
            Instruction::Integer(i) => i.spec_write_regs(),
            Instruction::FloatingPoint(f) => f.spec_write_regs(),
            Instruction::Register(r) => r.spec_write_regs(),
        }
    }

    open spec fn spec_read_regs(self) -> RegisterFlags {
        match self {
            Instruction::Control(c) => c.spec_read_regs(),
            Instruction::Integer(i) => i.spec_read_regs(),
            Instruction::FloatingPoint(f) => f.spec_read_regs(),
            Instruction::Register(r) => r.spec_read_regs(),
        }
    }

    fn get_write_regs(self) -> (r: RegisterFlags) {
        match self {
            Instruction::Control(c) => c.get_write_regs(),
            Instruction::Integer(i) => i.get_write_regs(),
            Instruction::FloatingPoint(f) => f.get_write_regs(),
            Instruction::Register(r) => r.get_write_regs(),
        }
    }

    fn get_read_regs(self) -> (r: RegisterFlags) {
        match self {
            Instruction::Control(c) => c.get_read_regs(),
            Instruction::Integer(i) => i.get_read_regs(),
            Instruction::FloatingPoint(f) => f.get_read_regs(),
            Instruction::Register(r) => r.get_read_regs(),
        }
    }
}

proof fn lemma_op_type_field(t: u32, operand: u32) by (bit_vector)
    requires
        t < 4,
        operand & !0x1FFF_FFFFu32 == 0,
    ensures
        (((t << 29) | operand) & 0xE000_0000) >> 29 == t,
        ((t << 29) | operand) == operand | (t << 29),
        (t << 29) & 0x1FFF_FFFF == 0,
{
}

/// Decoding undoes encoding: a well-formed instruction decodes back from the
/// word it encodes to.
pub proof fn lemma_decode_encode(instruction: Instruction)
    requires
        instruction.wf(),
    ensures
        Instruction::spec_decode(instruction.spec_encode()) == Ok::<Instruction, DecodeError>(instruction),
{
    match instruction {
        Instruction::Control(c) => {
            crate::bits::lemma_zero_and(control::control_region());
            c.lemma_roundtrip(0);
            crate::bits::lemma_or_zero(c.spec_encode());
            lemma_op_type_field(CONTROL, c.spec_encode());
            c.lemma_roundtrip(CONTROL << SHIFT);
        },
        Instruction::Integer(i) => {
            crate::bits::lemma_zero_and(integer::integer_region());
            i.lemma_roundtrip(0);
            crate::bits::lemma_or_zero(i.spec_encode());
            lemma_op_type_field(INTEGER, i.spec_encode());
            i.lemma_roundtrip(INTEGER << SHIFT);
        },
        Instruction::FloatingPoint(f) => {
            crate::bits::lemma_zero_and(floating_point::floating_point_region());
            f.lemma_roundtrip(0);
            crate::bits::lemma_or_zero(f.spec_encode());
            lemma_op_type_field(FLOATING_POINT, f.spec_encode());
            f.lemma_roundtrip(FLOATING_POINT << SHIFT);
        },
        Instruction::Register(r) => {
            crate::bits::lemma_zero_and(register::register_region());
            r.lemma_roundtrip(0);
            crate::bits::lemma_or_zero(r.spec_encode());
            lemma_op_type_field(REGISTER, r.spec_encode());
            r.lemma_roundtrip(REGISTER << SHIFT);
        },
    }
}

/// Every instruction that a word decodes to is well-formed.
pub proof fn lemma_decoded_wf(word: Word)
    ensures
        Instruction::spec_decode(word) matches Ok(i) ==> i.wf(),
{
    ControlOp::lemma_decode_wf(word);
    IntegerOp::lemma_decode_wf(word);
    FloatingPointOp::lemma_decode_wf(word);
    RegisterOp::lemma_decode_wf(word);
}

/// Encoding a decoded instruction gives a word that decodes to the same
/// instruction.
pub proof fn lemma_encode_decode(word: Word)
    ensures
        Instruction::spec_decode(word) matches Ok(i) ==> Instruction::spec_decode(i.spec_encode())
            == Ok::<Instruction, DecodeError>(i),
{
    lemma_decoded_wf(word);
    if let Ok(i) = Instruction::spec_decode(word) {
        lemma_decode_encode(i);
    }
}

impl Instruction {
    /// The instruction as written in assembly.
    pub open spec fn shown(self) -> Seq<char> {
        match self {
            Instruction::Control(c) => c.shown(),
            Instruction::Integer(i) => i.shown(),
            Instruction::FloatingPoint(p) => p.shown(),
            Instruction::Register(r) => r.shown(),
        }
    }

    /// Writes the instruction as in assembly; a register transfer must name
    /// registers that exist.
    pub fn fmt(&self, f: &mut String)
        requires
            self matches Instruction::Register(RegisterOp::Tfr(r)) ==> r.wf(),
        ensures
            final(f)@ == old(f)@ + self.shown(),
    {
        match *self {
            Instruction::Control(c) => c.fmt(f),
            Instruction::Integer(i) => i.fmt(f),
            Instruction::FloatingPoint(p) => p.fmt(f),
            Instruction::Register(r) => r.fmt(f),
        }
    }

    /// The instruction as written in assembly.
    pub fn to_text(&self) -> (s: String)
        requires
            self matches Instruction::Register(RegisterOp::Tfr(r)) ==> r.wf(),
        ensures
            s@ == self.shown(),
    {
        let mut s = String::new();
        self.fmt(&mut s);
        s
    }
}

impl From<Instruction> for Word {
    /// The word an instruction encodes to.
    fn from(value: Instruction) -> (w: Word) {
        value.encode()
    }
}

impl vstd::std_specs::convert::FromSpecImpl<Instruction> for Word {
    open spec fn obeys_from_spec() -> bool {
        true
    }

    open spec fn from_spec(v: Instruction) -> Word {
        v.spec_encode()
    }
}

impl TryFrom<Word> for Instruction {
    type Error = DecodeError;

    /// The instruction a word decodes to.
    fn try_from(value: Word) -> (r: DecodeResult<Instruction>) {
        Instruction::decode(value)
    }
}

impl vstd::std_specs::convert::TryFromSpecImpl<Word> for Instruction {
    open spec fn obeys_try_from_spec() -> bool {
        true
    }

    open spec fn try_from_spec(v: Word) -> DecodeResult<Instruction> {
        Instruction::spec_decode(v)
    }
}

} // verus!
