//! Control instructions
use super::error::{DecodeError, DecodeResult};
use super::{Decode, Encode, Info};
use crate::registers::{RegisterFlags, BP, LP, OF, PC, SP, ZF};
use crate::text::{push_signed, push_vreg, signed_text, vreg};
use crate::types::{Register, SWord, Word};
use vstd::prelude::*;

verus! {

/// Jump-mode bit: set for relative jumps
pub const REL_MODE_MASK: Word = 0x0100_0000;
/// Relative address bits
pub const RELATIVE_MASK: Word = 0x00FF_FFFF;
/// Sign bit of the relative address
pub const SIGN_BIT: Word = 0x0080_0000;
/// Register bits
pub const REGISTER_MASK: Word = 0x0000_00F0;
/// Amount to shift register bits
pub const REGISTER_SHIFT: Word = 4;

/// The bits that a [`Jump`] occupies in a word.
pub open spec fn jump_region() -> Word {
    0x01FF_FFFF
}

/// Jump operands
#[derive(Debug, Clone, Copy, PartialEq, Eq, Structural)]
pub enum Jump {
    /// Jumps to a location pointed to by a register
    Register(Register),
    /// Jumps to a location pointed to by PC + IMM (sign extended)
    Relative(SWord),
}

impl Jump {
    /// A jump that its encoding represents exactly.
    pub open spec fn wf(self) -> bool {
        match self {
            Jump::Register(r) => r < 16,
            Jump::Relative(off) => off % 4 == 0 && -0x0200_0000 <= off < 0x0200_0000,
        }
    }
}

/// The byte offset held by the 24-bit relative field: sign-extended, in words.
pub open spec fn relative_offset(amount: Word) -> SWord {
    if amount & SIGN_BIT == 0 {
        (amount * 4) as SWord
    } else {
        ((amount - 0x0100_0000) * 4) as SWord
    }
}

impl Decode for Jump {
    open spec fn spec_decode(word: Word) -> DecodeResult<Jump> {
        if word & REL_MODE_MASK == 0 {
            Ok(Jump::Register(((word & REGISTER_MASK) >> REGISTER_SHIFT) as Register))
        } else {
            Ok(Jump::Relative(relative_offset(word & RELATIVE_MASK)))
        }
    }

    fn decode(word: Word) -> (r: DecodeResult<Jump>) {
        if word & REL_MODE_MASK == 0 {
            Ok(Jump::Register(((word & REGISTER_MASK) >> REGISTER_SHIFT) as Register))
        } else {
            let amount = word & RELATIVE_MASK;
            assert(amount <= 0x00FF_FFFF) by (bit_vector)
                requires
                    amount == word & 0x00FF_FFFF,
            ;
            if amount & SIGN_BIT == 0 {
                Ok(Jump::Relative((amount as SWord) * 4))
            } else {
                assert(amount >= 0x0080_0000) by (bit_vector)
                    requires
                        amount == word & 0x00FF_FFFF,
                        amount & 0x0080_0000 != 0,
                ;
                Ok(Jump::Relative(((amount as SWord) - 0x0100_0000) * 4))
            }
        }
    }
}

/// The 24-bit relative field that encodes a byte offset.
pub open spec fn relative_field(off: SWord) -> Word {
    ((off / 4) as u32) & RELATIVE_MASK
}

impl Encode for Jump {
    open spec fn spec_encode(self) -> Word {
        match self {
            Jump::Register(reg) => ((reg as Word) << REGISTER_SHIFT) as Word,
            Jump::Relative(off) => REL_MODE_MASK | relative_field(off),
        }
    }

    fn encode(self) -> (w: Word) {
        match self {
            Jump::Register(reg) => (reg as Word) << REGISTER_SHIFT,
            Jump::Relative(off) => {
                let q = if off >= 0 {
                    off / 4
                } else {
                    -((-(off as i64) + 3) / 4) as SWord
                };
                assert(q == off / 4);
                REL_MODE_MASK | ((q as Word) & RELATIVE_MASK)
            },
        }
    }
}

proof fn lemma_register_field(r: u32, hi: u32) by (bit_vector)
    requires
        r < 16,
        hi & 0x01FF_FFFF == 0,
    ensures
        ((r << 4) | hi) & 0x0100_0000 == 0,
        ((((r << 4) | hi) & 0xF0) >> 4) == r,
        (r << 4) & !0x01FF_FFFFu32 == 0,
{
}

proof fn lemma_relative_field(q: u32, hi: u32) by (bit_vector)
    requires
        hi & 0x01FF_FFFF == 0,
    ensures
        ((0x0100_0000 | (q & 0x00FF_FFFF)) | hi) & 0x0100_0000 != 0,
        ((0x0100_0000 | (q & 0x00FF_FFFF)) | hi) & 0x00FF_FFFF == q & 0x00FF_FFFF,
        (0x0100_0000 | (q & 0x00FF_FFFF)) & !0x01FF_FFFFu32 == 0,
{
}

proof fn lemma_sign_extend(q: i32)
    requires
        -0x0080_0000 <= q < 0x0080_0000,
    ensures
        relative_offset((q as u32) & 0x00FF_FFFF) == q * 4,
{
    assert((q >= 0 ==> ((q as u32) & 0x00FF_FFFF) & 0x0080_0000 == 0 && (q as u32) & 0x00FF_FFFF
        == q as u32) && (q < 0 ==> ((q as u32) & 0x00FF_FFFF) & 0x0080_0000 != 0 && ((q as u32)
        & 0x00FF_FFFF) - 0x0100_0000 == q)) by (bit_vector)
        requires
            -0x0080_0000 <= q < 0x0080_0000,
    ;
}

proof fn lemma_field_bound(w: u32)
    ensures
        (w & 0xF0) >> 4 < 16,
        w & 0x00FF_FFFF <= 0x00FF_FFFF,
        relative_offset(w & 0x00FF_FFFF) % 4 == 0,
        -0x0200_0000 <= relative_offset(w & 0x00FF_FFFF) < 0x0200_0000,
{
    let a = w & 0x00FF_FFFF;
    assert((w & 0xF0) >> 4 < 16 && a <= 0x00FF_FFFF && (a & 0x0080_0000 == 0 ==> a < 0x0080_0000)
        && (a & 0x0080_0000 != 0 ==> a >= 0x0080_0000)) by (bit_vector)
        requires
            a == w & 0x00FF_FFFF,
    ;
}

impl Jump {
    /// A well-formed jump decodes back from its encoding, whatever stands in
    /// the bits above its region; the encoding stays inside the region.
    pub proof fn lemma_roundtrip(self, hi: Word)
        requires
            self.wf(),
            hi & jump_region() == 0,
        ensures
            Jump::spec_decode(self.spec_encode() | hi) == Ok::<Jump, DecodeError>(self),
            self.spec_encode() & !jump_region() == 0,
    {
        match self {
            Jump::Register(r) => {
                lemma_register_field(r as u32, hi);
            },
            Jump::Relative(off) => {
                let q = (off / 4) as i32;
                lemma_relative_field(q as u32, hi);
                lemma_sign_extend(q);
            },
        }
    }

    /// Whatever decodes from a word is well-formed.
    pub proof fn lemma_decode_wf(word: Word)
        ensures
            Jump::spec_decode(word) matches Ok(j) && j.wf(),
    {
        lemma_field_bound(word);
    }
}

/// Flow control operations
///
/// All relative jumps are in terms of words rather than bytes
///
/// Absolute addresses ignore the least significant 2 bits
#[derive(Debug, Clone, Copy, PartialEq, Eq, Structural)]
pub enum ControlOp {
    /// Does nothing
    Nop,
    /// Stops the processor
    Halt,
    /// Returns from a subroutine
    Ret,
    /// Unconditional jump
    Jmp(Jump),
    /// Jump to subroutine
    Jsr(Jump),
    /// Jump if equal (ZF = 1)
    Jeq(Jump),
    /// Jump if not equal (ZF = 0)
    Jne(Jump),
    /// Jump if greater than (ZF = 0 & OF = 1)
    Jgt(Jump),
    /// Jump if less than (ZF = 0 & OF = 0)
    Jlt(Jump),
    /// Jump if greater than or equal to (OF = 1 | ZF = 1)
    Jge(Jump),
    /// Jump if less than or equal to (OF = 0 | ZF = 1)
    Jle(Jump),
}

/// Mask to extract the control-op bits
pub const MASK: Word = 0x1E00_0000;
/// Amount to shift the control-op bits
pub const SHIFT: Word = 25;
pub const NOP: Word = 0b0000;
pub const HALT: Word = 0b0001;
pub const JMP: Word = 0b0010;
pub const JSR: Word = 0b0011;
pub const RET: Word = 0b0100;
pub const JEQ: Word = 0b1000;
pub const JNE: Word = 0b1100;
pub const JGT: Word = 0b1101;
pub const JLT: Word = 0b1110;
pub const JGE: Word = 0b1001;
pub const JLE: Word = 0b1010;

/// The bits that a [`ControlOp`] occupies in a word.
pub open spec fn control_region() -> Word {
    0x1FFF_FFFF
}

impl ControlOp {
    /// An operation that its encoding represents exactly.
    pub open spec fn wf(self) -> bool {
        match self {
            ControlOp::Nop | ControlOp::Halt | ControlOp::Ret => true,
            ControlOp::Jmp(j) | ControlOp::Jsr(j) | ControlOp::Jeq(j) | ControlOp::Jne(j)
            | ControlOp::Jgt(j) | ControlOp::Jlt(j) | ControlOp::Jge(j) | ControlOp::Jle(j) => j.wf(),
        }
    }

    /// The operation code of the operation.
    pub open spec fn opcode(self) -> Word {
        match self {
            ControlOp::Nop => NOP,
            ControlOp::Halt => HALT,
            ControlOp::Ret => RET,
            ControlOp::Jmp(_) => JMP,
            ControlOp::Jsr(_) => JSR,
            ControlOp::Jeq(_) => JEQ,
            ControlOp::Jne(_) => JNE,
            ControlOp::Jgt(_) => JGT,
            ControlOp::Jlt(_) => JLT,
            ControlOp::Jge(_) => JGE,
            ControlOp::Jle(_) => JLE,
        }
    }

    /// The operand bits of the operation.
    pub open spec fn operand_bits(self) -> Word {
        match self {
            ControlOp::Nop | ControlOp::Halt | ControlOp::Ret => 0,
            ControlOp::Jmp(j) | ControlOp::Jsr(j) | ControlOp::Jeq(j) | ControlOp::Jne(j)
            | ControlOp::Jgt(j) | ControlOp::Jlt(j) | ControlOp::Jge(j) | ControlOp::Jle(j) => j.spec_encode(),
        }
    }
}

/// The control operation selected by an operation code, given its jump operand.
pub open spec fn control_of(op: Word, jump: Jump) -> DecodeResult<ControlOp> {
    if op == HALT {
        Ok(ControlOp::Halt)
    } else if op == NOP {
        Ok(ControlOp::Nop)
    } else if op == RET {
        Ok(ControlOp::Ret)
    } else if op == JMP {
        Ok(ControlOp::Jmp(jump))
    } else if op == JSR {
        Ok(ControlOp::Jsr(jump))
    } else if op == JEQ {
        Ok(ControlOp::Jeq(jump))
    } else if op == JNE {
        Ok(ControlOp::Jne(jump))
    } else if op == JGT {
        Ok(ControlOp::Jgt(jump))
    } else if op == JLT {
        Ok(ControlOp::Jlt(jump))
    } else if op == JGE {
        Ok(ControlOp::Jge(jump))
    } else if op == JLE {
        Ok(ControlOp::Jle(jump))
    } else {
        Err(DecodeError::InvalidControlOp(op))
    }
}

impl Decode for ControlOp {
    open spec fn spec_decode(word: Word) -> DecodeResult<ControlOp> {
        let jump = Jump::spec_decode(word);
        match jump {
            Ok(j) => control_of((word & MASK) >> SHIFT, j),
            Err(e) => Err(e),
        }
    }

    fn decode(word: Word) -> (r: DecodeResult<ControlOp>) {
        let op = (word & MASK) >> SHIFT;
        let jump = match Jump::decode(word) {
            Ok(j) => j,
            Err(e) => return Err(e),
        };
        if op == HALT {
            Ok(ControlOp::Halt)
        } else if op == NOP {
            Ok(ControlOp::Nop)
        } else if op == RET {
            Ok(ControlOp::Ret)
        } else if op == JMP {
            Ok(ControlOp::Jmp(jump))
        } else if op == JSR {
            Ok(ControlOp::Jsr(jump))
        } else if op == JEQ {
            Ok(ControlOp::Jeq(jump))
        } else if op == JNE {
            Ok(ControlOp::Jne(jump))
        } else if op == JGT {
            Ok(ControlOp::Jgt(jump))
        } else if op == JLT {
            Ok(ControlOp::Jlt(jump))
        } else if op == JGE {
            Ok(ControlOp::Jge(jump))
        } else if op == JLE {
            Ok(ControlOp::Jle(jump))
        } else {
            Err(DecodeError::InvalidControlOp(op))
        }
    }
}

impl Encode for ControlOp {
    open spec fn spec_encode(self) -> Word {
        match self {
            ControlOp::Halt => HALT << SHIFT,
            ControlOp::Nop => NOP << SHIFT,
            ControlOp::Ret => RET << SHIFT,
            ControlOp::Jmp(jump) => (JMP << SHIFT) | jump.spec_encode(),
            ControlOp::Jsr(jump) => (JSR << SHIFT) | jump.spec_encode(),
            ControlOp::Jeq(jump) => (JEQ << SHIFT) | jump.spec_encode(),
            ControlOp::Jne(jump) => (JNE << SHIFT) | jump.spec_encode(),
            ControlOp::Jgt(jump) => (JGT << SHIFT) | jump.spec_encode(),
            ControlOp::Jlt(jump) => (JLT << SHIFT) | jump.spec_encode(),
            ControlOp::Jge(jump) => (JGE << SHIFT) | jump.spec_encode(),
            ControlOp::Jle(jump) => (JLE << SHIFT) | jump.spec_encode(),
        }
    }

    fn encode(self) -> (w: Word) {
        match self {
            ControlOp::Halt => HALT << SHIFT,
            ControlOp::Nop => NOP << SHIFT,
            ControlOp::Ret => RET << SHIFT,
            ControlOp::Jmp(jump) => (JMP << SHIFT) | jump.encode(),
            ControlOp::Jsr(jump) => (JSR << SHIFT) | jump.encode(),
            ControlOp::Jeq(jump) => (JEQ << SHIFT) | jump.encode(),
            ControlOp::Jne(jump) => (JNE << SHIFT) | jump.encode(),
            ControlOp::Jgt(jump) => (JGT << SHIFT) | jump.encode(),
            ControlOp::Jlt(jump) => (JLT << SHIFT) | jump.encode(),
            ControlOp::Jge(jump) => (JGE << SHIFT) | jump.encode(),
            ControlOp::Jle(jump) => (JLE << SHIFT) | jump.encode(),
        }
    }
}

proof fn lemma_opcode_field(op: u32, operand: u32, hi: u32) by (bit_vector)
    requires
        op < 16,
        operand & !0x01FF_FFFFu32 == 0,
        hi & 0x1FFF_FFFF == 0,
    ensures
        ((((op << 25) | operand) | hi) & 0x1E00_0000) >> 25 == op,
        (((op << 25) | operand) | hi) == operand | ((op << 25) | hi),
        ((op << 25) | hi) & 0x01FF_FFFF == 0,
        ((op << 25) | operand) & !0x1FFF_FFFFu32 == 0,
        (op << 25) | 0 == op << 25,
{
}

impl ControlOp {
    /// A well-formed operation decodes back from its encoding, whatever stands
    /// in the bits above its region; the encoding stays inside the region.
    pub proof fn lemma_roundtrip(self, hi: Word)
        requires
            self.wf(),
            hi & control_region() == 0,
        ensures
            ControlOp::spec_decode(self.spec_encode() | hi) == Ok::<ControlOp, DecodeError>(self),
            self.spec_encode() & !control_region() == 0,
    {
        let op = self.opcode();
        let operand = self.operand_bits();
        let w = self.spec_encode() | hi;
        match self {
            ControlOp::Nop | ControlOp::Halt | ControlOp::Ret => {
                crate::bits::lemma_zero_and(!0x01FF_FFFFu32);
                lemma_opcode_field(op, operand, hi);
                Jump::lemma_decode_wf(w);
            },
            ControlOp::Jmp(j) | ControlOp::Jsr(j) | ControlOp::Jeq(j) | ControlOp::Jne(j)
            | ControlOp::Jgt(j) | ControlOp::Jlt(j) | ControlOp::Jge(j) | ControlOp::Jle(j) => {
                crate::bits::lemma_zero_and(jump_region());
                j.lemma_roundtrip(0);
                crate::bits::lemma_or_zero(j.spec_encode());
                lemma_opcode_field(op, operand, hi);
                j.lemma_roundtrip((op << 25) | hi);
            },
        }
    }

    /// Whatever decodes from a word is well-formed.
    pub proof fn lemma_decode_wf(word: Word)
        ensures
            ControlOp::spec_decode(word) matches Ok(c) ==> c.wf(),
    {
        Jump::lemma_decode_wf(word);
    }
}

impl Info for ControlOp {
    open spec fn spec_write_regs(self) -> RegisterFlags {
        match self {
            ControlOp::Ret | ControlOp::Jsr(_) => RegisterFlags::of([PC, LP, SP, BP]@),
            ControlOp::Jmp(_) | ControlOp::Jeq(_) | ControlOp::Jne(_) | ControlOp::Jgt(_)
            | ControlOp::Jlt(_) | ControlOp::Jge(_) | ControlOp::Jle(_) => RegisterFlags::of([PC]@),
            _ => RegisterFlags::of([]@),
        }
    }

    open spec fn spec_read_regs(self) -> RegisterFlags {
        match self {
            ControlOp::Jmp(Jump::Register(r)) => RegisterFlags::of([r, PC]@),
            ControlOp::Jmp(Jump::Relative(_)) => RegisterFlags::of([PC]@),
            ControlOp::Jeq(Jump::Register(r)) | ControlOp::Jne(Jump::Register(r)) => RegisterFlags::of([r, PC, ZF]@),
            ControlOp::Jeq(Jump::Relative(_)) | ControlOp::Jne(Jump::Relative(_)) => RegisterFlags::of([PC, ZF]@),
            ControlOp::Jgt(Jump::Register(r)) | ControlOp::Jlt(Jump::Register(r))
            | ControlOp::Jge(Jump::Register(r)) | ControlOp::Jle(Jump::Register(r)) => RegisterFlags::of([r, PC, ZF, OF]@),
            ControlOp::Jgt(Jump::Relative(_)) | ControlOp::Jlt(Jump::Relative(_))
            | ControlOp::Jge(Jump::Relative(_)) | ControlOp::Jle(Jump::Relative(_)) => RegisterFlags::of([PC, ZF, OF]@),
            ControlOp::Jsr(Jump::Register(r)) => RegisterFlags::of([r, PC, LP, SP, BP]@),
            ControlOp::Jsr(Jump::Relative(_)) => RegisterFlags::of([PC, LP, SP, BP]@),
            ControlOp::Ret => RegisterFlags::of([LP, BP]@),
            _ => RegisterFlags::of([]@),
        }
    }

    fn get_write_regs(self) -> (r: RegisterFlags) {
        match self {
            ControlOp::Ret | ControlOp::Jsr(_) => RegisterFlags::from_slice(&[PC, LP, SP, BP]),
            ControlOp::Jmp(_) | ControlOp::Jeq(_) | ControlOp::Jne(_) | ControlOp::Jgt(_)
            | ControlOp::Jlt(_) | ControlOp::Jge(_) | ControlOp::Jle(_) => RegisterFlags::from_slice(&[PC]),
            _ => RegisterFlags::from_slice(&[]),
        }
    }

    fn get_read_regs(self) -> (r: RegisterFlags) {
        match self {
            ControlOp::Jmp(Jump::Register(r)) => RegisterFlags::from_slice(&[r, PC]),
            ControlOp::Jmp(Jump::Relative(_)) => RegisterFlags::from_slice(&[PC]),
            ControlOp::Jeq(Jump::Register(r)) | ControlOp::Jne(Jump::Register(r)) => RegisterFlags::from_slice(&[r, PC, ZF]),
            ControlOp::Jeq(Jump::Relative(_)) | ControlOp::Jne(Jump::Relative(_)) => RegisterFlags::from_slice(&[PC, ZF]),
            ControlOp::Jgt(Jump::Register(r)) | ControlOp::Jlt(Jump::Register(r))
            | ControlOp::Jge(Jump::Register(r)) | ControlOp::Jle(Jump::Register(r)) => RegisterFlags::from_slice(&[r, PC, ZF, OF]),
            ControlOp::Jgt(Jump::Relative(_)) | ControlOp::Jlt(Jump::Relative(_))
            | ControlOp::Jge(Jump::Relative(_)) | ControlOp::Jle(Jump::Relative(_)) => RegisterFlags::from_slice(&[PC, ZF, OF]),
            ControlOp::Jsr(Jump::Register(r)) => RegisterFlags::from_slice(&[r, PC, LP, SP, BP]),
            ControlOp::Jsr(Jump::Relative(_)) => RegisterFlags::from_slice(&[PC, LP, SP, BP]),
            ControlOp::Ret => RegisterFlags::from_slice(&[LP, BP]),
            _ => RegisterFlags::from_slice(&[]),
        }
    }
}

impl Jump {
    /// The jump target as written in assembly: a register, or a signed offset.
    pub open spec fn shown(self) -> Seq<char> {
        match self {
            Jump::Register(r) => vreg(r),
            Jump::Relative(off) => signed_text(off as int, true),
        }
    }

    /// Writes the jump target as in assembly.
    pub fn fmt(&self, f: &mut String)
        ensures
            final(f)@ == old(f)@ + self.shown(),
    {
        match *self {
            Jump::Register(r) => push_vreg(f, r),
            Jump::Relative(off) => push_signed(f, off, true),
        }
    }
}

impl ControlOp {
    /// The operation as written in assembly.
    pub open spec fn shown(self) -> Seq<char> {
        match self {
            ControlOp::Halt => "HALT"@,
            ControlOp::Nop => "NOP"@,
            ControlOp::Ret => "RET"@,
            ControlOp::Jmp(j) => "JMP"@ + " "@ + j.shown(),
            ControlOp::Jsr(j) => "JSR"@ + " "@ + j.shown(),
            ControlOp::Jeq(j) => "JEQ"@ + " "@ + j.shown(),
            ControlOp::Jne(j) => "JNE"@ + " "@ + j.shown(),
            ControlOp::Jgt(j) => "JGT"@ + " "@ + j.shown(),
            ControlOp::Jlt(j) => "JLT"@ + " "@ + j.shown(),
            ControlOp::Jge(j) => "JGE"@ + " "@ + j.shown(),
            ControlOp::Jle(j) => "JLE"@ + " "@ + j.shown(),
        }
    }

    /// Writes the operation as in assembly.
    pub fn fmt(&self, f: &mut String)
        ensures
            final(f)@ == old(f)@ + self.shown(),
    {
        match *self {
            ControlOp::Halt => f.append("HALT"),
            ControlOp::Nop => f.append("NOP"),
            ControlOp::Ret => f.append("RET"),
            ControlOp::Jmp(j) => {
                f.append("JMP");
                f.append(" ");
                j.fmt(f);
            },
            ControlOp::Jsr(j) => {
                f.append("JSR");
                f.append(" ");
                j.fmt(f);
            },
            ControlOp::Jeq(j) => {
                f.append("JEQ");
                f.append(" ");
                j.fmt(f);
            },
            ControlOp::Jne(j) => {
                f.append("JNE");
                f.append(" ");
                j.fmt(f);
            },
            ControlOp::Jgt(j) => {
                f.append("JGT");
                f.append(" ");
                j.fmt(f);
            },
            ControlOp::Jlt(j) => {
                f.append("JLT");
                f.append(" ");
                j.fmt(f);
            },
            ControlOp::Jge(j) => {
                f.append("JGE");
                f.append(" ");
                j.fmt(f);
            },
            ControlOp::Jle(j) => {
                f.append("JLE");
                f.append(" ");
                j.fmt(f);
            },
        }
    }
}

/// The assembly mnemonic of each control operation code.
pub open spec fn control_mnemonic(opcode: Word) -> Seq<char> {
    if opcode == NOP {
        "NOP"@
    } else if opcode == HALT {
        "HALT"@
    } else if opcode == JMP {
        "JMP"@
    } else if opcode == JSR {
        "JSR"@
    } else if opcode == RET {
        "RET"@
    } else if opcode == JEQ {
        "JEQ"@
    } else if opcode == JNE {
        "JNE"@
    } else if opcode == JGT {
        "JGT"@
    } else if opcode == JLT {
        "JLT"@
    } else if opcode == JGE {
        "JGE"@
    } else {
        "JLE"@
    }
}

/// The text of a control operation starts with the mnemonic of its operation
/// code; a jump's mnemonic is followed by a space and the jump target.
pub proof fn law_control_text_starts_with_mnemonic(op: ControlOp)
    ensures
        op.shown().len() >= control_mnemonic(op.opcode()).len(),
        op.shown().subrange(0, control_mnemonic(op.opcode()).len() as int) == control_mnemonic(op.opcode()),
        (op is Nop || op is Halt || op is Ret) ==> op.shown() == control_mnemonic(op.opcode()),
        !(op is Nop || op is Halt || op is Ret) ==> op.shown()[3] == ' ',
{
    reveal_strlit("NOP");
    reveal_strlit("HALT");
    reveal_strlit("RET");
    reveal_strlit("JMP");
    reveal_strlit("JSR");
    reveal_strlit("JEQ");
    reveal_strlit("JNE");
    reveal_strlit("JGT");
    reveal_strlit("JLT");
    reveal_strlit("JGE");
    reveal_strlit("JLE");
    reveal_strlit(" ");
    let t = op.shown();
    let mn = control_mnemonic(op.opcode());
    if !(op is Nop || op is Halt || op is Ret) {
        assert(t.subrange(0, 3) =~= mn);
    }
}

/// Operations with different operation codes are written differently: the
/// text of an operation names the operation.
pub proof fn law_control_texts_differ(a: ControlOp, b: ControlOp)
    requires
        a.opcode() != b.opcode(),
    ensures
        a.shown() != b.shown(),
{
    law_control_text_starts_with_mnemonic(a);
    law_control_text_starts_with_mnemonic(b);
    reveal_strlit("NOP");
    reveal_strlit("HALT");
    reveal_strlit("RET");
    reveal_strlit("JMP");
    reveal_strlit("JSR");
    reveal_strlit("JEQ");
    reveal_strlit("JNE");
    reveal_strlit("JGT");
    reveal_strlit("JLT");
    reveal_strlit("JGE");
    reveal_strlit("JLE");
    if a.shown() == b.shown() {
        let ma = control_mnemonic(a.opcode());
        let mb = control_mnemonic(b.opcode());
        assert(ma[0] == a.shown()[0] && mb[0] == b.shown()[0]);
        assert(ma[1] == a.shown()[1] && mb[1] == b.shown()[1]);
        assert(ma[2] == a.shown()[2] && mb[2] == b.shown()[2]);
    }
}

} // verus!
