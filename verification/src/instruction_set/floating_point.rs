//! Floating-point operations: their encoding and the registers they use.
//! Carrying them out is left to a floating-point unit outside this crate.
use super::error::{DecodeError, DecodeResult};
use super::{Decode, Encode, Info};
use crate::registers::{RegisterFlags, EPS, INF, NAN, OF, ZF};
use crate::text::{hex_text, push_hex, push_vreg, vreg};
use crate::types::{Register, Word};
use vstd::prelude::*;

verus! {

/// The bits that the operands of a floating-point operation occupy in a word.
pub open spec fn operand_region() -> Word {
    0x00FF_FFFF
}

proof fn lemma_nibbles(w: u32) by (bit_vector)
    ensures
        (w & 0xF00) >> 8 < 16,
        (w & 0xF0) >> 4 < 16,
        (w & 0xF) >> 0 < 16,
        w & 0xF < 16,
{
}

proof fn lemma_three_nibbles(a: u32, b: u32, c: u32, hi: u32) by (bit_vector)
    requires
        a < 16,
        b < 16,
        c < 16,
        hi & 0x00FF_FFFF == 0,
    ensures
        ((((a << 8) | (b << 4) | (c << 0)) | hi) & 0xF00) >> 8 == a,
        ((((a << 8) | (b << 4) | (c << 0)) | hi) & 0xF0) >> 4 == b,
        ((((a << 8) | (b << 4) | (c << 0)) | hi) & 0xF) >> 0 == c,
        ((a << 8) | (b << 4) | (c << 0)) & !0x00FF_FFFFu32 == 0,
{
}

proof fn lemma_two_nibbles(a: u32, b: u32, hi: u32) by (bit_vector)
    requires
        a < 16,
        b < 16,
        hi & 0x00FF_FFFF == 0,
    ensures
        ((((a << 4) | (b << 0)) | hi) & 0xF0) >> 4 == a,
        ((((a << 4) | (b << 0)) | hi) & 0xF) >> 0 == b,
        ((a << 4) | (b << 0)) & !0x00FF_FFFFu32 == 0,
        ((((a << 4) | (b << 8)) | hi) & 0xF0) >> 4 == a,
        ((((a << 4) | (b << 8)) | hi) & 0xF00) >> 8 == b,
        ((a << 4) | (b << 8)) & !0x00FF_FFFFu32 == 0,
        ((a | hi) & 0xF) == a,
        a & !0x00FF_FFFFu32 == 0,
{
}

/// Binary floating-point operation
#[derive(Debug, Clone, Copy, PartialEq, Eq, Structural)]
pub struct BinaryOp {
    /// Left register
    pub left: Register,
    /// Right register
    pub right: Register,
    /// Destination register
    pub destination: Register,
}

impl BinaryOp {
    /// An operation that its encoding represents exactly.
    pub open spec fn wf(self) -> bool {
        self.left < 16 && self.right < 16 && self.destination < 16
    }

    /// The operands a word holds.
    pub open spec fn spec_from_word(word: Word) -> BinaryOp {
        BinaryOp {
            left: ((word & 0xF00) >> 8) as Register,
            right: ((word & 0xF0) >> 4) as Register,
            destination: ((word & 0xF) >> 0) as Register,
        }
    }

    /// Reads the operands a word holds.
    pub fn from_word(word: Word) -> (r: BinaryOp)
        ensures
            r == BinaryOp::spec_from_word(word),
    {
        proof { lemma_nibbles(word); }
        BinaryOp {
            left: ((word & 0xF00) >> 8) as Register,
            right: ((word & 0xF0) >> 4) as Register,
            destination: ((word & 0xF) >> 0) as Register,
        }
    }

    /// A well-formed operation reads back from its encoding, whatever stands in
    /// the bits above the operand region; the encoding stays inside the region.
    pub proof fn lemma_roundtrip(self, hi: Word)
        requires
            self.wf(),
            hi & operand_region() == 0,
        ensures
            BinaryOp::spec_from_word(self.spec_encode() | hi) == self,
            self.spec_encode() & !operand_region() == 0,
    {
        lemma_three_nibbles(self.left as u32, self.right as u32, self.destination as u32, hi);
    }

    /// Operands read from any word are well-formed.
    pub proof fn lemma_from_word_wf(word: Word)
        ensures
            BinaryOp::spec_from_word(word).wf(),
    {
        lemma_nibbles(word);
    }
}

impl Encode for BinaryOp {
    open spec fn spec_encode(self) -> Word {
        ((self.left as Word) << 8) | ((self.right as Word) << 4) | ((self.destination as Word) << 0)
    }

    fn encode(self) -> (w: Word) {
        ((self.left as Word) << 8) | ((self.right as Word) << 4) | ((self.destination as Word) << 0)
    }
}

/// Unary floating-point operation
#[derive(Debug, Clone, Copy, PartialEq, Eq, Structural)]
pub struct UnaryOp {
    /// Source register
    pub source: Register,
    /// Destination register
    pub destination: Register,
}

/// Floating-point conversion operation
#[derive(Debug, Clone, Copy, PartialEq, Eq, Structural)]
pub struct ConversionOp {
    /// Source register
    pub source: Register,
    /// Destination register
    pub destination: Register,
}

impl UnaryOp {
    /// An operation that its encoding represents exactly.
    pub open spec fn wf(self) -> bool {
        self.source < 16 && self.destination < 16
    }

    /// The operands a word holds.
    pub open spec fn spec_from_word(word: Word) -> UnaryOp {
        UnaryOp { source: ((word & 0xF0) >> 4) as Register, destination: ((word & 0xF) >> 0) as Register }
    }

    /// Reads the operands a word holds.
    pub fn from_word(word: Word) -> (r: UnaryOp)
        ensures
            r == UnaryOp::spec_from_word(word),
    {
        proof { lemma_nibbles(word); }
        UnaryOp { source: ((word & 0xF0) >> 4) as Register, destination: ((word & 0xF) >> 0) as Register }
    }

    /// A well-formed operation reads back from its encoding, whatever stands in
    /// the bits above the operand region; the encoding stays inside the region.
    pub proof fn lemma_roundtrip(self, hi: Word)
        requires
            self.wf(),
            hi & operand_region() == 0,
        ensures
            UnaryOp::spec_from_word(self.spec_encode() | hi) == self,
            self.spec_encode() & !operand_region() == 0,
    {
        lemma_two_nibbles(self.source as u32, self.destination as u32, hi);
    }

    /// Operands read from any word are well-formed.
    pub proof fn lemma_from_word_wf(word: Word)
        ensures
            UnaryOp::spec_from_word(word).wf(),
    {
        lemma_nibbles(word);
    }
}

impl Encode for UnaryOp {
    open spec fn spec_encode(self) -> Word {
        ((self.source as Word) << 4) | ((self.destination as Word) << 0)
    }

    fn encode(self) -> (w: Word) {
        ((self.source as Word) << 4) | ((self.destination as Word) << 0)
    }
}

impl ConversionOp {
    /// An operation that its encoding represents exactly.
    pub open spec fn wf(self) -> bool {
        self.source < 16 && self.destination < 16
    }

    /// The operands a word holds.
    pub open spec fn spec_from_word(word: Word) -> ConversionOp {
        ConversionOp { source: ((word & 0xF0) >> 4) as Register, destination: ((word & 0xF) >> 0) as Register }
    }

    /// Reads the operands a word holds.
    pub fn from_word(word: Word) -> (r: ConversionOp)
        ensures
            r == ConversionOp::spec_from_word(word),
    {
        proof { lemma_nibbles(word); }
        ConversionOp { source: ((word & 0xF0) >> 4) as Register, destination: ((word & 0xF) >> 0) as Register }
    }

    /// A well-formed operation reads back from its encoding, whatever stands in
    /// the bits above the operand region; the encoding stays inside the region.
    pub proof fn lemma_roundtrip(self, hi: Word)
        requires
            self.wf(),
            hi & operand_region() == 0,
        ensures
            ConversionOp::spec_from_word(self.spec_encode() | hi) == self,
            self.spec_encode() & !operand_region() == 0,
    {
        lemma_two_nibbles(self.source as u32, self.destination as u32, hi);
    }

    /// Operands read from any word are well-formed.
    pub proof fn lemma_from_word_wf(word: Word)
        ensures
            ConversionOp::spec_from_word(word).wf(),
    {
        lemma_nibbles(word);
    }
}

impl Encode for ConversionOp {
    open spec fn spec_encode(self) -> Word {
        ((self.source as Word) << 4) | ((self.destination as Word) << 0)
    }

    fn encode(self) -> (w: Word) {
        ((self.source as Word) << 4) | ((self.destination as Word) << 0)
    }
}

/// Binary floating-point comparison
#[derive(Debug, Clone, Copy, PartialEq, Eq, Structural)]
pub struct CompOp {
    /// Left register
    pub left: Register,
    /// Right register
    pub right: Register,
}

impl CompOp {
    /// An operation that its encoding represents exactly.
    pub open spec fn wf(self) -> bool {
        self.left < 16 && self.right < 16
    }

    /// The operands a word holds.
    pub open spec fn spec_from_word(word: Word) -> CompOp {
        CompOp { left: ((word & 0xF0) >> 4) as Register, right: ((word & 0xF00) >> 8) as Register }
    }

    /// Reads the operands a word holds.
    pub fn from_word(word: Word) -> (r: CompOp)
        ensures
            r == CompOp::spec_from_word(word),
    {
        proof { lemma_nibbles(word); }
        CompOp { left: ((word & 0xF0) >> 4) as Register, right: ((word & 0xF00) >> 8) as Register }
    }

    /// A well-formed operation reads back from its encoding, whatever stands in
    /// the bits above the operand region; the encoding stays inside the region.
    pub proof fn lemma_roundtrip(self, hi: Word)
        requires
            self.wf(),
            hi & operand_region() == 0,
        ensures
            CompOp::spec_from_word(self.spec_encode() | hi) == self,
            self.spec_encode() & !operand_region() == 0,
    {
        lemma_two_nibbles(self.left as u32, self.right as u32, hi);
    }

    /// Operands read from any word are well-formed.
    pub proof fn lemma_from_word_wf(word: Word)
        ensures
            CompOp::spec_from_word(word).wf(),
    {
        lemma_nibbles(word);
    }
}

impl Encode for CompOp {
    open spec fn spec_encode(self) -> Word {
        ((self.left as Word) << 4) | ((self.right as Word) << 8)
    }

    fn encode(self) -> (w: Word) {
        ((self.left as Word) << 4) | ((self.right as Word) << 8)
    }
}

/// Floating-point check operation (NAN/INF)
#[derive(Debug, Clone, Copy, PartialEq, Eq, Structural)]
pub struct CheckOp(pub Register);

impl CheckOp {
    /// An operation that its encoding represents exactly.
    pub open spec fn wf(self) -> bool {
        self.0 < 16
    }

    /// The operand a word holds.
    pub open spec fn spec_from_word(word: Word) -> CheckOp {
        CheckOp((word & 0xF) as Register)
    }

    /// Reads the operand a word holds.
    pub fn from_word(word: Word) -> (r: CheckOp)
        ensures
            r == CheckOp::spec_from_word(word),
    {
        proof { lemma_nibbles(word); }
        CheckOp((word & 0xF) as Register)
    }

    /// A well-formed operation reads back from its encoding, whatever stands in
    /// the bits above the operand region; the encoding stays inside the region.
    pub proof fn lemma_roundtrip(self, hi: Word)
        requires
            self.wf(),
            hi & operand_region() == 0,
        ensures
            CheckOp::spec_from_word(self.spec_encode() | hi) == self,
            self.spec_encode() & !operand_region() == 0,
    {
        lemma_two_nibbles(self.0 as u32, 0, hi);
    }

    /// Operands read from any word are well-formed.
    pub proof fn lemma_from_word_wf(word: Word)
        ensures
            CheckOp::spec_from_word(word).wf(),
    {
        lemma_nibbles(word);
    }
}

impl Encode for CheckOp {
    open spec fn spec_encode(self) -> Word {
        self.0 as Word
    }

    fn encode(self) -> (w: Word) {
        self.0 as Word
    }
}

impl Decode for BinaryOp {
    open spec fn spec_decode(word: Word) -> DecodeResult<BinaryOp> {
        Ok(BinaryOp::spec_from_word(word))
    }

    fn decode(word: Word) -> (r: DecodeResult<BinaryOp>) {
        Ok(BinaryOp::from_word(word))
    }
}

impl Decode for UnaryOp {
    open spec fn spec_decode(word: Word) -> DecodeResult<UnaryOp> {
        Ok(UnaryOp::spec_from_word(word))
    }

    fn decode(word: Word) -> (r: DecodeResult<UnaryOp>) {
        Ok(UnaryOp::from_word(word))
    }
}

impl Decode for ConversionOp {
    open spec fn spec_decode(word: Word) -> DecodeResult<ConversionOp> {
        Ok(ConversionOp::spec_from_word(word))
    }

    fn decode(word: Word) -> (r: DecodeResult<ConversionOp>) {
        Ok(ConversionOp::from_word(word))
    }
}

impl Decode for CompOp {
    open spec fn spec_decode(word: Word) -> DecodeResult<CompOp> {
        Ok(CompOp::spec_from_word(word))
    }

    fn decode(word: Word) -> (r: DecodeResult<CompOp>) {
        Ok(CompOp::from_word(word))
    }
}

impl Decode for CheckOp {
    open spec fn spec_decode(word: Word) -> DecodeResult<CheckOp> {
        Ok(CheckOp::spec_from_word(word))
    }

    fn decode(word: Word) -> (r: DecodeResult<CheckOp>) {
        Ok(CheckOp::from_word(word))
    }
}

/// Mask to extract the floating-point operation code
pub const MASK: Word = 0x1F00_0000;
/// Operation code shift
pub const SHIFT: Word = 24;
/// Floating-point addition bits
pub const FADD: Word = 0;
/// Floating-point subtraction bits
pub const FSUB: Word = 1;
/// Floating-point multiplication bits
pub const FMUL: Word = 2;
/// Floating-point division bits
pub const FDIV: Word = 3;
/// Floating-point modulo bits
pub const FMOD: Word = 4;
/// Floating-point comparison bits
pub const FCMP: Word = 5;
/// Floating-point negation bits
pub const FNEG: Word = 6;
/// Floating-point reciprocal bits
pub const FREC: Word = 7;
/// Integer-to-float bits
pub const ITOF: Word = 8;
/// Float-to-integer bits
pub const FTOI: Word = 9;
/// Floating-point check bits
pub const FCHK: Word = 10;

/// The bits that a [`FloatingPointOp`] occupies in a word.
pub open spec fn floating_point_region() -> Word {
    0x1FFF_FFFF
}

/// Floating point instructions
#[derive(Debug, Clone, Copy, PartialEq, Eq, Structural)]
pub enum FloatingPointOp {
    /// Floating-point addition
    Fadd(BinaryOp),
    /// Floating-point subtraction
    Fsub(BinaryOp),
    /// Floating-point multiplication
    Fmul(BinaryOp),
    /// Floating-point division
    Fdiv(BinaryOp),
    /// Floating-point modulo
    Fmod(BinaryOp),
    /// Floating-point comparison
    Fcmp(CompOp),
    /// Floating-point negation
    Fneg(UnaryOp),
    /// Floating-point reciprocal
    Frec(UnaryOp),
    /// Integer-to-float
    Itof(ConversionOp),
    /// Float-to-integer
    Ftoi(ConversionOp),
    /// Floating-point check
    Fchk(CheckOp),
}

impl FloatingPointOp {
    /// An operation that its encoding represents exactly.
    pub open spec fn wf(self) -> bool {
        match self {
            FloatingPointOp::Fadd(o) => o.wf(),
            FloatingPointOp::Fsub(o) => o.wf(),
            FloatingPointOp::Fmul(o) => o.wf(),
            FloatingPointOp::Fdiv(o) => o.wf(),
            FloatingPointOp::Fmod(o) => o.wf(),
            FloatingPointOp::Fcmp(o) => o.wf(),
            FloatingPointOp::Fneg(o) => o.wf(),
            FloatingPointOp::Frec(o) => o.wf(),
            FloatingPointOp::Itof(o) => o.wf(),
            FloatingPointOp::Ftoi(o) => o.wf(),
            FloatingPointOp::Fchk(o) => o.wf(),
        }
    }

    /// The operation code of the operation.
    pub open spec fn opcode(self) -> Word {
        match self {
            FloatingPointOp::Fadd(_) => FADD,
            FloatingPointOp::Fsub(_) => FSUB,
            FloatingPointOp::Fmul(_) => FMUL,
            FloatingPointOp::Fdiv(_) => FDIV,
            FloatingPointOp::Fmod(_) => FMOD,
            FloatingPointOp::Fcmp(_) => FCMP,
            FloatingPointOp::Fneg(_) => FNEG,
            FloatingPointOp::Frec(_) => FREC,
            FloatingPointOp::Itof(_) => ITOF,
            FloatingPointOp::Ftoi(_) => FTOI,
            FloatingPointOp::Fchk(_) => FCHK,
        }
    }
}

impl Decode for FloatingPointOp {
    open spec fn spec_decode(word: Word) -> DecodeResult<FloatingPointOp> {
        let op = (word & MASK) >> SHIFT;
        if op == FADD {
            Ok(FloatingPointOp::Fadd(BinaryOp::spec_from_word(word)))
        } else if op == FSUB {
            Ok(FloatingPointOp::Fsub(BinaryOp::spec_from_word(word)))
        } else if op == FMUL {
            Ok(FloatingPointOp::Fmul(BinaryOp::spec_from_word(word)))
        } else if op == FDIV {
            Ok(FloatingPointOp::Fdiv(BinaryOp::spec_from_word(word)))
        } else if op == FMOD {
            Ok(FloatingPointOp::Fmod(BinaryOp::spec_from_word(word)))
        } else if op == FCMP {
            Ok(FloatingPointOp::Fcmp(CompOp::spec_from_word(word)))
        } else if op == FNEG {
            Ok(FloatingPointOp::Fneg(UnaryOp::spec_from_word(word)))
        } else if op == FREC {
            Ok(FloatingPointOp::Frec(UnaryOp::spec_from_word(word)))
        } else if op == ITOF {
            Ok(FloatingPointOp::Itof(ConversionOp::spec_from_word(word)))
        } else if op == FTOI {
            Ok(FloatingPointOp::Ftoi(ConversionOp::spec_from_word(word)))
        } else if op == FCHK {
            Ok(FloatingPointOp::Fchk(CheckOp::spec_from_word(word)))
        } else {
            Err(DecodeError::InvalidFloatingPointOp(word))
        }
    }

    fn decode(word: Word) -> (r: DecodeResult<FloatingPointOp>) {
        let op = (word & MASK) >> SHIFT;
        if op == FADD {
            Ok(FloatingPointOp::Fadd(BinaryOp::from_word(word)))
        } else if op == FSUB {
            Ok(FloatingPointOp::Fsub(BinaryOp::from_word(word)))
        } else if op == FMUL {
            Ok(FloatingPointOp::Fmul(BinaryOp::from_word(word)))
        } else if op == FDIV {
            Ok(FloatingPointOp::Fdiv(BinaryOp::from_word(word)))
        } else if op == FMOD {
            Ok(FloatingPointOp::Fmod(BinaryOp::from_word(word)))
        } else if op == FCMP {
            Ok(FloatingPointOp::Fcmp(CompOp::from_word(word)))
        } else if op == FNEG {
            Ok(FloatingPointOp::Fneg(UnaryOp::from_word(word)))
        } else if op == FREC {
            Ok(FloatingPointOp::Frec(UnaryOp::from_word(word)))
        } else if op == ITOF {
            Ok(FloatingPointOp::Itof(ConversionOp::from_word(word)))
        } else if op == FTOI {
            Ok(FloatingPointOp::Ftoi(ConversionOp::from_word(word)))
        } else if op == FCHK {
            Ok(FloatingPointOp::Fchk(CheckOp::from_word(word)))
        } else {
            Err(DecodeError::InvalidFloatingPointOp(word))
        }
    }
}

impl Encode for FloatingPointOp {
    open spec fn spec_encode(self) -> Word {
        match self {
            FloatingPointOp::Fadd(o) => (FADD << SHIFT) | o.spec_encode(),
            FloatingPointOp::Fsub(o) => (FSUB << SHIFT) | o.spec_encode(),
            FloatingPointOp::Fmul(o) => (FMUL << SHIFT) | o.spec_encode(),
            FloatingPointOp::Fdiv(o) => (FDIV << SHIFT) | o.spec_encode(),
            FloatingPointOp::Fmod(o) => (FMOD << SHIFT) | o.spec_encode(),
            FloatingPointOp::Fcmp(o) => (FCMP << SHIFT) | o.spec_encode(),
            FloatingPointOp::Fneg(o) => (FNEG << SHIFT) | o.spec_encode(),
            FloatingPointOp::Frec(o) => (FREC << SHIFT) | o.spec_encode(),
            FloatingPointOp::Itof(o) => (ITOF << SHIFT) | o.spec_encode(),
            FloatingPointOp::Ftoi(o) => (FTOI << SHIFT) | o.spec_encode(),
            FloatingPointOp::Fchk(o) => (FCHK << SHIFT) | o.spec_encode(),
        }
    }

    fn encode(self) -> (w: Word) {
        match self {
            FloatingPointOp::Fadd(o) => (FADD << SHIFT) | o.encode(),
            FloatingPointOp::Fsub(o) => (FSUB << SHIFT) | o.encode(),
            FloatingPointOp::Fmul(o) => (FMUL << SHIFT) | o.encode(),
            FloatingPointOp::Fdiv(o) => (FDIV << SHIFT) | o.encode(),
            FloatingPointOp::Fmod(o) => (FMOD << SHIFT) | o.encode(),
            FloatingPointOp::Fcmp(o) => (FCMP << SHIFT) | o.encode(),
            FloatingPointOp::Fneg(o) => (FNEG << SHIFT) | o.encode(),
            FloatingPointOp::Frec(o) => (FREC << SHIFT) | o.encode(),
            FloatingPointOp::Itof(o) => (ITOF << SHIFT) | o.encode(),
            FloatingPointOp::Ftoi(o) => (FTOI << SHIFT) | o.encode(),
            FloatingPointOp::Fchk(o) => (FCHK << SHIFT) | o.encode(),
        }
    }
}

proof fn lemma_opcode_field(op: u32, operand: u32, hi: u32) by (bit_vector)
    requires
        op < 32,
        operand & !0x00FF_FFFFu32 == 0,
        hi & 0x1FFF_FFFF == 0,
    ensures
        ((((op << 24) | operand) | hi) & 0x1F00_0000) >> 24 == op,
        (((op << 24) | operand) | hi) == operand | ((op << 24) | hi),
        ((op << 24) | hi) & 0x00FF_FFFF == 0,
        ((op << 24) | operand) & !0x1FFF_FFFFu32 == 0,
{
}

impl FloatingPointOp {
    /// A well-formed operation decodes back from its encoding, whatever stands
    /// in the bits above its region; the encoding stays inside the region.
    pub proof fn lemma_roundtrip(self, hi: Word)
        requires
            self.wf(),
            hi & floating_point_region() == 0,
        ensures
            FloatingPointOp::spec_decode(self.spec_encode() | hi) == Ok::<FloatingPointOp, DecodeError>(self),
            self.spec_encode() & !floating_point_region() == 0,
    {
        let op = self.opcode();
        crate::bits::lemma_zero_and(operand_region());
        match self {
            FloatingPointOp::Fadd(o) => {
                o.lemma_roundtrip(0);
                crate::bits::lemma_or_zero(o.spec_encode());
                lemma_opcode_field(op, o.spec_encode(), hi);
                o.lemma_roundtrip((op << 24) | hi);
            },
            FloatingPointOp::Fsub(o) => {
                o.lemma_roundtrip(0);
                crate::bits::lemma_or_zero(o.spec_encode());
                lemma_opcode_field(op, o.spec_encode(), hi);
                o.lemma_roundtrip((op << 24) | hi);
            },
            FloatingPointOp::Fmul(o) => {
                o.lemma_roundtrip(0);
                crate::bits::lemma_or_zero(o.spec_encode());
                lemma_opcode_field(op, o.spec_encode(), hi);
                o.lemma_roundtrip((op << 24) | hi);
            },
            FloatingPointOp::Fdiv(o) => {
                o.lemma_roundtrip(0);
                crate::bits::lemma_or_zero(o.spec_encode());
                lemma_opcode_field(op, o.spec_encode(), hi);
                o.lemma_roundtrip((op << 24) | hi);
            },
            FloatingPointOp::Fmod(o) => {
                o.lemma_roundtrip(0);
                crate::bits::lemma_or_zero(o.spec_encode());
                lemma_opcode_field(op, o.spec_encode(), hi);
                o.lemma_roundtrip((op << 24) | hi);
            },
            FloatingPointOp::Fcmp(o) => {
                o.lemma_roundtrip(0);
                crate::bits::lemma_or_zero(o.spec_encode());
                lemma_opcode_field(op, o.spec_encode(), hi);
                o.lemma_roundtrip((op << 24) | hi);
            },
            FloatingPointOp::Fneg(o) => {
                o.lemma_roundtrip(0);
                crate::bits::lemma_or_zero(o.spec_encode());
                lemma_opcode_field(op, o.spec_encode(), hi);
                o.lemma_roundtrip((op << 24) | hi);
            },
            FloatingPointOp::Frec(o) => {
                o.lemma_roundtrip(0);
                crate::bits::lemma_or_zero(o.spec_encode());
                lemma_opcode_field(op, o.spec_encode(), hi);
                o.lemma_roundtrip((op << 24) | hi);
            },
            FloatingPointOp::Itof(o) => {
                o.lemma_roundtrip(0);
                crate::bits::lemma_or_zero(o.spec_encode());
                lemma_opcode_field(op, o.spec_encode(), hi);
                o.lemma_roundtrip((op << 24) | hi);
            },
            FloatingPointOp::Ftoi(o) => {
                o.lemma_roundtrip(0);
                crate::bits::lemma_or_zero(o.spec_encode());
                lemma_opcode_field(op, o.spec_encode(), hi);
                o.lemma_roundtrip((op << 24) | hi);
            },
            FloatingPointOp::Fchk(o) => {
                o.lemma_roundtrip(0);
                crate::bits::lemma_or_zero(o.spec_encode());
                lemma_opcode_field(op, o.spec_encode(), hi);
                o.lemma_roundtrip((op << 24) | hi);
            },
        }
    }

    /// Whatever decodes from a word is well-formed.
    pub proof fn lemma_decode_wf(word: Word)
        ensures
            FloatingPointOp::spec_decode(word) matches Ok(f) ==> f.wf(),
    {
        BinaryOp::lemma_from_word_wf(word);
        UnaryOp::lemma_from_word_wf(word);
        ConversionOp::lemma_from_word_wf(word);
        CompOp::lemma_from_word_wf(word);
        CheckOp::lemma_from_word_wf(word);
    }
}

impl Info for FloatingPointOp {
    open spec fn spec_write_regs(self) -> RegisterFlags {
        match self {
            FloatingPointOp::Fadd(BinaryOp { destination: r, .. }) | FloatingPointOp::Fsub(BinaryOp { destination: r, .. })
            | FloatingPointOp::Fmul(BinaryOp { destination: r, .. }) | FloatingPointOp::Fdiv(BinaryOp { destination: r, .. })
            | FloatingPointOp::Fmod(BinaryOp { destination: r, .. }) | FloatingPointOp::Fneg(UnaryOp { destination: r, .. })
            | FloatingPointOp::Frec(UnaryOp { destination: r, .. }) | FloatingPointOp::Itof(ConversionOp { destination: r, .. })
            | FloatingPointOp::Ftoi(ConversionOp { destination: r, .. }) => RegisterFlags::of([r, ZF, OF, EPS, NAN, INF]@),
            FloatingPointOp::Fcmp(_) | FloatingPointOp::Fchk(_) => RegisterFlags::of([ZF, OF, EPS, NAN, INF]@),
        }
    }

    open spec fn spec_read_regs(self) -> RegisterFlags {
        match self {
            FloatingPointOp::Fadd(BinaryOp { left: r0, right: r1, .. }) | FloatingPointOp::Fsub(BinaryOp { left: r0, right: r1, .. })
            | FloatingPointOp::Fmul(BinaryOp { left: r0, right: r1, .. }) | FloatingPointOp::Fdiv(BinaryOp { left: r0, right: r1, .. })
            | FloatingPointOp::Fmod(BinaryOp { left: r0, right: r1, .. }) | FloatingPointOp::Fcmp(CompOp { left: r0, right: r1 }) => RegisterFlags::of([r0, r1]@),
            FloatingPointOp::Fneg(UnaryOp { source: r, .. }) | FloatingPointOp::Frec(UnaryOp { source: r, .. })
            | FloatingPointOp::Itof(ConversionOp { source: r, .. }) | FloatingPointOp::Ftoi(ConversionOp { source: r, .. })
            | FloatingPointOp::Fchk(CheckOp(r)) => RegisterFlags::of([r]@),
        }
    }

    fn get_write_regs(self) -> (r: RegisterFlags) {
        match self {
            FloatingPointOp::Fadd(BinaryOp { destination: r, .. }) | FloatingPointOp::Fsub(BinaryOp { destination: r, .. })
            | FloatingPointOp::Fmul(BinaryOp { destination: r, .. }) | FloatingPointOp::Fdiv(BinaryOp { destination: r, .. })
            | FloatingPointOp::Fmod(BinaryOp { destination: r, .. }) | FloatingPointOp::Fneg(UnaryOp { destination: r, .. })
            | FloatingPointOp::Frec(UnaryOp { destination: r, .. }) | FloatingPointOp::Itof(ConversionOp { destination: r, .. })
            | FloatingPointOp::Ftoi(ConversionOp { destination: r, .. }) => RegisterFlags::from_slice(&[r, ZF, OF, EPS, NAN, INF]),
            FloatingPointOp::Fcmp(_) | FloatingPointOp::Fchk(_) => RegisterFlags::from_slice(&[ZF, OF, EPS, NAN, INF]),
        }
    }

    fn get_read_regs(self) -> (r: RegisterFlags) {
        match self {
            FloatingPointOp::Fadd(BinaryOp { left: r0, right: r1, .. }) | FloatingPointOp::Fsub(BinaryOp { left: r0, right: r1, .. })
            | FloatingPointOp::Fmul(BinaryOp { left: r0, right: r1, .. }) | FloatingPointOp::Fdiv(BinaryOp { left: r0, right: r1, .. })
            | FloatingPointOp::Fmod(BinaryOp { left: r0, right: r1, .. }) | FloatingPointOp::Fcmp(CompOp { left: r0, right: r1 }) => RegisterFlags::from_slice(&[r0, r1]),
            FloatingPointOp::Fneg(UnaryOp { source: r, .. }) | FloatingPointOp::Frec(UnaryOp { source: r, .. })
            | FloatingPointOp::Itof(ConversionOp { source: r, .. }) | FloatingPointOp::Ftoi(ConversionOp { source: r, .. })
            | FloatingPointOp::Fchk(CheckOp(r)) => RegisterFlags::from_slice(&[r]),
        }
    }
}

impl BinaryOp {
    /// The operands as written in assembly.
    pub open spec fn shown(self) -> Seq<char> {
        vreg(self.left) + ", "@ + vreg(self.right) + " => "@ + vreg(self.destination)
    }

    /// Writes the operands as in assembly.
    pub fn fmt(&self, f: &mut String)
        ensures
            final(f)@ == old(f)@ + self.shown(),
    {
        push_vreg(f, self.left);
        f.append(", ");
        push_vreg(f, self.right);
        f.append(" => ");
        push_vreg(f, self.destination);
    }
}

impl UnaryOp {
    /// The operands as written in assembly.
    pub open spec fn shown(self) -> Seq<char> {
        vreg(self.source) + " => "@ + vreg(self.destination)
    }

    /// Writes the operands as in assembly.
    pub fn fmt(&self, f: &mut String)
        ensures
            final(f)@ == old(f)@ + self.shown(),
    {
        push_vreg(f, self.source);
        f.append(" => ");
        push_vreg(f, self.destination);
    }
}

impl ConversionOp {
    /// The operands as written in assembly.
    pub open spec fn shown(self) -> Seq<char> {
        vreg(self.source) + " => "@ + vreg(self.destination)
    }

    /// Writes the operands as in assembly.
    pub fn fmt(&self, f: &mut String)
        ensures
            final(f)@ == old(f)@ + self.shown(),
    {
        push_vreg(f, self.source);
        f.append(" => ");
        push_vreg(f, self.destination);
    }
}

impl CompOp {
    /// The operands as written in assembly.
    pub open spec fn shown(self) -> Seq<char> {
        vreg(self.left) + ", "@ + vreg(self.right)
    }

    /// Writes the operands as in assembly.
    pub fn fmt(&self, f: &mut String)
        ensures
            final(f)@ == old(f)@ + self.shown(),
    {
        push_vreg(f, self.left);
        f.append(", ");
        push_vreg(f, self.right);
    }
}

impl CheckOp {
    /// The operand as written in assembly, with a lower-case digit.
    pub open spec fn shown(self) -> Seq<char> {
        "V"@ + hex_text(self.0 as nat, false)
    }

    /// Writes the operand as in assembly.
    pub fn fmt(&self, f: &mut String)
        ensures
            final(f)@ == old(f)@ + self.shown(),
    {
        f.append("V");
        push_hex(f, self.0 as u32, false);
    }
}

impl FloatingPointOp {
    /// The mnemonic of the operation.
    pub open spec fn mnemonic(self) -> Seq<char> {
        match self {
            FloatingPointOp::Fadd(_) => "FADD"@,
            FloatingPointOp::Fsub(_) => "FSUB"@,
            FloatingPointOp::Fmul(_) => "FMUL"@,
            FloatingPointOp::Fdiv(_) => "FDIV"@,
            FloatingPointOp::Fmod(_) => "FMOD"@,
            FloatingPointOp::Fcmp(_) => "FCMP"@,
            FloatingPointOp::Fneg(_) => "FNEG"@,
            FloatingPointOp::Frec(_) => "FREC"@,
            FloatingPointOp::Itof(_) => "ITOF"@,
            FloatingPointOp::Ftoi(_) => "FTOI"@,
            FloatingPointOp::Fchk(_) => "FCHK"@,
        }
    }

    /// The operation as written in assembly: the mnemonic, then the operands.
    pub open spec fn shown(self) -> Seq<char> {
        self.mnemonic() + " "@ + match self {
            FloatingPointOp::Fadd(b) | FloatingPointOp::Fsub(b) | FloatingPointOp::Fmul(b) | FloatingPointOp::Fdiv(b)
            | FloatingPointOp::Fmod(b) => b.shown(),
            FloatingPointOp::Fcmp(c) => c.shown(),
            FloatingPointOp::Fneg(u) | FloatingPointOp::Frec(u) => u.shown(),
            FloatingPointOp::Itof(v) | FloatingPointOp::Ftoi(v) => v.shown(),
            FloatingPointOp::Fchk(k) => k.shown(),
        }
    }

    /// Writes the operation as in assembly.
    pub fn fmt(&self, f: &mut String)
        ensures
            final(f)@ == old(f)@ + self.shown(),
    {
        match *self {
            FloatingPointOp::Fadd(_) => f.append("FADD"),
            FloatingPointOp::Fsub(_) => f.append("FSUB"),
            FloatingPointOp::Fmul(_) => f.append("FMUL"),
            FloatingPointOp::Fdiv(_) => f.append("FDIV"),
            FloatingPointOp::Fmod(_) => f.append("FMOD"),
            FloatingPointOp::Fcmp(_) => f.append("FCMP"),
            FloatingPointOp::Fneg(_) => f.append("FNEG"),
            FloatingPointOp::Frec(_) => f.append("FREC"),
            FloatingPointOp::Itof(_) => f.append("ITOF"),
            FloatingPointOp::Ftoi(_) => f.append("FTOI"),
            FloatingPointOp::Fchk(_) => f.append("FCHK"),
        }
        f.append(" ");
        match *self {
            FloatingPointOp::Fadd(b) | FloatingPointOp::Fsub(b) | FloatingPointOp::Fmul(b) | FloatingPointOp::Fdiv(b)
            | FloatingPointOp::Fmod(b) => b.fmt(f),
            FloatingPointOp::Fcmp(c) => c.fmt(f),
            FloatingPointOp::Fneg(u) | FloatingPointOp::Frec(u) => u.fmt(f),
            FloatingPointOp::Itof(v) | FloatingPointOp::Ftoi(v) => v.fmt(f),
            FloatingPointOp::Fchk(k) => k.fmt(f),
        }
    }
}

/// The assembly mnemonic of each operation code.
pub open spec fn float_mnemonic(opcode: Word) -> Seq<char> {
    if opcode == FADD {
        "FADD"@
    } else if opcode == FSUB {
        "FSUB"@
    } else if opcode == FMUL {
        "FMUL"@
    } else if opcode == FDIV {
        "FDIV"@
    } else if opcode == FMOD {
        "FMOD"@
    } else if opcode == FCMP {
        "FCMP"@
    } else if opcode == FNEG {
        "FNEG"@
    } else if opcode == FREC {
        "FREC"@
    } else if opcode == ITOF {
        "ITOF"@
    } else if opcode == FTOI {
        "FTOI"@
    } else {
        "FCHK"@
    }
}

/// The text of an operation starts with the mnemonic of its operation code,
/// followed by a space and the operands.
pub proof fn law_float_text_starts_with_mnemonic(op: FloatingPointOp)
    ensures
        op.shown().len() > float_mnemonic(op.opcode()).len(),
        op.shown().subrange(0, float_mnemonic(op.opcode()).len() as int) == float_mnemonic(op.opcode()),
        op.shown()[float_mnemonic(op.opcode()).len() as int] == ' ',
{
    reveal_strlit("FADD");
    reveal_strlit("FSUB");
    reveal_strlit("FMUL");
    reveal_strlit("FDIV");
    reveal_strlit("FMOD");
    reveal_strlit("FCMP");
    reveal_strlit("FNEG");
    reveal_strlit("FREC");
    reveal_strlit("ITOF");
    reveal_strlit("FTOI");
    reveal_strlit("FCHK");
    reveal_strlit(" ");
    let mn = float_mnemonic(op.opcode());
    assert(op.shown().subrange(0, mn.len() as int) =~= mn);
}

/// Operations with different operation codes are written differently: the
/// text of an operation names the operation.
pub proof fn law_float_texts_differ(a: FloatingPointOp, b: FloatingPointOp)
    requires
        a.opcode() != b.opcode(),
    ensures
        a.shown() != b.shown(),
{
    law_float_text_starts_with_mnemonic(a);
    law_float_text_starts_with_mnemonic(b);
    reveal_strlit("FADD");
    reveal_strlit("FSUB");
    reveal_strlit("FMUL");
    reveal_strlit("FDIV");
    reveal_strlit("FMOD");
    reveal_strlit("FCMP");
    reveal_strlit("FNEG");
    reveal_strlit("FREC");
    reveal_strlit("ITOF");
    reveal_strlit("FTOI");
    reveal_strlit("FCHK");
    reveal_strlit(" ");
    if a.shown() == b.shown() {
        let ma = float_mnemonic(a.opcode());
        let mb = float_mnemonic(b.opcode());
        assert(ma[0] == a.shown()[0] && mb[0] == b.shown()[0]);
        assert(ma[1] == a.shown()[1] && mb[1] == b.shown()[1]);
        assert(ma[2] == a.shown()[2] && mb[2] == b.shown()[2]);
    }
}

} // verus!
