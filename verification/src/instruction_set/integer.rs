//! Integer operations
use super::error::{DecodeError, DecodeResult};
use super::{Decode, Encode, Info};
use crate::registers::{RegisterFlags, EPS, INF, NAN, OF, ZF};
use crate::text::{dec_text, push_dec, push_vreg, vreg};
use crate::types::{Register, Word};
use vstd::prelude::*;

verus! {

/// The bits that the operands of an integer operation occupy in a word.
pub open spec fn operand_region() -> Word {
    0x00FF_FFFF
}

/// Immediate value provided if set
pub const IMM_FLAG_MASK: Word = 0x0080_0000;
/// Source (left) register mask
pub const SRC_REG_MASK: Word = 0x0000_00F0;
/// Source (left) register shift
pub const SRC_REG_SHIFT: Word = 4;
/// Destination register mask
pub const DST_REG_MASK: Word = 0x0000_000F;
/// Destination register shift
pub const DST_REG_SHIFT: Word = 0;
/// Immediate parameter mask
pub const IMM_CONST_MASK: Word = 0x007F_FF00;
/// Register parameter mask
pub const REG_PARAM_MASK: Word = 0x0000_0F00;
/// Parameter shift
pub const PARAM_SHIFT: Word = 8;
/// Sign bit of an immediate comparison operand
pub const RIGHT_IMM_SIGN: Word = 0x0040_0000;
/// The bits set by decoding a negative immediate comparison operand
pub const RIGHT_IMM_EXTEND: Word = 0xFFFF_8000;
/// Signed comparison bit
pub const SIGNED_MODE: Word = 0x0000_0008;
/// Sign-extension width mask
pub const SXT_BIT_MASK: Word = 0x0000_0030;
/// Sign-extension width shift
pub const SXT_BIT_SHIFT: Word = 4;

/// An immediate comparison or test operand that decoding gives back unchanged:
/// a signed fifteen-bit value, from -0x4000 to 0x3FFF, as a word.
pub open spec fn comparison_immediate_wf(right: Word) -> bool {
    right < 0x4000 || 0xFFFF_C000 <= right
}

/// The immediate comparison operand held by a word.
pub open spec fn comparison_immediate(word: Word) -> Word {
    let right = (word & IMM_CONST_MASK) >> PARAM_SHIFT;
    if word & RIGHT_IMM_SIGN != 0 {
        right | RIGHT_IMM_EXTEND
    } else {
        right
    }
}

fn comparison_immediate_exec(word: Word) -> (r: Word)
    ensures
        r == comparison_immediate(word),
{
    let mut right = (word & IMM_CONST_MASK) >> PARAM_SHIFT;
    if word & RIGHT_IMM_SIGN != 0 {
        right = right | RIGHT_IMM_EXTEND;
    }
    right
}

/// Binary operation (two parameters)
#[derive(Debug, Clone, Copy, PartialEq, Eq, Structural)]
pub enum BinaryOp {
    /// Source register, 15-bit immediate parameter, and destination register
    Immediate(Register, Word, Register),
    /// Source and parameter registers and destination register
    Registers(Register, Register, Register),
}

impl BinaryOp {
    /// An operation that its encoding represents exactly.
    pub open spec fn wf(self) -> bool {
        match self {
            BinaryOp::Immediate(s, o, d) => s < 16 && o < 0x8000 && d < 16,
            BinaryOp::Registers(s, o, d) => s < 16 && o < 16 && d < 16,
        }
    }

    /// The operands a word holds.
    pub open spec fn spec_from_word(word: Word) -> BinaryOp {
        let dest = (word & DST_REG_MASK) >> DST_REG_SHIFT;
        let src = (word & SRC_REG_MASK) >> SRC_REG_SHIFT;
        if (word & IMM_FLAG_MASK) == IMM_FLAG_MASK {
            BinaryOp::Immediate(src as Register, (word & IMM_CONST_MASK) >> PARAM_SHIFT, dest as Register)
        } else {
            BinaryOp::Registers(src as Register, ((word & REG_PARAM_MASK) >> PARAM_SHIFT) as Register, dest as Register)
        }
    }

    /// Reads the operands a word holds.
    pub fn from_word(word: Word) -> (r: BinaryOp)
        ensures
            r == BinaryOp::spec_from_word(word),
    {
        let dest = (word & DST_REG_MASK) >> DST_REG_SHIFT;
        let src = (word & SRC_REG_MASK) >> SRC_REG_SHIFT;
        proof { lemma_nibble_bounds(word); }
        if (word & IMM_FLAG_MASK) == IMM_FLAG_MASK {
            let param = (word & IMM_CONST_MASK) >> PARAM_SHIFT;
            BinaryOp::Immediate(src as Register, param, dest as Register)
        } else {
            let param = (word & REG_PARAM_MASK) >> PARAM_SHIFT;
            BinaryOp::Registers(src as Register, param as Register, dest as Register)
        }
    }

    /// The destination register.
    pub open spec fn destination(self) -> Register {
        match self {
            BinaryOp::Immediate(_, _, d) | BinaryOp::Registers(_, _, d) => d,
        }
    }
}

impl Decode for BinaryOp {
    open spec fn spec_decode(word: Word) -> DecodeResult<BinaryOp> {
        Ok(BinaryOp::spec_from_word(word))
    }

    fn decode(word: Word) -> (r: DecodeResult<BinaryOp>) {
        Ok(BinaryOp::from_word(word))
    }
}

impl Encode for BinaryOp {
    open spec fn spec_encode(self) -> Word {
        match self {
            BinaryOp::Immediate(src, opt, dst) => IMM_FLAG_MASK | ((src as Word) << SRC_REG_SHIFT)
                | (opt << PARAM_SHIFT) | ((dst as Word) << DST_REG_SHIFT),
            BinaryOp::Registers(src, opt, dst) => ((src as Word) << SRC_REG_SHIFT) | ((opt as Word)
                << PARAM_SHIFT) | ((dst as Word) << DST_REG_SHIFT),
        }
    }

    fn encode(self) -> (w: Word) {
        match self {
            BinaryOp::Immediate(src, opt, dst) => IMM_FLAG_MASK | ((src as Word) << SRC_REG_SHIFT)
                | (opt << PARAM_SHIFT) | ((dst as Word) << DST_REG_SHIFT),
            BinaryOp::Registers(src, opt, dst) => ((src as Word) << SRC_REG_SHIFT) | ((opt as Word)
                << PARAM_SHIFT) | ((dst as Word) << DST_REG_SHIFT),
        }
    }
}

proof fn lemma_nibble_bounds(w: u32) by (bit_vector)
    ensures
        (w & 0xF) >> 0 < 16,
        (w & 0xF0) >> 4 < 16,
        (w & 0xF00) >> 8 < 16,
        (w & 0x30) >> 4 < 4,
        (w & 0x7F_FF00) >> 8 < 0x8000,
{
}

proof fn lemma_binary_registers(s: u32, o: u32, d: u32, hi: u32) by (bit_vector)
    requires
        s < 16,
        o < 16,
        d < 16,
        hi & 0x00FF_FFFF == 0,
    ensures
        (((s << 4) | (o << 8) | (d << 0)) | hi) & 0x80_0000 == 0,
        ((((s << 4) | (o << 8) | (d << 0)) | hi) & 0xF) >> 0 == d,
        ((((s << 4) | (o << 8) | (d << 0)) | hi) & 0xF0) >> 4 == s,
        ((((s << 4) | (o << 8) | (d << 0)) | hi) & 0xF00) >> 8 == o,
        ((s << 4) | (o << 8) | (d << 0)) & !0x00FF_FFFFu32 == 0,
{
}

proof fn lemma_binary_immediate(s: u32, o: u32, d: u32, hi: u32) by (bit_vector)
    requires
        s < 16,
        o < 0x8000,
        d < 16,
        hi & 0x00FF_FFFF == 0,
    ensures
        ((0x80_0000 | (s << 4) | (o << 8) | (d << 0)) | hi) & 0x80_0000 == 0x80_0000,
        (((0x80_0000 | (s << 4) | (o << 8) | (d << 0)) | hi) & 0xF) >> 0 == d,
        (((0x80_0000 | (s << 4) | (o << 8) | (d << 0)) | hi) & 0xF0) >> 4 == s,
        (((0x80_0000 | (s << 4) | (o << 8) | (d << 0)) | hi) & 0x7F_FF00) >> 8 == o,
        (0x80_0000 | (s << 4) | (o << 8) | (d << 0)) & !0x00FF_FFFFu32 == 0,
{
}

impl BinaryOp {
    /// A well-formed operation reads back from its encoding, whatever stands in
    /// the bits above the operand region; the encoding stays inside the region.
    pub proof fn lemma_roundtrip(self, hi: Word)
        requires
            self.wf(),
            hi & operand_region() == 0,
        ensures
            BinaryOp::spec_from_word(self.spec_encode() | hi) == self,
            self.spec_encode() & !operand_region() == 0,
    {
        match self {
            BinaryOp::Immediate(s, o, d) => lemma_binary_immediate(s as u32, o, d as u32, hi),
            BinaryOp::Registers(s, o, d) => lemma_binary_registers(
                s as u32,
                o as u32,
                d as u32,
                hi,
            ),
        }
    }

    /// Operands read from any word are well-formed.
    pub proof fn lemma_from_word_wf(word: Word)
        ensures
            BinaryOp::spec_from_word(word).wf(),
    {
        lemma_nibble_bounds(word);
    }
}

/// Sign extension operation: the width code and the register
#[derive(Debug, Clone, Copy, PartialEq, Eq, Structural)]
pub struct SignExtendOp(pub Word, pub Register);

impl SignExtendOp {
    /// An operation that its encoding represents exactly.
    pub open spec fn wf(self) -> bool {
        self.0 < 4 && self.1 < 16
    }

    /// The operands a word holds.
    pub open spec fn spec_from_word(word: Word) -> SignExtendOp {
        SignExtendOp((word & SXT_BIT_MASK) >> SXT_BIT_SHIFT, (word & DST_REG_MASK) as Register)
    }

    /// Reads the operands a word holds.
    pub fn from_word(word: Word) -> (r: SignExtendOp)
        ensures
            r == SignExtendOp::spec_from_word(word),
    {
        proof { lemma_nibble_bounds(word); }
        SignExtendOp((word & SXT_BIT_MASK) >> SXT_BIT_SHIFT, (word & DST_REG_MASK) as Register)
    }

    /// A well-formed operation reads back from its encoding, whatever stands in
    /// the bits above the operand region; the encoding stays inside the region.
    pub proof fn lemma_roundtrip(self, hi: Word)
        requires
            self.wf(),
            hi & operand_region() == 0,
        ensures
            SignExtendOp::spec_from_word(self.spec_encode() | hi) == self,
            self.spec_encode() & !operand_region() == 0,
    {
        let w = self.0;
        let r = self.1 as u32;
        assert(((((w << 4) | r) | hi) & 0x30) >> 4 == w && ((((w << 4) | r) | hi) & 0xF) == r
            && ((w << 4) | r) & !0x00FF_FFFFu32 == 0) by (bit_vector)
            requires w < 4, r < 16, hi & 0x00FF_FFFF == 0;
    }

    /// Operands read from any word are well-formed.
    pub proof fn lemma_from_word_wf(word: Word)
        ensures
            SignExtendOp::spec_from_word(word).wf(),
    {
        lemma_nibble_bounds(word);
        assert(word & 0xF == (word & 0xF) >> 0) by (bit_vector);
    }
}

impl Decode for SignExtendOp {
    open spec fn spec_decode(word: Word) -> DecodeResult<SignExtendOp> {
        Ok(SignExtendOp::spec_from_word(word))
    }

    fn decode(word: Word) -> (r: DecodeResult<SignExtendOp>) {
        Ok(SignExtendOp::from_word(word))
    }
}

impl Encode for SignExtendOp {
    open spec fn spec_encode(self) -> Word {
        (self.0 << SXT_BIT_SHIFT) | (self.1 as Word)
    }

    fn encode(self) -> (w: Word) {
        (self.0 << SXT_BIT_SHIFT) | (self.1 as Word)
    }
}

/// Unary operation (one parameter): source and destination registers
#[derive(Debug, Clone, Copy, PartialEq, Eq, Structural)]
pub struct UnaryOp(pub Register, pub Register);

impl UnaryOp {
    /// An operation that its encoding represents exactly.
    pub open spec fn wf(self) -> bool {
        self.0 < 16 && self.1 < 16
    }

    /// The operands a word holds.
    pub open spec fn spec_from_word(word: Word) -> UnaryOp {
        UnaryOp(
            ((word & SRC_REG_MASK) >> SRC_REG_SHIFT) as Register,
            ((word & DST_REG_MASK) >> DST_REG_SHIFT) as Register,
        )
    }

    /// Reads the operands a word holds.
    pub fn from_word(word: Word) -> (r: UnaryOp)
        ensures
            r == UnaryOp::spec_from_word(word),
    {
        proof { lemma_nibble_bounds(word); }
        let src = (word & SRC_REG_MASK) >> SRC_REG_SHIFT;
        let dst = (word & DST_REG_MASK) >> DST_REG_SHIFT;
        UnaryOp(src as Register, dst as Register)
    }

    /// A well-formed operation reads back from its encoding, whatever stands in
    /// the bits above the operand region; the encoding stays inside the region.
    pub proof fn lemma_roundtrip(self, hi: Word)
        requires
            self.wf(),
            hi & operand_region() == 0,
        ensures
            UnaryOp::spec_from_word(self.spec_encode() | hi) == self,
            self.spec_encode() & !operand_region() == 0,
    {
        let s = self.0 as u32;
        let d = self.1 as u32;
        assert(((((s << 4) | (d << 0)) | hi) & 0xF0) >> 4 == s && ((((s << 4) | (d << 0)) | hi)
            & 0xF) >> 0 == d && ((s << 4) | (d << 0)) & !0x00FF_FFFFu32 == 0) by (bit_vector)
            requires s < 16, d < 16, hi & 0x00FF_FFFF == 0;
    }

    /// Operands read from any word are well-formed.
    pub proof fn lemma_from_word_wf(word: Word)
        ensures
            UnaryOp::spec_from_word(word).wf(),
    {
        lemma_nibble_bounds(word);
    }
}

impl Decode for UnaryOp {
    open spec fn spec_decode(word: Word) -> DecodeResult<UnaryOp> {
        Ok(UnaryOp::spec_from_word(word))
    }

    fn decode(word: Word) -> (r: DecodeResult<UnaryOp>) {
        Ok(UnaryOp::from_word(word))
    }
}

impl Encode for UnaryOp {
    open spec fn spec_encode(self) -> Word {
        ((self.0 as Word) << SRC_REG_SHIFT) | ((self.1 as Word) << DST_REG_SHIFT)
    }

    fn encode(self) -> (w: Word) {
        ((self.0 as Word) << SRC_REG_SHIFT) | ((self.1 as Word) << DST_REG_SHIFT)
    }
}

/// Comparison operation
#[derive(Debug, Clone, Copy, PartialEq, Eq, Structural)]
pub enum CompOp {
    /// Compare two registers (left, right, signed)
    Registers(Register, Register, bool),
    /// Compare a register value to an immediate (left, right, signed)
    Immediate(Register, Word, bool),
}

impl CompOp {
    /// An operation that its encoding represents exactly.
    pub open spec fn wf(self) -> bool {
        match self {
            CompOp::Registers(l, r, _) => l < 16 && r < 16,
            CompOp::Immediate(l, r, _) => l < 16 && comparison_immediate_wf(r),
        }
    }

    /// The operands a word holds.
    pub open spec fn spec_from_word(word: Word) -> CompOp {
        let left = (word & SRC_REG_MASK) >> SRC_REG_SHIFT;
        if word & IMM_FLAG_MASK == 0 {
            CompOp::Registers(left as Register, ((word & REG_PARAM_MASK) >> PARAM_SHIFT) as Register, word & SIGNED_MODE != 0)
        } else {
            CompOp::Immediate(left as Register, comparison_immediate(word), word & SIGNED_MODE != 0)
        }
    }

    /// Reads the operands a word holds.
    pub fn from_word(word: Word) -> (r: CompOp)
        ensures
            r == CompOp::spec_from_word(word),
    {
        proof { lemma_nibble_bounds(word); }
        let left = (word & SRC_REG_MASK) >> SRC_REG_SHIFT;
        if word & IMM_FLAG_MASK == 0 {
            let right = (word & REG_PARAM_MASK) >> PARAM_SHIFT;
            CompOp::Registers(left as Register, right as Register, word & SIGNED_MODE != 0)
        } else {
            CompOp::Immediate(left as Register, comparison_immediate_exec(word), word & SIGNED_MODE != 0)
        }
    }
}

/// The signed-mode bits of a comparison.
pub open spec fn signed_bits(signed: bool) -> Word {
    if signed {
        SIGNED_MODE
    } else {
        0
    }
}

impl Decode for CompOp {
    open spec fn spec_decode(word: Word) -> DecodeResult<CompOp> {
        Ok(CompOp::spec_from_word(word))
    }

    fn decode(word: Word) -> (r: DecodeResult<CompOp>) {
        Ok(CompOp::from_word(word))
    }
}

impl Encode for CompOp {
    open spec fn spec_encode(self) -> Word {
        match self {
            CompOp::Registers(left, right, signed) => ((left as Word) << SRC_REG_SHIFT) | ((right as Word) << PARAM_SHIFT) | signed_bits(signed),
            CompOp::Immediate(left, right, signed) => ((left as Word) << SRC_REG_SHIFT) | ((right << PARAM_SHIFT) & IMM_CONST_MASK) | signed_bits(signed) | IMM_FLAG_MASK,
        }
    }

    fn encode(self) -> (w: Word) {
        match self {
            CompOp::Registers(left, right, signed) => {
                ((left as Word) << SRC_REG_SHIFT) | ((right as Word) << PARAM_SHIFT) | if signed {
                    SIGNED_MODE
                } else {
                    0
                }
            },
            CompOp::Immediate(left, right, signed) => {
                ((left as Word) << SRC_REG_SHIFT) | ((right << PARAM_SHIFT) & IMM_CONST_MASK) | if signed {
                    SIGNED_MODE
                } else {
                    0
                } | IMM_FLAG_MASK
            },
        }
    }
}

proof fn lemma_comparison_immediate(l: u32, r: u32, sg: u32, hi: u32)
    requires
        l < 16,
        sg == 0 || sg == 8,
        r < 0x4000 || 0xFFFF_C000 <= r,
        hi & 0x00FF_FFFF == 0,
    ensures
        ((((l << 4) | ((r << 8) & 0x7F_FF00) | sg | 0x80_0000) | hi) & 0xF0) >> 4 == l,
        (((l << 4) | ((r << 8) & 0x7F_FF00) | sg | 0x80_0000) | hi) & 0x80_0000 != 0,
        ((((l << 4) | ((r << 8) & 0x7F_FF00) | sg | 0x80_0000) | hi) & 8 != 0) == (sg == 8),
        comparison_immediate(((l << 4) | ((r << 8) & 0x7F_FF00) | sg | 0x80_0000) | hi) == r,
        ((l << 4) | ((r << 8) & 0x7F_FF00) | sg | 0x80_0000) & !0x00FF_FFFFu32 == 0,
{
    let w = ((l << 4) | ((r << 8) & 0x7F_FF00) | sg | 0x80_0000) | hi;
    assert((w & 0xF0) >> 4 == l && w & 0x80_0000 != 0 && ((w & 8 != 0) == (sg == 8))) by (bit_vector)
        requires
            w == ((l << 4) | ((r << 8) & 0x7F_FF00) | sg | 0x80_0000) | hi,
            l < 16,
            sg == 0 || sg == 8,
            hi & 0x00FF_FFFF == 0,
    ;
    assert(((l << 4) | ((r << 8) & 0x7F_FF00) | sg | 0x80_0000) & !0x00FF_FFFFu32 == 0) by (bit_vector)
        requires l < 16, sg == 0 || sg == 8;
    if r < 0x4000 {
        assert(w & 0x40_0000 == 0 && (w & 0x7F_FF00) >> 8 == r) by (bit_vector)
            requires
                w == ((l << 4) | ((r << 8) & 0x7F_FF00) | sg | 0x80_0000) | hi,
                l < 16,
                sg == 0 || sg == 8,
                r < 0x4000,
                hi & 0x00FF_FFFF == 0,
        ;
    } else {
        assert(w & 0x40_0000 != 0 && ((w & 0x7F_FF00) >> 8) | 0xFFFF_8000 == r) by (bit_vector)
            requires
                w == ((l << 4) | ((r << 8) & 0x7F_FF00) | sg | 0x80_0000) | hi,
                l < 16,
                sg == 0 || sg == 8,
                0xFFFF_C000 <= r,
                hi & 0x00FF_FFFF == 0,
        ;
    }
}

proof fn lemma_comparison_registers(l: u32, r: u32, sg: u32, hi: u32)
    requires
        l < 16,
        r < 16,
        sg == 0 || sg == 8,
        hi & 0x00FF_FFFF == 0,
    ensures
        ((((l << 4) | (r << 8) | sg) | hi) & 0xF0) >> 4 == l,
        ((((l << 4) | (r << 8) | sg) | hi) & 0xF00) >> 8 == r,
        (((l << 4) | (r << 8) | sg) | hi) & 0x80_0000 == 0,
        ((((l << 4) | (r << 8) | sg) | hi) & 8 != 0) == (sg == 8),
        ((l << 4) | (r << 8) | sg) & !0x00FF_FFFFu32 == 0,
{
    assert(((((l << 4) | (r << 8) | sg) | hi) & 0xF0) >> 4 == l && ((((l << 4) | (r << 8) | sg)
        | hi) & 0xF00) >> 8 == r && (((l << 4) | (r << 8) | sg) | hi) & 0x80_0000 == 0
        && (((((l << 4) | (r << 8) | sg) | hi) & 8 != 0) == (sg == 8)) && ((l << 4) | (r << 8)
        | sg) & !0x00FF_FFFFu32 == 0) by (bit_vector)
        requires l < 16, r < 16, sg == 0 || sg == 8, hi & 0x00FF_FFFF == 0;
}

proof fn lemma_comparison_immediate_wf(word: u32)
    ensures
        comparison_immediate_wf(comparison_immediate(word)),
{
    let right = (word & 0x7F_FF00) >> 8;
    if word & 0x40_0000 != 0 {
        assert(0xFFFF_C000 <= (right | 0xFFFF_8000))
            by (bit_vector)
            requires right == (word & 0x7F_FF00) >> 8, word & 0x40_0000 != 0;
    } else {
        assert(right < 0x4000) by (bit_vector)
            requires right == (word & 0x7F_FF00) >> 8, word & 0x40_0000 == 0;
    }
}

impl CompOp {
    /// A well-formed operation reads back from its encoding, whatever stands in
    /// the bits above the operand region; the encoding stays inside the region.
    pub proof fn lemma_roundtrip(self, hi: Word)
        requires
            self.wf(),
            hi & operand_region() == 0,
        ensures
            CompOp::spec_from_word(self.spec_encode() | hi) == self,
            self.spec_encode() & !operand_region() == 0,
    {
        match self {
            CompOp::Registers(l, r, s) => lemma_comparison_registers(
                l as u32,
                r as u32,
                signed_bits(s),
                hi,
            ),
            CompOp::Immediate(l, r, s) => lemma_comparison_immediate(
                l as u32,
                r,
                signed_bits(s),
                hi,
            ),
        }
    }

    /// Operands read from any word are well-formed.
    pub proof fn lemma_from_word_wf(word: Word)
        ensures
            CompOp::spec_from_word(word).wf(),
    {
        lemma_nibble_bounds(word);
        lemma_comparison_immediate_wf(word);
    }
}

/// Test operation
#[derive(Debug, Clone, Copy, PartialEq, Eq, Structural)]
pub enum TestOp {
    /// Test two registers
    Registers(Register, Register),
    /// Test a register against an immediate
    Immediate(Register, Word),
}

impl TestOp {
    /// An operation that its encoding represents exactly.
    pub open spec fn wf(self) -> bool {
        match self {
            TestOp::Registers(l, r) => l < 16 && r < 16,
            TestOp::Immediate(l, r) => l < 16 && comparison_immediate_wf(r),
        }
    }

    /// The operands a word holds.
    pub open spec fn spec_from_word(word: Word) -> TestOp {
        let left = (word & SRC_REG_MASK) >> SRC_REG_SHIFT;
        if word & IMM_FLAG_MASK == 0 {
            TestOp::Registers(left as Register, ((word & REG_PARAM_MASK) >> PARAM_SHIFT) as Register)
        } else {
            TestOp::Immediate(left as Register, comparison_immediate(word))
        }
    }

    /// Reads the operands a word holds.
    pub fn from_word(word: Word) -> (r: TestOp)
        ensures
            r == TestOp::spec_from_word(word),
    {
        proof { lemma_nibble_bounds(word); }
        let left = (word & SRC_REG_MASK) >> SRC_REG_SHIFT;
        if word & IMM_FLAG_MASK == 0 {
            let right = (word & REG_PARAM_MASK) >> PARAM_SHIFT;
            TestOp::Registers(left as Register, right as Register)
        } else {
            TestOp::Immediate(left as Register, comparison_immediate_exec(word))
        }
    }

    /// A well-formed operation reads back from its encoding, whatever stands in
    /// the bits above the operand region; the encoding stays inside the region.
    pub proof fn lemma_roundtrip(self, hi: Word)
        requires
            self.wf(),
            hi & operand_region() == 0,
        ensures
            TestOp::spec_from_word(self.spec_encode() | hi) == self,
            self.spec_encode() & !operand_region() == 0,
    {
        match self {
            TestOp::Registers(l, r) => {
                lemma_comparison_registers(l as u32, r as u32, 0, hi);
                crate::bits::lemma_or_zero(((l as u32) << 4) | ((r as u32) << 8));
            },
            TestOp::Immediate(l, r) => {
                lemma_comparison_immediate(l as u32, r, 0, hi);
                crate::bits::lemma_or_zero(((l as u32) << 4) | ((r << 8) & 0x7F_FF00));
            },
        }
    }

    /// Operands read from any word are well-formed.
    pub proof fn lemma_from_word_wf(word: Word)
        ensures
            TestOp::spec_from_word(word).wf(),
    {
        lemma_nibble_bounds(word);
        lemma_comparison_immediate_wf(word);
    }
}

impl Decode for TestOp {
    open spec fn spec_decode(word: Word) -> DecodeResult<TestOp> {
        Ok(TestOp::spec_from_word(word))
    }

    fn decode(word: Word) -> (r: DecodeResult<TestOp>) {
        Ok(TestOp::from_word(word))
    }
}

impl Encode for TestOp {
    open spec fn spec_encode(self) -> Word {
        match self {
            TestOp::Registers(left, right) => ((left as Word) << SRC_REG_SHIFT) | ((right as Word) << PARAM_SHIFT),
            TestOp::Immediate(left, right) => ((left as Word) << SRC_REG_SHIFT) | ((right << PARAM_SHIFT) & IMM_CONST_MASK) | IMM_FLAG_MASK,
        }
    }

    fn encode(self) -> (w: Word) {
        match self {
            TestOp::Registers(left, right) => ((left as Word) << SRC_REG_SHIFT) | ((right as Word) << PARAM_SHIFT),
            TestOp::Immediate(left, right) => ((left as Word) << SRC_REG_SHIFT) | ((right << PARAM_SHIFT) & IMM_CONST_MASK) | IMM_FLAG_MASK,
        }
    }
}


/// Mask to extract the integer operation code
pub const MASK: Word = 0x1F00_0000;
/// Operation code shift
pub const SHIFT: Word = 24;
/// Add bits
pub const ADD: Word = 0;
/// Subtract bits
pub const SUB: Word = 1;
/// Multiply bits
pub const MUL: Word = 2;
/// Divide unsigned bits
pub const DVU: Word = 3;
/// Divide signed bits
pub const DVS: Word = 4;
/// Modulo bits
pub const MOD: Word = 5;
/// And bits
pub const AND: Word = 6;
/// Inclusive or bits
pub const IOR: Word = 7;
/// Exclusive or bits
pub const XOR: Word = 8;
/// Bitwise not bits
pub const NOT: Word = 9;
/// Sign-extend bits
pub const SXT: Word = 10;
/// Logical-shift left bits
pub const BSL: Word = 11;
/// Logical-shift right bits
pub const BSR: Word = 12;
/// Arithmetic shift right bits
pub const ASR: Word = 13;
/// Rotate left bits
pub const ROL: Word = 14;
/// Rotate right bits
pub const ROR: Word = 15;
/// Compare bits
pub const CMP: Word = 16;
/// Test bits
pub const TST: Word = 17;

/// The bits that an [`IntegerOp`] occupies in a word.
pub open spec fn integer_region() -> Word {
    0x1FFF_FFFF
}

/// Integer operations
#[derive(Debug, Clone, Copy, PartialEq, Eq, Structural)]
pub enum IntegerOp {
    /// Add
    Add(BinaryOp),
    /// Subtract
    Sub(BinaryOp),
    /// Multiply
    Mul(BinaryOp),
    /// Divide unsigned
    Dvu(BinaryOp),
    /// Divide signed
    Dvs(BinaryOp),
    /// Modulo
    Mod(BinaryOp),
    /// And
    And(BinaryOp),
    /// Inclusive or
    Ior(BinaryOp),
    /// Exclusive or
    Xor(BinaryOp),
    /// Bitwise not
    Not(UnaryOp),
    /// Sign-extend
    Sxt(SignExtendOp),
    /// Logical-shift left
    Bsl(BinaryOp),
    /// Logical-shift right
    Bsr(BinaryOp),
    /// Arithmetic shift right
    Asr(BinaryOp),
    /// Rotate left
    Rol(BinaryOp),
    /// Rotate right
    Ror(BinaryOp),
    /// Compare
    Cmp(CompOp),
    /// Test
    Tst(TestOp),
}

impl IntegerOp {
    /// An operation that its encoding represents exactly.
    pub open spec fn wf(self) -> bool {
        match self {
            IntegerOp::Add(o) => o.wf(),
            IntegerOp::Sub(o) => o.wf(),
            IntegerOp::Mul(o) => o.wf(),
            IntegerOp::Dvu(o) => o.wf(),
            IntegerOp::Dvs(o) => o.wf(),
            IntegerOp::Mod(o) => o.wf(),
            IntegerOp::And(o) => o.wf(),
            IntegerOp::Ior(o) => o.wf(),
            IntegerOp::Xor(o) => o.wf(),
            IntegerOp::Not(o) => o.wf(),
            IntegerOp::Sxt(o) => o.wf(),
            IntegerOp::Bsl(o) => o.wf(),
            IntegerOp::Bsr(o) => o.wf(),
            IntegerOp::Asr(o) => o.wf(),
            IntegerOp::Rol(o) => o.wf(),
            IntegerOp::Ror(o) => o.wf(),
            IntegerOp::Cmp(o) => o.wf(),
            IntegerOp::Tst(o) => o.wf(),
        }
    }

    /// The operation code of the operation.
    pub open spec fn opcode(self) -> Word {
        match self {
            IntegerOp::Add(_) => ADD,
            IntegerOp::Sub(_) => SUB,
            IntegerOp::Mul(_) => MUL,
            IntegerOp::Dvu(_) => DVU,
            IntegerOp::Dvs(_) => DVS,
            IntegerOp::Mod(_) => MOD,
            IntegerOp::And(_) => AND,
            IntegerOp::Ior(_) => IOR,
            IntegerOp::Xor(_) => XOR,
            IntegerOp::Not(_) => NOT,
            IntegerOp::Sxt(_) => SXT,
            IntegerOp::Bsl(_) => BSL,
            IntegerOp::Bsr(_) => BSR,
            IntegerOp::Asr(_) => ASR,
            IntegerOp::Rol(_) => ROL,
            IntegerOp::Ror(_) => ROR,
            IntegerOp::Cmp(_) => CMP,
            IntegerOp::Tst(_) => TST,
        }
    }

    /// The encoding of the operands.
    pub open spec fn operand_bits(self) -> Word {
        match self {
            IntegerOp::Add(o) => o.spec_encode(),
            IntegerOp::Sub(o) => o.spec_encode(),
            IntegerOp::Mul(o) => o.spec_encode(),
            IntegerOp::Dvu(o) => o.spec_encode(),
            IntegerOp::Dvs(o) => o.spec_encode(),
            IntegerOp::Mod(o) => o.spec_encode(),
            IntegerOp::And(o) => o.spec_encode(),
            IntegerOp::Ior(o) => o.spec_encode(),
            IntegerOp::Xor(o) => o.spec_encode(),
            IntegerOp::Not(o) => o.spec_encode(),
            IntegerOp::Sxt(o) => o.spec_encode(),
            IntegerOp::Bsl(o) => o.spec_encode(),
            IntegerOp::Bsr(o) => o.spec_encode(),
            IntegerOp::Asr(o) => o.spec_encode(),
            IntegerOp::Rol(o) => o.spec_encode(),
            IntegerOp::Ror(o) => o.spec_encode(),
            IntegerOp::Cmp(o) => o.spec_encode(),
            IntegerOp::Tst(o) => o.spec_encode(),
        }
    }
}

impl Decode for IntegerOp {
    open spec fn spec_decode(word: Word) -> DecodeResult<IntegerOp> {
        let op = (word & MASK) >> SHIFT;
        if op == ADD {
            Ok(IntegerOp::Add(BinaryOp::spec_from_word(word)))
        } else if op == SUB {
            Ok(IntegerOp::Sub(BinaryOp::spec_from_word(word)))
        } else if op == MUL {
            Ok(IntegerOp::Mul(BinaryOp::spec_from_word(word)))
        } else if op == DVU {
            Ok(IntegerOp::Dvu(BinaryOp::spec_from_word(word)))
        } else if op == DVS {
            Ok(IntegerOp::Dvs(BinaryOp::spec_from_word(word)))
        } else if op == MOD {
            Ok(IntegerOp::Mod(BinaryOp::spec_from_word(word)))
        } else if op == AND {
            Ok(IntegerOp::And(BinaryOp::spec_from_word(word)))
        } else if op == IOR {
            Ok(IntegerOp::Ior(BinaryOp::spec_from_word(word)))
        } else if op == XOR {
            Ok(IntegerOp::Xor(BinaryOp::spec_from_word(word)))
        } else if op == NOT {
            Ok(IntegerOp::Not(UnaryOp::spec_from_word(word)))
        } else if op == SXT {
            Ok(IntegerOp::Sxt(SignExtendOp::spec_from_word(word)))
        } else if op == BSL {
            Ok(IntegerOp::Bsl(BinaryOp::spec_from_word(word)))
        } else if op == BSR {
            Ok(IntegerOp::Bsr(BinaryOp::spec_from_word(word)))
        } else if op == ASR {
            Ok(IntegerOp::Asr(BinaryOp::spec_from_word(word)))
        } else if op == ROL {
            Ok(IntegerOp::Rol(BinaryOp::spec_from_word(word)))
        } else if op == ROR {
            Ok(IntegerOp::Ror(BinaryOp::spec_from_word(word)))
        } else if op == CMP {
            Ok(IntegerOp::Cmp(CompOp::spec_from_word(word)))
        } else if op == TST {
            Ok(IntegerOp::Tst(TestOp::spec_from_word(word)))
        } else {
            Err(DecodeError::InvalidIntegerOp(op))
        }
    }

    fn decode(word: Word) -> (r: DecodeResult<IntegerOp>) {
        let op = (word & MASK) >> SHIFT;
        if op == ADD {
            Ok(IntegerOp::Add(BinaryOp::from_word(word)))
        } else if op == SUB {
            Ok(IntegerOp::Sub(BinaryOp::from_word(word)))
        } else if op == MUL {
            Ok(IntegerOp::Mul(BinaryOp::from_word(word)))
        } else if op == DVU {
            Ok(IntegerOp::Dvu(BinaryOp::from_word(word)))
        } else if op == DVS {
            Ok(IntegerOp::Dvs(BinaryOp::from_word(word)))
        } else if op == MOD {
            Ok(IntegerOp::Mod(BinaryOp::from_word(word)))
        } else if op == AND {
            Ok(IntegerOp::And(BinaryOp::from_word(word)))
        } else if op == IOR {
            Ok(IntegerOp::Ior(BinaryOp::from_word(word)))
        } else if op == XOR {
            Ok(IntegerOp::Xor(BinaryOp::from_word(word)))
        } else if op == NOT {
            Ok(IntegerOp::Not(UnaryOp::from_word(word)))
        } else if op == SXT {
            Ok(IntegerOp::Sxt(SignExtendOp::from_word(word)))
        } else if op == BSL {
            Ok(IntegerOp::Bsl(BinaryOp::from_word(word)))
        } else if op == BSR {
            Ok(IntegerOp::Bsr(BinaryOp::from_word(word)))
        } else if op == ASR {
            Ok(IntegerOp::Asr(BinaryOp::from_word(word)))
        } else if op == ROL {
            Ok(IntegerOp::Rol(BinaryOp::from_word(word)))
        } else if op == ROR {
            Ok(IntegerOp::Ror(BinaryOp::from_word(word)))
        } else if op == CMP {
            Ok(IntegerOp::Cmp(CompOp::from_word(word)))
        } else if op == TST {
            Ok(IntegerOp::Tst(TestOp::from_word(word)))
        } else {
            Err(DecodeError::InvalidIntegerOp(op))
        }
    }
}

impl Encode for IntegerOp {
    open spec fn spec_encode(self) -> Word {
        match self {
            IntegerOp::Add(o) => (ADD << SHIFT) | o.spec_encode(),
            IntegerOp::Sub(o) => (SUB << SHIFT) | o.spec_encode(),
            IntegerOp::Mul(o) => (MUL << SHIFT) | o.spec_encode(),
            IntegerOp::Dvu(o) => (DVU << SHIFT) | o.spec_encode(),
            IntegerOp::Dvs(o) => (DVS << SHIFT) | o.spec_encode(),
            IntegerOp::Mod(o) => (MOD << SHIFT) | o.spec_encode(),
            IntegerOp::And(o) => (AND << SHIFT) | o.spec_encode(),
            IntegerOp::Ior(o) => (IOR << SHIFT) | o.spec_encode(),
            IntegerOp::Xor(o) => (XOR << SHIFT) | o.spec_encode(),
            IntegerOp::Not(o) => (NOT << SHIFT) | o.spec_encode(),
            IntegerOp::Sxt(o) => (SXT << SHIFT) | o.spec_encode(),
            IntegerOp::Bsl(o) => (BSL << SHIFT) | o.spec_encode(),
            IntegerOp::Bsr(o) => (BSR << SHIFT) | o.spec_encode(),
            IntegerOp::Asr(o) => (ASR << SHIFT) | o.spec_encode(),
            IntegerOp::Rol(o) => (ROL << SHIFT) | o.spec_encode(),
            IntegerOp::Ror(o) => (ROR << SHIFT) | o.spec_encode(),
            IntegerOp::Cmp(o) => (CMP << SHIFT) | o.spec_encode(),
            IntegerOp::Tst(o) => (TST << SHIFT) | o.spec_encode(),
        }
    }

    fn encode(self) -> (w: Word) {
        match self {
            IntegerOp::Add(o) => (ADD << SHIFT) | o.encode(),
            IntegerOp::Sub(o) => (SUB << SHIFT) | o.encode(),
            IntegerOp::Mul(o) => (MUL << SHIFT) | o.encode(),
            IntegerOp::Dvu(o) => (DVU << SHIFT) | o.encode(),
            IntegerOp::Dvs(o) => (DVS << SHIFT) | o.encode(),
            IntegerOp::Mod(o) => (MOD << SHIFT) | o.encode(),
            IntegerOp::And(o) => (AND << SHIFT) | o.encode(),
            IntegerOp::Ior(o) => (IOR << SHIFT) | o.encode(),
            IntegerOp::Xor(o) => (XOR << SHIFT) | o.encode(),
            IntegerOp::Not(o) => (NOT << SHIFT) | o.encode(),
            IntegerOp::Sxt(o) => (SXT << SHIFT) | o.encode(),
            IntegerOp::Bsl(o) => (BSL << SHIFT) | o.encode(),
            IntegerOp::Bsr(o) => (BSR << SHIFT) | o.encode(),
            IntegerOp::Asr(o) => (ASR << SHIFT) | o.encode(),
            IntegerOp::Rol(o) => (ROL << SHIFT) | o.encode(),
            IntegerOp::Ror(o) => (ROR << SHIFT) | o.encode(),
            IntegerOp::Cmp(o) => (CMP << SHIFT) | o.encode(),
            IntegerOp::Tst(o) => (TST << SHIFT) | o.encode(),
        }
    }
}

proof fn lemma_opcode_field(op: u32, operand: u32, hi: u32) by (bit_vector)
    requires
        op < 32,
        operand & !0x00FF_FFFFu32 == 0,
        hi & 0x1FFF_FFFF == 0,
    ensures
        ((((op << 24) | operand) | hi) & 0x1F00_0000) >> 24 == op,
        (((op << 24) | operand) | hi) == operand | ((op << 24) | hi),
        ((op << 24) | hi) & 0x00FF_FFFF == 0,
        ((op << 24) | operand) & !0x1FFF_FFFFu32 == 0,
{
}

impl IntegerOp {
    /// A well-formed operation decodes back from its encoding, whatever stands
    /// in the bits above its region; the encoding stays inside the region.
    pub proof fn lemma_roundtrip(self, hi: Word)
        requires
            self.wf(),
            hi & integer_region() == 0,
        ensures
            IntegerOp::spec_decode(self.spec_encode() | hi) == Ok::<IntegerOp, DecodeError>(self),
            self.spec_encode() & !integer_region() == 0,
    {
        let op = self.opcode();
        crate::bits::lemma_zero_and(operand_region());
        match self {
            IntegerOp::Add(o) => {
                o.lemma_roundtrip(0);
                crate::bits::lemma_or_zero(o.spec_encode());
                lemma_opcode_field(op, o.spec_encode(), hi);
                o.lemma_roundtrip((op << 24) | hi);
            },
            IntegerOp::Sub(o) => {
                o.lemma_roundtrip(0);
                crate::bits::lemma_or_zero(o.spec_encode());
                lemma_opcode_field(op, o.spec_encode(), hi);
                o.lemma_roundtrip((op << 24) | hi);
            },
            IntegerOp::Mul(o) => {
                o.lemma_roundtrip(0);
                crate::bits::lemma_or_zero(o.spec_encode());
                lemma_opcode_field(op, o.spec_encode(), hi);
                o.lemma_roundtrip((op << 24) | hi);
            },
            IntegerOp::Dvu(o) => {
                o.lemma_roundtrip(0);
                crate::bits::lemma_or_zero(o.spec_encode());
                lemma_opcode_field(op, o.spec_encode(), hi);
                o.lemma_roundtrip((op << 24) | hi);
            },
            IntegerOp::Dvs(o) => {
                o.lemma_roundtrip(0);
                crate::bits::lemma_or_zero(o.spec_encode());
                lemma_opcode_field(op, o.spec_encode(), hi);
                o.lemma_roundtrip((op << 24) | hi);
            },
            IntegerOp::Mod(o) => {
                o.lemma_roundtrip(0);
                crate::bits::lemma_or_zero(o.spec_encode());
                lemma_opcode_field(op, o.spec_encode(), hi);
                o.lemma_roundtrip((op << 24) | hi);
            },
            IntegerOp::And(o) => {
                o.lemma_roundtrip(0);
                crate::bits::lemma_or_zero(o.spec_encode());
                lemma_opcode_field(op, o.spec_encode(), hi);
                o.lemma_roundtrip((op << 24) | hi);
            },
            IntegerOp::Ior(o) => {
                o.lemma_roundtrip(0);
                crate::bits::lemma_or_zero(o.spec_encode());
                lemma_opcode_field(op, o.spec_encode(), hi);
                o.lemma_roundtrip((op << 24) | hi);
            },
            IntegerOp::Xor(o) => {
                o.lemma_roundtrip(0);
                crate::bits::lemma_or_zero(o.spec_encode());
                lemma_opcode_field(op, o.spec_encode(), hi);
                o.lemma_roundtrip((op << 24) | hi);
            },
            IntegerOp::Not(o) => {
                o.lemma_roundtrip(0);
                crate::bits::lemma_or_zero(o.spec_encode());
                lemma_opcode_field(op, o.spec_encode(), hi);
                o.lemma_roundtrip((op << 24) | hi);
            },
            IntegerOp::Sxt(o) => {
                o.lemma_roundtrip(0);
                crate::bits::lemma_or_zero(o.spec_encode());
                lemma_opcode_field(op, o.spec_encode(), hi);
                o.lemma_roundtrip((op << 24) | hi);
            },
            IntegerOp::Bsl(o) => {
                o.lemma_roundtrip(0);
                crate::bits::lemma_or_zero(o.spec_encode());
                lemma_opcode_field(op, o.spec_encode(), hi);
                o.lemma_roundtrip((op << 24) | hi);
            },
            IntegerOp::Bsr(o) => {
                o.lemma_roundtrip(0);
                crate::bits::lemma_or_zero(o.spec_encode());
                lemma_opcode_field(op, o.spec_encode(), hi);
                o.lemma_roundtrip((op << 24) | hi);
            },
            IntegerOp::Asr(o) => {
                o.lemma_roundtrip(0);
                crate::bits::lemma_or_zero(o.spec_encode());
                lemma_opcode_field(op, o.spec_encode(), hi);
                o.lemma_roundtrip((op << 24) | hi);
            },
            IntegerOp::Rol(o) => {
                o.lemma_roundtrip(0);
                crate::bits::lemma_or_zero(o.spec_encode());
                lemma_opcode_field(op, o.spec_encode(), hi);
                o.lemma_roundtrip((op << 24) | hi);
            },
            IntegerOp::Ror(o) => {
                o.lemma_roundtrip(0);
                crate::bits::lemma_or_zero(o.spec_encode());
                lemma_opcode_field(op, o.spec_encode(), hi);
                o.lemma_roundtrip((op << 24) | hi);
            },
            IntegerOp::Cmp(o) => {
                o.lemma_roundtrip(0);
                crate::bits::lemma_or_zero(o.spec_encode());
                lemma_opcode_field(op, o.spec_encode(), hi);
                o.lemma_roundtrip((op << 24) | hi);
            },
            IntegerOp::Tst(o) => {
                o.lemma_roundtrip(0);
                crate::bits::lemma_or_zero(o.spec_encode());
                lemma_opcode_field(op, o.spec_encode(), hi);
                o.lemma_roundtrip((op << 24) | hi);
            },
        }
    }

    /// Whatever decodes from a word is well-formed.
    pub proof fn lemma_decode_wf(word: Word)
        ensures
            IntegerOp::spec_decode(word) matches Ok(i) ==> i.wf(),
    {
        BinaryOp::lemma_from_word_wf(word);
        UnaryOp::lemma_from_word_wf(word);
        SignExtendOp::lemma_from_word_wf(word);
        CompOp::lemma_from_word_wf(word);
        TestOp::lemma_from_word_wf(word);
    }
}

impl Info for IntegerOp {
    open spec fn spec_write_regs(self) -> RegisterFlags {
        match self {
            IntegerOp::Not(UnaryOp(_, r)) | IntegerOp::Sxt(SignExtendOp(_, r)) => RegisterFlags::of([r, ZF, OF, EPS, NAN, INF]@),
            IntegerOp::Cmp(_) | IntegerOp::Tst(_) => RegisterFlags::of([ZF, OF, EPS, NAN, INF]@),
            IntegerOp::Add(b) | IntegerOp::Sub(b) | IntegerOp::Mul(b) | IntegerOp::Dvu(b) | IntegerOp::Dvs(b) | IntegerOp::Mod(b) | IntegerOp::And(b) | IntegerOp::Ior(b) | IntegerOp::Xor(b) | IntegerOp::Bsl(b) | IntegerOp::Bsr(b) | IntegerOp::Asr(b) | IntegerOp::Rol(b) | IntegerOp::Ror(b) => RegisterFlags::of([b.destination(), ZF, OF, EPS, NAN, INF]@),
        }
    }

    open spec fn spec_read_regs(self) -> RegisterFlags {
        match self {
            IntegerOp::Add(BinaryOp::Registers(r0, r1, _)) | IntegerOp::Sub(BinaryOp::Registers(r0, r1, _)) | IntegerOp::Mul(BinaryOp::Registers(r0, r1, _)) | IntegerOp::Dvu(BinaryOp::Registers(r0, r1, _)) | IntegerOp::Dvs(BinaryOp::Registers(r0, r1, _)) | IntegerOp::Mod(BinaryOp::Registers(r0, r1, _)) | IntegerOp::And(BinaryOp::Registers(r0, r1, _)) | IntegerOp::Ior(BinaryOp::Registers(r0, r1, _)) | IntegerOp::Xor(BinaryOp::Registers(r0, r1, _)) | IntegerOp::Bsl(BinaryOp::Registers(r0, r1, _)) | IntegerOp::Bsr(BinaryOp::Registers(r0, r1, _)) | IntegerOp::Asr(BinaryOp::Registers(r0, r1, _)) | IntegerOp::Rol(BinaryOp::Registers(r0, r1, _)) | IntegerOp::Ror(BinaryOp::Registers(r0, r1, _))
            | IntegerOp::Cmp(CompOp::Registers(r0, r1, _)) | IntegerOp::Tst(TestOp::Registers(r0, r1)) => RegisterFlags::of([r0, r1]@),
            IntegerOp::Add(BinaryOp::Immediate(r, _, _)) | IntegerOp::Sub(BinaryOp::Immediate(r, _, _)) | IntegerOp::Mul(BinaryOp::Immediate(r, _, _)) | IntegerOp::Dvu(BinaryOp::Immediate(r, _, _)) | IntegerOp::Dvs(BinaryOp::Immediate(r, _, _)) | IntegerOp::Mod(BinaryOp::Immediate(r, _, _)) | IntegerOp::And(BinaryOp::Immediate(r, _, _)) | IntegerOp::Ior(BinaryOp::Immediate(r, _, _)) | IntegerOp::Xor(BinaryOp::Immediate(r, _, _)) | IntegerOp::Bsl(BinaryOp::Immediate(r, _, _)) | IntegerOp::Bsr(BinaryOp::Immediate(r, _, _)) | IntegerOp::Asr(BinaryOp::Immediate(r, _, _)) | IntegerOp::Rol(BinaryOp::Immediate(r, _, _)) | IntegerOp::Ror(BinaryOp::Immediate(r, _, _))
            | IntegerOp::Cmp(CompOp::Immediate(r, _, _)) | IntegerOp::Tst(TestOp::Immediate(r, _))
            | IntegerOp::Not(UnaryOp(r, _)) | IntegerOp::Sxt(SignExtendOp(_, r)) => RegisterFlags::of([r]@),
        }
    }

    fn get_write_regs(self) -> (r: RegisterFlags) {
        match self {
            IntegerOp::Not(UnaryOp(_, r)) | IntegerOp::Sxt(SignExtendOp(_, r)) => RegisterFlags::from_slice(&[r, ZF, OF, EPS, NAN, INF]),
            IntegerOp::Cmp(_) | IntegerOp::Tst(_) => RegisterFlags::from_slice(&[ZF, OF, EPS, NAN, INF]),
            IntegerOp::Add(BinaryOp::Registers(.., r) | BinaryOp::Immediate(.., r)) | IntegerOp::Sub(BinaryOp::Registers(.., r) | BinaryOp::Immediate(.., r)) | IntegerOp::Mul(BinaryOp::Registers(.., r) | BinaryOp::Immediate(.., r)) | IntegerOp::Dvu(BinaryOp::Registers(.., r) | BinaryOp::Immediate(.., r)) | IntegerOp::Dvs(BinaryOp::Registers(.., r) | BinaryOp::Immediate(.., r)) | IntegerOp::Mod(BinaryOp::Registers(.., r) | BinaryOp::Immediate(.., r)) | IntegerOp::And(BinaryOp::Registers(.., r) | BinaryOp::Immediate(.., r)) | IntegerOp::Ior(BinaryOp::Registers(.., r) | BinaryOp::Immediate(.., r)) | IntegerOp::Xor(BinaryOp::Registers(.., r) | BinaryOp::Immediate(.., r)) | IntegerOp::Bsl(BinaryOp::Registers(.., r) | BinaryOp::Immediate(.., r)) | IntegerOp::Bsr(BinaryOp::Registers(.., r) | BinaryOp::Immediate(.., r)) | IntegerOp::Asr(BinaryOp::Registers(.., r) | BinaryOp::Immediate(.., r)) | IntegerOp::Rol(BinaryOp::Registers(.., r) | BinaryOp::Immediate(.., r)) | IntegerOp::Ror(BinaryOp::Registers(.., r) | BinaryOp::Immediate(.., r)) => RegisterFlags::from_slice(&[r, ZF, OF, EPS, NAN, INF]),
        }
    }

    fn get_read_regs(self) -> (r: RegisterFlags) {
        match self {
            IntegerOp::Add(BinaryOp::Registers(r0, r1, _)) | IntegerOp::Sub(BinaryOp::Registers(r0, r1, _)) | IntegerOp::Mul(BinaryOp::Registers(r0, r1, _)) | IntegerOp::Dvu(BinaryOp::Registers(r0, r1, _)) | IntegerOp::Dvs(BinaryOp::Registers(r0, r1, _)) | IntegerOp::Mod(BinaryOp::Registers(r0, r1, _)) | IntegerOp::And(BinaryOp::Registers(r0, r1, _)) | IntegerOp::Ior(BinaryOp::Registers(r0, r1, _)) | IntegerOp::Xor(BinaryOp::Registers(r0, r1, _)) | IntegerOp::Bsl(BinaryOp::Registers(r0, r1, _)) | IntegerOp::Bsr(BinaryOp::Registers(r0, r1, _)) | IntegerOp::Asr(BinaryOp::Registers(r0, r1, _)) | IntegerOp::Rol(BinaryOp::Registers(r0, r1, _)) | IntegerOp::Ror(BinaryOp::Registers(r0, r1, _))
            | IntegerOp::Cmp(CompOp::Registers(r0, r1, _)) | IntegerOp::Tst(TestOp::Registers(r0, r1)) => RegisterFlags::from_slice(&[r0, r1]),
            IntegerOp::Add(BinaryOp::Immediate(r, _, _)) | IntegerOp::Sub(BinaryOp::Immediate(r, _, _)) | IntegerOp::Mul(BinaryOp::Immediate(r, _, _)) | IntegerOp::Dvu(BinaryOp::Immediate(r, _, _)) | IntegerOp::Dvs(BinaryOp::Immediate(r, _, _)) | IntegerOp::Mod(BinaryOp::Immediate(r, _, _)) | IntegerOp::And(BinaryOp::Immediate(r, _, _)) | IntegerOp::Ior(BinaryOp::Immediate(r, _, _)) | IntegerOp::Xor(BinaryOp::Immediate(r, _, _)) | IntegerOp::Bsl(BinaryOp::Immediate(r, _, _)) | IntegerOp::Bsr(BinaryOp::Immediate(r, _, _)) | IntegerOp::Asr(BinaryOp::Immediate(r, _, _)) | IntegerOp::Rol(BinaryOp::Immediate(r, _, _)) | IntegerOp::Ror(BinaryOp::Immediate(r, _, _))
            | IntegerOp::Cmp(CompOp::Immediate(r, _, _)) | IntegerOp::Tst(TestOp::Immediate(r, _))
            | IntegerOp::Not(UnaryOp(r, _)) | IntegerOp::Sxt(SignExtendOp(_, r)) => RegisterFlags::from_slice(&[r]),
        }
    }
}

impl BinaryOp {
    /// The operands as written in assembly.
    pub open spec fn shown(self) -> Seq<char> {
        match self {
            BinaryOp::Immediate(src, opt, dst) => vreg(src) + ", "@ + dec_text(opt as nat) + " => "@ + vreg(dst),
            BinaryOp::Registers(src, opt, dst) => vreg(src) + ", "@ + vreg(opt) + " => "@ + vreg(dst),
        }
    }

    /// Writes the operands as in assembly.
    pub fn fmt(&self, f: &mut String)
        ensures
            final(f)@ == old(f)@ + self.shown(),
    {
        match *self {
            BinaryOp::Immediate(src, opt, dst) => {
                push_vreg(f, src);
                f.append(", ");
                push_dec(f, opt);
            },
            BinaryOp::Registers(src, opt, dst) => {
                push_vreg(f, src);
                f.append(", ");
                push_vreg(f, opt);
            },
        }
        match *self {
            BinaryOp::Immediate(_, _, dst) | BinaryOp::Registers(_, _, dst) => {
                f.append(" => ");
                push_vreg(f, dst);
            },
        }
    }
}

impl SignExtendOp {
    /// The width written out.
    pub open spec fn width_name(self) -> Seq<char> {
        if self.0 == 0 {
            "byte"@
        } else if self.0 == 1 {
            "short"@
        } else if self.0 == 2 {
            "word"@
        } else {
            "<INVALID>"@
        }
    }

    /// The operands as written in assembly.
    pub open spec fn shown(self) -> Seq<char> {
        self.width_name() + " "@ + vreg(self.1)
    }

    /// Writes the operands as in assembly.
    pub fn fmt(&self, f: &mut String)
        ensures
            final(f)@ == old(f)@ + self.shown(),
    {
        if self.0 == 0 {
            f.append("byte");
        } else if self.0 == 1 {
            f.append("short");
        } else if self.0 == 2 {
            f.append("word");
        } else {
            f.append("<INVALID>");
        }
        f.append(" ");
        push_vreg(f, self.1);
    }
}

impl UnaryOp {
    /// The operands as written in assembly.
    pub open spec fn shown(self) -> Seq<char> {
        vreg(self.0) + " => "@ + vreg(self.1)
    }

    /// Writes the operands as in assembly.
    pub fn fmt(&self, f: &mut String)
        ensures
            final(f)@ == old(f)@ + self.shown(),
    {
        push_vreg(f, self.0);
        f.append(" => ");
        push_vreg(f, self.1);
    }
}

impl CompOp {
    /// The operands as written in assembly; a signed comparison starts with `s`.
    pub open spec fn shown(self) -> Seq<char> {
        match self {
            CompOp::Registers(l, r, signed) => (if signed { "s "@ } else { ""@ }) + vreg(l) + ", "@ + vreg(r),
            CompOp::Immediate(l, r, signed) => (if signed { "s "@ } else { ""@ }) + vreg(l) + ", "@ + dec_text(r as nat),
        }
    }

    /// Writes the operands as in assembly.
    pub fn fmt(&self, f: &mut String)
        ensures
            final(f)@ == old(f)@ + self.shown(),
    {
        match *self {
            CompOp::Registers(l, r, signed) => {
                if signed {
                    f.append("s ");
                } else {
                    f.append("");
                }
                push_vreg(f, l);
                f.append(", ");
                push_vreg(f, r);
            },
            CompOp::Immediate(l, r, signed) => {
                if signed {
                    f.append("s ");
                } else {
                    f.append("");
                }
                push_vreg(f, l);
                f.append(", ");
                push_dec(f, r);
            },
        }
    }
}

impl TestOp {
    /// The operands as written in assembly.
    pub open spec fn shown(self) -> Seq<char> {
        match self {
            TestOp::Registers(l, r) => vreg(l) + ", "@ + vreg(r),
            TestOp::Immediate(l, r) => vreg(l) + ", "@ + dec_text(r as nat),
        }
    }

    /// Writes the operands as in assembly.
    pub fn fmt(&self, f: &mut String)
        ensures
            final(f)@ == old(f)@ + self.shown(),
    {
        match *self {
            TestOp::Registers(l, r) => {
                push_vreg(f, l);
                f.append(", ");
                push_vreg(f, r);
            },
            TestOp::Immediate(l, r) => {
                push_vreg(f, l);
                f.append(", ");
                push_dec(f, r);
            },
        }
    }
}

impl IntegerOp {
    /// The mnemonic of the operation.
    pub open spec fn mnemonic(self) -> Seq<char> {
        match self {
            IntegerOp::Add(_) => "ADD"@,
            IntegerOp::Sub(_) => "SUB"@,
            IntegerOp::Mul(_) => "MUL"@,
            IntegerOp::Dvu(_) => "DVU"@,
            IntegerOp::Dvs(_) => "DVS"@,
            IntegerOp::Mod(_) => "MOD"@,
            IntegerOp::Cmp(_) => "CMP"@,
            IntegerOp::Tst(_) => "TST"@,
            IntegerOp::And(_) => "AND"@,
            IntegerOp::Ior(_) => "IOR"@,
            IntegerOp::Xor(_) => "XOR"@,
            IntegerOp::Not(_) => "NOT"@,
            IntegerOp::Sxt(_) => "SXT"@,
            IntegerOp::Bsl(_) => "LSL"@,
            IntegerOp::Bsr(_) => "LSR"@,
            IntegerOp::Asr(_) => "ASR"@,
            IntegerOp::Rol(_) => "ROL"@,
            IntegerOp::Ror(_) => "ROR"@,
        }
    }

    /// The operation as written in assembly: the mnemonic, then the operands.
    pub open spec fn shown(self) -> Seq<char> {
        self.mnemonic() + " "@ + match self {
            IntegerOp::Add(b) | IntegerOp::Sub(b) | IntegerOp::Mul(b) | IntegerOp::Dvu(b) | IntegerOp::Dvs(b)
            | IntegerOp::Mod(b) | IntegerOp::And(b) | IntegerOp::Ior(b) | IntegerOp::Xor(b) | IntegerOp::Bsl(b)
            | IntegerOp::Bsr(b) | IntegerOp::Asr(b) | IntegerOp::Rol(b) | IntegerOp::Ror(b) => b.shown(),
            IntegerOp::Not(o) => o.shown(),
            IntegerOp::Sxt(o) => o.shown(),
            IntegerOp::Cmp(o) => o.shown(),
            IntegerOp::Tst(o) => o.shown(),
        }
    }

    /// Writes the operation as in assembly.
    pub fn fmt(&self, f: &mut String)
        ensures
            final(f)@ == old(f)@ + self.shown(),
    {
        match *self {
            IntegerOp::Add(_) => f.append("ADD"),
            IntegerOp::Sub(_) => f.append("SUB"),
            IntegerOp::Mul(_) => f.append("MUL"),
            IntegerOp::Dvu(_) => f.append("DVU"),
            IntegerOp::Dvs(_) => f.append("DVS"),
            IntegerOp::Mod(_) => f.append("MOD"),
            IntegerOp::Cmp(_) => f.append("CMP"),
            IntegerOp::Tst(_) => f.append("TST"),
            IntegerOp::And(_) => f.append("AND"),
            IntegerOp::Ior(_) => f.append("IOR"),
            IntegerOp::Xor(_) => f.append("XOR"),
            IntegerOp::Not(_) => f.append("NOT"),
            IntegerOp::Sxt(_) => f.append("SXT"),
            IntegerOp::Bsl(_) => f.append("LSL"),
            IntegerOp::Bsr(_) => f.append("LSR"),
            IntegerOp::Asr(_) => f.append("ASR"),
            IntegerOp::Rol(_) => f.append("ROL"),
            IntegerOp::Ror(_) => f.append("ROR"),
        }
        f.append(" ");
        match *self {
            IntegerOp::Add(b) | IntegerOp::Sub(b) | IntegerOp::Mul(b) | IntegerOp::Dvu(b) | IntegerOp::Dvs(b)
            | IntegerOp::Mod(b) | IntegerOp::And(b) | IntegerOp::Ior(b) | IntegerOp::Xor(b) | IntegerOp::Bsl(b)
            | IntegerOp::Bsr(b) | IntegerOp::Asr(b) | IntegerOp::Rol(b) | IntegerOp::Ror(b) => b.fmt(f),
            IntegerOp::Not(o) => o.fmt(f),
            IntegerOp::Sxt(o) => o.fmt(f),
            IntegerOp::Cmp(o) => o.fmt(f),
            IntegerOp::Tst(o) => o.fmt(f),
        }
    }
}

/// The assembly mnemonic of each operation code.
pub open spec fn integer_mnemonic(opcode: Word) -> Seq<char> {
    if opcode == ADD {
        "ADD"@
    } else if opcode == SUB {
        "SUB"@
    } else if opcode == MUL {
        "MUL"@
    } else if opcode == DVU {
        "DVU"@
    } else if opcode == DVS {
        "DVS"@
    } else if opcode == MOD {
        "MOD"@
    } else if opcode == AND {
        "AND"@
    } else if opcode == IOR {
        "IOR"@
    } else if opcode == XOR {
        "XOR"@
    } else if opcode == NOT {
        "NOT"@
    } else if opcode == SXT {
        "SXT"@
    } else if opcode == BSL {
        "LSL"@
    } else if opcode == BSR {
        "LSR"@
    } else if opcode == ASR {
        "ASR"@
    } else if opcode == ROL {
        "ROL"@
    } else if opcode == ROR {
        "ROR"@
    } else if opcode == CMP {
        "CMP"@
    } else {
        "TST"@
    }
}

/// The text of an operation starts with the mnemonic of its operation code,
/// followed by a space and the operands.
pub proof fn law_integer_text_starts_with_mnemonic(op: IntegerOp)
    ensures
        op.shown().len() > integer_mnemonic(op.opcode()).len(),
        op.shown().subrange(0, integer_mnemonic(op.opcode()).len() as int) == integer_mnemonic(op.opcode()),
        op.shown()[integer_mnemonic(op.opcode()).len() as int] == ' ',
{
    reveal_strlit("ADD");
    reveal_strlit("SUB");
    reveal_strlit("MUL");
    reveal_strlit("DVU");
    reveal_strlit("DVS");
    reveal_strlit("MOD");
    reveal_strlit("AND");
    reveal_strlit("IOR");
    reveal_strlit("XOR");
    reveal_strlit("NOT");
    reveal_strlit("SXT");
    reveal_strlit("LSL");
    reveal_strlit("LSR");
    reveal_strlit("ASR");
    reveal_strlit("ROL");
    reveal_strlit("ROR");
    reveal_strlit("CMP");
    reveal_strlit("TST");
    reveal_strlit(" ");
    let mn = integer_mnemonic(op.opcode());
    assert(op.shown().subrange(0, mn.len() as int) =~= mn);
}

/// Operations with different operation codes are written differently: the
/// text of an operation names the operation.
pub proof fn law_integer_texts_differ(a: IntegerOp, b: IntegerOp)
    requires
        a.opcode() != b.opcode(),
    ensures
        a.shown() != b.shown(),
{
    law_integer_text_starts_with_mnemonic(a);
    law_integer_text_starts_with_mnemonic(b);
    reveal_strlit("ADD");
    reveal_strlit("SUB");
    reveal_strlit("MUL");
    reveal_strlit("DVU");
    reveal_strlit("DVS");
    reveal_strlit("MOD");
    reveal_strlit("AND");
    reveal_strlit("IOR");
    reveal_strlit("XOR");
    reveal_strlit("NOT");
    reveal_strlit("SXT");
    reveal_strlit("LSL");
    reveal_strlit("LSR");
    reveal_strlit("ASR");
    reveal_strlit("ROL");
    reveal_strlit("ROR");
    reveal_strlit("CMP");
    reveal_strlit("TST");
    reveal_strlit(" ");
    if a.shown() == b.shown() {
        let ma = integer_mnemonic(a.opcode());
        let mb = integer_mnemonic(b.opcode());
        assert(ma[0] == a.shown()[0] && mb[0] == b.shown()[0]);
        assert(ma[1] == a.shown()[1] && mb[1] == b.shown()[1]);
        assert(ma[2] == a.shown()[2] && mb[2] == b.shown()[2]);
    }
}

} // verus!
