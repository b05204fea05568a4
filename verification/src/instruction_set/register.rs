//! Register operations
use super::error::{DecodeError, DecodeResult};
use super::{Decode, Encode, Info};
use crate::registers::{get_name, register_name, RegisterFlags, BP, COUNT, EPS, INF, NAN, OF, SP, ZF};
use crate::text::{dec_text, hex_text, push_dec, push_hex, push_vreg, vreg};
use crate::types::{Byte, Register, Short, Word};
use vstd::prelude::*;

verus! {

/// The bits that the operands of a register operation occupy in a word.
pub open spec fn operand_region() -> Word {
    0x01FF_FFFF
}

/// Register bits of a push or pop
pub const PUSH_POP_REG_MASK: Word = 0x0000_001F;

impl Decode for Register {
    open spec fn spec_decode(word: Word) -> DecodeResult<Register> {
        Ok((word & PUSH_POP_REG_MASK) as Register)
    }

    fn decode(word: Word) -> (r: DecodeResult<Register>) {
        assert(word & 0x1F < 32) by (bit_vector);
        Ok((word & PUSH_POP_REG_MASK) as Register)
    }
}

impl Encode for Register {
    open spec fn spec_encode(self) -> Word {
        self as Word
    }

    fn encode(self) -> (w: Word) {
        self as Word
    }
}

/// A pushed or popped register decodes back from its encoding.
pub proof fn lemma_register_roundtrip(reg: Register, hi: Word)
    requires
        reg < 32,
        hi & operand_region() == 0,
    ensures
        Register::spec_decode(reg.spec_encode() | hi) == Ok::<Register, DecodeError>(reg),
        reg.spec_encode() & !operand_region() == 0,
{
    let r = reg as u32;
    assert((r | hi) & 0x1F == r && r & !0x01FF_FFFFu32 == 0) by (bit_vector)
        requires r < 32, hi & 0x01FF_FFFF == 0;
}

/// Any decoded push or pop register is below 32.
pub proof fn lemma_register_decode_wf(word: Word) by (bit_vector)
    ensures
        Register::spec_decode(word) matches Ok(r) && r < 32,
{
}

/// Set if the immediate load is a zero-page address translation
pub const ZPG_TRANSLATE: Word = 0x0080_0000;
/// Set if the rest of the register is zeroed
pub const ZERO_FLAG: Word = 0x0040_0000;
/// Destination register bits
pub const DEST_REG_MASK: Word = 0x0000_000F;
/// Immediate value bits
pub const IMM_MASK: Word = 0x000F_FFF0;
/// Immediate value shift
pub const IMM_SHIFT: Word = 4;
/// Byte-shift bits
pub const IMM_BSHIFT_MASK: Word = 0x0030_0000;
/// Byte-shift shift
pub const IMM_BSHIFT_SHIFT: Word = 20;

/// Represents an immediate load operation
#[derive(Debug, Clone, Copy, PartialEq, Eq, Structural)]
pub enum ImmOp {
    /// An immediate value, with a shift
    Immediate {
        /// Whether to zero out the entire register
        zero: bool,
        /// How many shorts to shift the number
        shift: Byte,
        /// What to set the register to
        immediate: Short,
        /// Where to store the immediate value
        destination: Register,
    },
    /// Loads the address value in the lower-order bits
    /// and the short page's ID in the higher-order bits
    ZeroPageTranslate {
        /// The short-page address
        address: Short,
        /// The register to store the address to
        destination: Register,
    },
}

impl ImmOp {
    /// An operation that its encoding represents exactly.
    pub open spec fn wf(self) -> bool {
        match self {
            ImmOp::Immediate { shift, destination, .. } => shift < 4 && destination < 16,
            ImmOp::ZeroPageTranslate { destination, .. } => destination < 16,
        }
    }

    /// The destination register.
    pub open spec fn destination(self) -> Register {
        match self {
            ImmOp::Immediate { destination, .. } | ImmOp::ZeroPageTranslate { destination, .. } => destination,
        }
    }
}

proof fn lemma_imm_fields(w: u32) by (bit_vector)
    ensures
        (w & 0xF_FFF0) >> 4 < 0x1_0000,
        (w & 0x30_0000) >> 20 < 4,
        w & 0xF < 16,
{
}

impl Decode for ImmOp {
    open spec fn spec_decode(word: Word) -> DecodeResult<ImmOp> {
        if word & ZPG_TRANSLATE == 0 {
            Ok(ImmOp::Immediate {
                zero: (word & ZERO_FLAG) != 0,
                shift: ((word & IMM_BSHIFT_MASK) >> IMM_BSHIFT_SHIFT) as Byte,
                immediate: ((word & IMM_MASK) >> IMM_SHIFT) as Short,
                destination: (word & DEST_REG_MASK) as Register,
            })
        } else {
            Ok(ImmOp::ZeroPageTranslate {
                address: ((word & IMM_MASK) >> IMM_SHIFT) as Short,
                destination: (word & DEST_REG_MASK) as Register,
            })
        }
    }

    fn decode(word: Word) -> (r: DecodeResult<ImmOp>) {
        proof { lemma_imm_fields(word); }
        if word & ZPG_TRANSLATE == 0 {
            let zero = (word & ZERO_FLAG) != 0;
            let destination = (word & DEST_REG_MASK) as Register;
            let immediate = ((word & IMM_MASK) >> IMM_SHIFT) as Short;
            let shift = ((word & IMM_BSHIFT_MASK) >> IMM_BSHIFT_SHIFT) as Byte;
            Ok(ImmOp::Immediate { zero, shift, immediate, destination })
        } else {
            let address = ((word & IMM_MASK) >> IMM_SHIFT) as Short;
            let destination = (word & DEST_REG_MASK) as Register;
            Ok(ImmOp::ZeroPageTranslate { address, destination })
        }
    }
}

/// The zero-flag bits of an immediate load.
pub open spec fn zero_bits(zero: bool) -> Word {
    if zero {
        ZERO_FLAG
    } else {
        0
    }
}

impl Encode for ImmOp {
    open spec fn spec_encode(self) -> Word {
        match self {
            ImmOp::Immediate { zero, shift, immediate, destination } => zero_bits(zero)
                | ((destination as Word) & DEST_REG_MASK) | (((immediate as Word) << IMM_SHIFT)
                & IMM_MASK) | (((shift as Word) << IMM_BSHIFT_SHIFT) & IMM_BSHIFT_MASK),
            ImmOp::ZeroPageTranslate { address, destination } => ZPG_TRANSLATE | ((address as Word)
                << IMM_SHIFT) | ((destination as Word) & DEST_REG_MASK),
        }
    }

    fn encode(self) -> (w: Word) {
        match self {
            ImmOp::Immediate { zero, shift, immediate, destination } => {
                let zero = if zero {
                    ZERO_FLAG
                } else {
                    0
                };
                let destination = (destination as Word) & DEST_REG_MASK;
                let immediate = ((immediate as Word) << IMM_SHIFT) & IMM_MASK;
                let shift = ((shift as Word) << IMM_BSHIFT_SHIFT) & IMM_BSHIFT_MASK;
                zero | destination | immediate | shift
            },
            ImmOp::ZeroPageTranslate { address, destination } => {
                let address = (address as Word) << IMM_SHIFT;
                let destination = (destination as Word) & DEST_REG_MASK;
                ZPG_TRANSLATE | address | destination
            },
        }
    }
}

impl ImmOp {
    /// A well-formed operation decodes back from its encoding, whatever stands
    /// in the bits above the operand region; the encoding stays inside the region.
    pub proof fn lemma_roundtrip(self, hi: Word)
        requires
            self.wf(),
            hi & operand_region() == 0,
        ensures
            ImmOp::spec_decode(self.spec_encode() | hi) == Ok::<ImmOp, DecodeError>(self),
            self.spec_encode() & !operand_region() == 0,
    {
        match self {
            ImmOp::Immediate { zero, shift, immediate, destination } => {
                let z = zero_bits(zero);
                let s = shift as u32;
                let i = immediate as u32;
                let d = destination as u32;
                let w = (z | (d & 0xF) | ((i << 4) & 0xF_FFF0) | ((s << 20) & 0x30_0000)) | hi;
                assert(w & 0x80_0000 == 0 && ((w & 0x40_0000) != 0) == (z == 0x40_0000) && (w
                    & 0x30_0000) >> 20 == s && (w & 0xF_FFF0) >> 4 == i && w & 0xF == d && (z | (d
                    & 0xF) | ((i << 4) & 0xF_FFF0) | ((s << 20) & 0x30_0000)) & !0x01FF_FFFFu32
                    == 0) by (bit_vector)
                    requires
                        w == (z | (d & 0xF) | ((i << 4) & 0xF_FFF0) | ((s << 20) & 0x30_0000)) | hi,
                        z == 0 || z == 0x40_0000,
                        s < 4,
                        i < 0x1_0000,
                        d < 16,
                        hi & 0x01FF_FFFF == 0,
                ;
            },
            ImmOp::ZeroPageTranslate { address, destination } => {
                let a = address as u32;
                let d = destination as u32;
                let w = (0x80_0000 | (a << 4) | (d & 0xF)) | hi;
                assert(w & 0x80_0000 != 0 && (w & 0xF_FFF0) >> 4 == a && w & 0xF == d && (0x80_0000
                    | (a << 4) | (d & 0xF)) & !0x01FF_FFFFu32 == 0) by (bit_vector)
                    requires
                        w == (0x80_0000 | (a << 4) | (d & 0xF)) | hi,
                        a < 0x1_0000,
                        d < 16,
                        hi & 0x01FF_FFFF == 0,
                ;
            },
        }
    }

    /// Whatever decodes from a word is well-formed.
    pub proof fn lemma_decode_wf(word: Word)
        ensures
            ImmOp::spec_decode(word) matches Ok(i) && i.wf(),
    {
        lemma_imm_fields(word);
    }
}

/// Source register bits of a transfer
pub const SRC_REGISTER_MASK: Word = 0x0000_FF00;
/// Destination register bits of a transfer
pub const DST_REGISTER_MASK: Word = 0x0000_00FF;

/// Represents a register transfer operation
#[derive(Debug, Clone, Copy, PartialEq, Eq, Structural)]
pub struct RegOp {
    /// Where to read the value from
    pub source: Register,
    /// Where to store the value to
    pub destination: Register,
}

impl RegOp {
    /// An operation that its encoding represents exactly.
    pub open spec fn wf(self) -> bool {
        self.source < COUNT && self.destination < COUNT
    }
}

impl Decode for RegOp {
    open spec fn spec_decode(word: Word) -> DecodeResult<RegOp> {
        let source = ((word & SRC_REGISTER_MASK) >> 8) as Register;
        let destination = (word & DST_REGISTER_MASK) as Register;
        if (source as usize) < COUNT && (destination as usize) < COUNT {
            Ok(RegOp { source, destination })
        } else {
            Err(DecodeError::InvalidRegister(source, destination))
        }
    }

    fn decode(word: Word) -> (r: DecodeResult<RegOp>) {
        assert((word & 0xFF00) >> 8 < 256 && word & 0xFF < 256) by (bit_vector);
        let source = ((word & SRC_REGISTER_MASK) >> 8) as Register;
        let destination = (word & DST_REGISTER_MASK) as Register;
        if (source as usize) < COUNT && (destination as usize) < COUNT {
            Ok(RegOp { source, destination })
        } else {
            Err(DecodeError::InvalidRegister(source, destination))
        }
    }
}

impl Encode for RegOp {
    open spec fn spec_encode(self) -> Word {
        ((self.source as Word) << 8) | (self.destination as Word)
    }

    fn encode(self) -> (w: Word) {
        ((self.source as Word) << 8) | (self.destination as Word)
    }
}

impl RegOp {
    /// A well-formed transfer decodes back from its encoding, whatever stands
    /// in the bits above the operand region; the encoding stays inside the region.
    pub proof fn lemma_roundtrip(self, hi: Word)
        requires
            self.wf(),
            hi & operand_region() == 0,
        ensures
            RegOp::spec_decode(self.spec_encode() | hi) == Ok::<RegOp, DecodeError>(self),
            self.spec_encode() & !operand_region() == 0,
    {
        let s = self.source as u32;
        let d = self.destination as u32;
        assert(((((s << 8) | d) | hi) & 0xFF00) >> 8 == s && (((s << 8) | d) | hi) & 0xFF == d
            && ((s << 8) | d) & !0x01FF_FFFFu32 == 0) by (bit_vector)
            requires s < 25, d < 25, hi & 0x01FF_FFFF == 0;
    }

    /// Whatever decodes from a word is well-formed.
    pub proof fn lemma_decode_wf(word: Word)
        ensures
            RegOp::spec_decode(word) matches Ok(r) ==> r.wf(),
    {
    }
}

/// Source or destination register bits
pub const DATA_REG_MASK: Word = 0x0000_000F;
/// Zero-page address bits
pub const ZPG_ADDR_MASK: Word = 0x000F_FFF0;
/// Zero-page address shift
pub const ZPG_ADDR_SHIFT: Word = 4;
/// Addressing-mode bits
pub const ADDR_MODE_MASK: Word = 0x00E0_0000;
/// Addressing-mode shift
pub const ADDR_MODE_SHIFT: Word = 21;
/// Address register bits
pub const ADDRESS_REG_MASK: Word = 0x0000_00F0;
/// Address register shift
pub const ADDRESS_REG_SHIFT: Word = 4;
/// Index register bits
pub const INDEX_REG_MASK: Word = 0x0000_0F00;
/// Index register shift
pub const INDEX_REG_SHIFT: Word = 8;
/// Offset bits
pub const OFFSET_MASK: Word = 0x000F_FF00;
/// Offset shift
pub const OFFSET_SHIFT: Word = 8;
/// Indirect addressing
pub const INDIRECT_MODE: Word = 0b000;
/// Offset-indirect addressing
pub const OFFSET_MODE: Word = 0b001;
/// Indexed-indirect addressing
pub const INDEXED_MODE: Word = 0b010;
/// Stack-offset addressing
pub const STACK_OFFSET_MODE: Word = 0b011;
/// Volatile indirect addressing
pub const VOLATILE_INDIRECT_MODE: Word = 0b100;
/// Volatile offset-indirect addressing
pub const VOLATILE_OFFSET_MODE: Word = 0b101;
/// Volatile indexed-indirect addressing
pub const VOLATILE_INDEXED_MODE: Word = 0b110;
/// Zero-page addressing
pub const ZERO_PAGE_MODE: Word = 0b111;

proof fn lemma_mode_fields(w: u32) by (bit_vector)
    ensures
        (w & 0xE0_0000) >> 21 < 8,
        w & 0xF < 16,
        (w & 0xF0) >> 4 < 16,
        (w & 0xF00) >> 8 < 16,
        (w & 0xF_FF00) >> 8 < 0x1000,
        (w & 0xF_FFF0) >> 4 < 0x1_0000,
{
}

/// The volatile-mode bit that selects between two addressing modes.
pub open spec fn volatile_mode(volatile: bool, plain: Word, vol: Word) -> Word {
    if volatile {
        vol
    } else {
        plain
    }
}

proof fn lemma_mode_word(mode: u32, fields: u32, hi: u32) by (bit_vector)
    requires
        mode < 8,
        fields & !0x000F_FFFFu32 == 0,
        hi & 0x01FF_FFFF == 0,
    ensures
        ((((mode << 21) | fields) | hi) & 0xE0_0000) >> 21 == mode,
        (((mode << 21) | fields) | hi) & 0xF_FFFF == fields,
        ((mode << 21) | fields) & !0x01FF_FFFFu32 == 0,
{
}

proof fn lemma_masked_low(w: u32) by (bit_vector)
    ensures
        w & 0xF == (w & 0xF_FFFF) & 0xF,
        w & 0xF0 == (w & 0xF_FFFF) & 0xF0,
        w & 0xF00 == (w & 0xF_FFFF) & 0xF00,
        w & 0xF_FF00 == (w & 0xF_FFFF) & 0xF_FF00,
        w & 0xF_FFF0 == (w & 0xF_FFFF) & 0xF_FFF0,
{
}

proof fn lemma_fields_two(a: u32, b: u32, sa: u32, sb: u32) by (bit_vector)
    requires
        a < 16,
        b < 16,
        (sa == 4 && sb == 0),
    ensures
        (((a << sa) | b) & 0xF0) >> 4 == a,
        ((a << sa) | b) & 0xF == b,
        ((a << sa) | b) & !0x000F_FFFFu32 == 0,
{
}

proof fn lemma_fields_offset(a: u32, o: u32, b: u32) by (bit_vector)
    requires
        a < 16,
        o < 0x1000,
        b < 16,
    ensures
        (((a << 4) | (o << 8) | b) & 0xF0) >> 4 == a,
        (((a << 4) | (o << 8) | b) & 0xF_FF00) >> 8 == o,
        ((a << 4) | (o << 8) | b) & 0xF == b,
        ((a << 4) | (o << 8) | b) & !0x000F_FFFFu32 == 0,
        (((o << 8) | b) & 0xF_FF00) >> 8 == o,
        ((o << 8) | b) & 0xF == b,
        ((o << 8) | b) & !0x000F_FFFFu32 == 0,
{
}

proof fn lemma_fields_index(a: u32, i: u32, b: u32) by (bit_vector)
    requires
        a < 16,
        i < 16,
        b < 16,
    ensures
        (((a << 4) | (i << 8) | b) & 0xF0) >> 4 == a,
        (((a << 4) | (i << 8) | b) & 0xF00) >> 8 == i,
        ((a << 4) | (i << 8) | b) & 0xF == b,
        ((a << 4) | (i << 8) | b) & !0x000F_FFFFu32 == 0,
{
}

proof fn lemma_fields_zero_page(z: u32, b: u32) by (bit_vector)
    requires
        z < 0x1_0000,
        b < 16,
    ensures
        (((z << 4) | b) & 0xF_FFF0) >> 4 == z,
        ((z << 4) | b) & 0xF == b,
        ((z << 4) | b) & !0x000F_FFFFu32 == 0,
{
}

/// An addressing mode together with the register that is stored or loaded.
/// Includes translation for the zero-page.
#[derive(Debug, Clone, Copy, PartialEq, Eq, Structural)]
#[allow(inconsistent_fields)]
pub enum WriteOp {
    /// Address with the zero-page ID in the upper bytes
    ZeroPage {
        /// The address within the zero page
        address: Short,
        /// The source register
        source: Register,
    },
    /// Data at an address
    Indirect {
        /// Whether to skip the cache
        volatile: bool,
        /// The register containing the effective address
        address: Register,
        /// The source register
        source: Register,
    },
    /// Data at an address plus an immediate offset
    OffsetIndirect {
        /// Whether to skip the cache
        volatile: bool,
        /// The register containing the address
        address: Register,
        /// The immediate offset
        offset: Short,
        /// The source register
        source: Register,
    },
    /// Data at an address plus an index register
    IndexedIndirect {
        /// Whether to skip the cache
        volatile: bool,
        /// The register containing the address
        address: Register,
        /// The register containing the index
        index: Register,
        /// The source register
        source: Register,
    },
    /// Data on the stack, offset from the stack base pointer
    StackOffset {
        /// The offset from the base pointer
        offset: Short,
        /// The source register
        source: Register,
    },
}

impl WriteOp {
    /// An operation that its encoding represents exactly.
    pub open spec fn wf(self) -> bool {
        match self {
            WriteOp::ZeroPage { source, .. } => source < 16,
            WriteOp::Indirect { address, source, .. } => address < 16 && source < 16,
            WriteOp::OffsetIndirect { address, offset, source, .. } => address < 16 && offset < 0x1000 && source < 16,
            WriteOp::IndexedIndirect { address, index, source, .. } => address < 16 && index < 16 && source < 16,
            WriteOp::StackOffset { offset, source } => offset < 0x1000 && source < 16,
        }
    }

    /// The addressing-mode code of the operation.
    pub open spec fn mode(self) -> Word {
        match self {
            WriteOp::ZeroPage { .. } => ZERO_PAGE_MODE,
            WriteOp::Indirect { volatile, .. } => volatile_mode(volatile, INDIRECT_MODE, VOLATILE_INDIRECT_MODE),
            WriteOp::OffsetIndirect { volatile, .. } => volatile_mode(volatile, OFFSET_MODE, VOLATILE_OFFSET_MODE),
            WriteOp::IndexedIndirect { volatile, .. } => volatile_mode(volatile, INDEXED_MODE, VOLATILE_INDEXED_MODE),
            WriteOp::StackOffset { .. } => STACK_OFFSET_MODE,
        }
    }

    /// The operand bits of the operation, below the addressing mode.
    pub open spec fn field_bits(self) -> Word {
        match self {
            WriteOp::ZeroPage { address, source } => ((address as Word) << ZPG_ADDR_SHIFT) | (source as Word),
            WriteOp::Indirect { address, source, .. } => ((address as Word) << ADDRESS_REG_SHIFT) | (source as Word),
            WriteOp::OffsetIndirect { address, offset, source, .. } => ((address as Word) << ADDRESS_REG_SHIFT) | ((offset as Word) << OFFSET_SHIFT) | (source as Word),
            WriteOp::IndexedIndirect { address, index, source, .. } => ((address as Word) << ADDRESS_REG_SHIFT) | ((index as Word) << INDEX_REG_SHIFT) | (source as Word),
            WriteOp::StackOffset { offset, source } => ((offset as Word) << OFFSET_SHIFT) | (source as Word),
        }
    }
}

impl Decode for WriteOp {
    open spec fn spec_decode(word: Word) -> DecodeResult<WriteOp> {
        let addr_mode = (word & ADDR_MODE_MASK) >> ADDR_MODE_SHIFT;
        let source = (word & DATA_REG_MASK) as Register;
        let address = ((word & ADDRESS_REG_MASK) >> ADDRESS_REG_SHIFT) as Register;
        let offset = ((word & OFFSET_MASK) >> OFFSET_SHIFT) as Short;
        let index = ((word & INDEX_REG_MASK) >> INDEX_REG_SHIFT) as Register;
        if addr_mode == INDIRECT_MODE {
            Ok(WriteOp::Indirect { volatile: false, address, source })
        } else if addr_mode == OFFSET_MODE {
            Ok(WriteOp::OffsetIndirect { volatile: false, address, offset, source })
        } else if addr_mode == INDEXED_MODE {
            Ok(WriteOp::IndexedIndirect { volatile: false, address, index, source })
        } else if addr_mode == STACK_OFFSET_MODE {
            Ok(WriteOp::StackOffset { offset, source })
        } else if addr_mode == VOLATILE_INDIRECT_MODE {
            Ok(WriteOp::Indirect { volatile: true, address, source })
        } else if addr_mode == VOLATILE_OFFSET_MODE {
            Ok(WriteOp::OffsetIndirect { volatile: true, address, offset, source })
        } else if addr_mode == VOLATILE_INDEXED_MODE {
            Ok(WriteOp::IndexedIndirect { volatile: true, address, index, source })
        } else if addr_mode == ZERO_PAGE_MODE {
            Ok(WriteOp::ZeroPage { address: ((word & ZPG_ADDR_MASK) >> ZPG_ADDR_SHIFT) as Short, source })
        } else {
            Err(DecodeError::InvalidAddressingMode(addr_mode))
        }
    }

    fn decode(word: Word) -> (r: DecodeResult<WriteOp>) {
        proof { lemma_mode_fields(word); }
        let addr_mode = (word & ADDR_MODE_MASK) >> ADDR_MODE_SHIFT;
        let source = (word & DATA_REG_MASK) as Register;
        let address = ((word & ADDRESS_REG_MASK) >> ADDRESS_REG_SHIFT) as Register;
        let offset = ((word & OFFSET_MASK) >> OFFSET_SHIFT) as Short;
        let index = ((word & INDEX_REG_MASK) >> INDEX_REG_SHIFT) as Register;
        if addr_mode == INDIRECT_MODE {
            Ok(WriteOp::Indirect { volatile: false, address, source })
        } else if addr_mode == OFFSET_MODE {
            Ok(WriteOp::OffsetIndirect { volatile: false, address, offset, source })
        } else if addr_mode == INDEXED_MODE {
            Ok(WriteOp::IndexedIndirect { volatile: false, address, index, source })
        } else if addr_mode == STACK_OFFSET_MODE {
            Ok(WriteOp::StackOffset { offset, source })
        } else if addr_mode == VOLATILE_INDIRECT_MODE {
            Ok(WriteOp::Indirect { volatile: true, address, source })
        } else if addr_mode == VOLATILE_OFFSET_MODE {
            Ok(WriteOp::OffsetIndirect { volatile: true, address, offset, source })
        } else if addr_mode == VOLATILE_INDEXED_MODE {
            Ok(WriteOp::IndexedIndirect { volatile: true, address, index, source })
        } else if addr_mode == ZERO_PAGE_MODE {
            Ok(WriteOp::ZeroPage { address: ((word & ZPG_ADDR_MASK) >> ZPG_ADDR_SHIFT) as Short, source })
        } else {
            Err(DecodeError::InvalidAddressingMode(addr_mode))
        }
    }
}

impl Encode for WriteOp {
    open spec fn spec_encode(self) -> Word {
        (self.mode() << ADDR_MODE_SHIFT) | self.field_bits()
    }

    fn encode(self) -> (w: Word) {
        match self {
            WriteOp::StackOffset { offset, source } => (STACK_OFFSET_MODE << ADDR_MODE_SHIFT) | (((offset as Word) << OFFSET_SHIFT) | (source as Word)),
            WriteOp::ZeroPage { address, source } => (ZERO_PAGE_MODE << ADDR_MODE_SHIFT) | (((address as Word) << ZPG_ADDR_SHIFT) | (source as Word)),
            WriteOp::Indirect { volatile, address, source } => {
                let mode = if volatile { VOLATILE_INDIRECT_MODE } else { INDIRECT_MODE };
                (mode << ADDR_MODE_SHIFT) | (((address as Word) << ADDRESS_REG_SHIFT) | (source as Word))
            },
            WriteOp::OffsetIndirect { volatile, address, offset, source } => {
                let mode = if volatile { VOLATILE_OFFSET_MODE } else { OFFSET_MODE };
                (mode << ADDR_MODE_SHIFT) | (((address as Word) << ADDRESS_REG_SHIFT) | ((offset as Word) << OFFSET_SHIFT) | (source as Word))
            },
            WriteOp::IndexedIndirect { volatile, address, index, source } => {
                let mode = if volatile { VOLATILE_INDEXED_MODE } else { INDEXED_MODE };
                (mode << ADDR_MODE_SHIFT) | (((address as Word) << ADDRESS_REG_SHIFT) | ((index as Word) << INDEX_REG_SHIFT) | (source as Word))
            },
        }
    }
}

impl WriteOp {
    /// A well-formed operation decodes back from its encoding, whatever stands
    /// in the bits above the operand region; the encoding stays inside the region.
    pub proof fn lemma_roundtrip(self, hi: Word)
        requires
            self.wf(),
            hi & operand_region() == 0,
        ensures
            WriteOp::spec_decode(self.spec_encode() | hi) == Ok::<WriteOp, DecodeError>(self),
            self.spec_encode() & !operand_region() == 0,
    {
        let f = self.field_bits();
        match self {
            WriteOp::ZeroPage { address, source } => lemma_fields_zero_page(address as u32, source as u32),
            WriteOp::Indirect { address, source, .. } => lemma_fields_two(address as u32, source as u32, 4, 0),
            WriteOp::OffsetIndirect { address, offset, source, .. } => lemma_fields_offset(address as u32, offset as u32, source as u32),
            WriteOp::IndexedIndirect { address, index, source, .. } => lemma_fields_index(address as u32, index as u32, source as u32),
            WriteOp::StackOffset { offset, source } => lemma_fields_offset(0, offset as u32, source as u32),
        }
        lemma_mode_word(self.mode(), f, hi);
        let w = self.spec_encode() | hi;
        lemma_masked_low(w);
    }

    /// Whatever decodes from a word is well-formed.
    pub proof fn lemma_decode_wf(word: Word)
        ensures
            WriteOp::spec_decode(word) matches Ok(o) && o.wf(),
    {
        lemma_mode_fields(word);
    }
}

/// An addressing mode together with the register that is stored or loaded.
/// Includes translation for the zero-page.
#[derive(Debug, Clone, Copy, PartialEq, Eq, Structural)]
#[allow(inconsistent_fields)]
pub enum ReadOp {
    /// Address with the zero-page ID in the upper bytes
    ZeroPage {
        /// The address within the zero page
        address: Short,
        /// Where to store the read value
        destination: Register,
    },
    /// Data at an address
    Indirect {
        /// Whether to skip the cache
        volatile: bool,
        /// The register containing the effective address
        address: Register,
        /// Where to store the read value
        destination: Register,
    },
    /// Data at an address plus an immediate offset
    OffsetIndirect {
        /// Whether to skip the cache
        volatile: bool,
        /// The register containing the address
        address: Register,
        /// The immediate offset
        offset: Short,
        /// Where to store the read value
        destination: Register,
    },
    /// Data at an address plus an index register
    IndexedIndirect {
        /// Whether to skip the cache
        volatile: bool,
        /// The register containing the address
        address: Register,
        /// The register containing the index
        index: Register,
        /// Where to store the read value
        destination: Register,
    },
    /// Data on the stack, offset from the stack base pointer
    StackOffset {
        /// The offset from the base pointer
        offset: Short,
        /// Where to store the read value
        destination: Register,
    },
}

impl ReadOp {
    /// An operation that its encoding represents exactly.
    pub open spec fn wf(self) -> bool {
        match self {
            ReadOp::ZeroPage { destination, .. } => destination < 16,
            ReadOp::Indirect { address, destination, .. } => address < 16 && destination < 16,
            ReadOp::OffsetIndirect { address, offset, destination, .. } => address < 16 && offset < 0x1000 && destination < 16,
            ReadOp::IndexedIndirect { address, index, destination, .. } => address < 16 && index < 16 && destination < 16,
            ReadOp::StackOffset { offset, destination } => offset < 0x1000 && destination < 16,
        }
    }

    /// The addressing-mode code of the operation.
    pub open spec fn mode(self) -> Word {
        match self {
            ReadOp::ZeroPage { .. } => ZERO_PAGE_MODE,
            ReadOp::Indirect { volatile, .. } => volatile_mode(volatile, INDIRECT_MODE, VOLATILE_INDIRECT_MODE),
            ReadOp::OffsetIndirect { volatile, .. } => volatile_mode(volatile, OFFSET_MODE, VOLATILE_OFFSET_MODE),
            ReadOp::IndexedIndirect { volatile, .. } => volatile_mode(volatile, INDEXED_MODE, VOLATILE_INDEXED_MODE),
            ReadOp::StackOffset { .. } => STACK_OFFSET_MODE,
        }
    }

    /// The operand bits of the operation, below the addressing mode.
    pub open spec fn field_bits(self) -> Word {
        match self {
            ReadOp::ZeroPage { address, destination } => ((address as Word) << ZPG_ADDR_SHIFT) | (destination as Word),
            ReadOp::Indirect { address, destination, .. } => ((address as Word) << ADDRESS_REG_SHIFT) | (destination as Word),
            ReadOp::OffsetIndirect { address, offset, destination, .. } => ((address as Word) << ADDRESS_REG_SHIFT) | ((offset as Word) << OFFSET_SHIFT) | (destination as Word),
            ReadOp::IndexedIndirect { address, index, destination, .. } => ((address as Word) << ADDRESS_REG_SHIFT) | ((index as Word) << INDEX_REG_SHIFT) | (destination as Word),
            ReadOp::StackOffset { offset, destination } => ((offset as Word) << OFFSET_SHIFT) | (destination as Word),
        }
    }
}

impl Decode for ReadOp {
    open spec fn spec_decode(word: Word) -> DecodeResult<ReadOp> {
        let addr_mode = (word & ADDR_MODE_MASK) >> ADDR_MODE_SHIFT;
        let destination = (word & DATA_REG_MASK) as Register;
        let address = ((word & ADDRESS_REG_MASK) >> ADDRESS_REG_SHIFT) as Register;
        let offset = ((word & OFFSET_MASK) >> OFFSET_SHIFT) as Short;
        let index = ((word & INDEX_REG_MASK) >> INDEX_REG_SHIFT) as Register;
        if addr_mode == INDIRECT_MODE {
            Ok(ReadOp::Indirect { volatile: false, address, destination })
        } else if addr_mode == OFFSET_MODE {
            Ok(ReadOp::OffsetIndirect { volatile: false, address, offset, destination })
        } else if addr_mode == INDEXED_MODE {
            Ok(ReadOp::IndexedIndirect { volatile: false, address, index, destination })
        } else if addr_mode == STACK_OFFSET_MODE {
            Ok(ReadOp::StackOffset { offset, destination })
        } else if addr_mode == VOLATILE_INDIRECT_MODE {
            Ok(ReadOp::Indirect { volatile: true, address, destination })
        } else if addr_mode == VOLATILE_OFFSET_MODE {
            Ok(ReadOp::OffsetIndirect { volatile: true, address, offset, destination })
        } else if addr_mode == VOLATILE_INDEXED_MODE {
            Ok(ReadOp::IndexedIndirect { volatile: true, address, index, destination })
        } else if addr_mode == ZERO_PAGE_MODE {
            Ok(ReadOp::ZeroPage { address: ((word & ZPG_ADDR_MASK) >> ZPG_ADDR_SHIFT) as Short, destination })
        } else {
            Err(DecodeError::InvalidAddressingMode(addr_mode))
        }
    }

    fn decode(word: Word) -> (r: DecodeResult<ReadOp>) {
        proof { lemma_mode_fields(word); }
        let addr_mode = (word & ADDR_MODE_MASK) >> ADDR_MODE_SHIFT;
        let destination = (word & DATA_REG_MASK) as Register;
        let address = ((word & ADDRESS_REG_MASK) >> ADDRESS_REG_SHIFT) as Register;
        let offset = ((word & OFFSET_MASK) >> OFFSET_SHIFT) as Short;
        let index = ((word & INDEX_REG_MASK) >> INDEX_REG_SHIFT) as Register;
        if addr_mode == INDIRECT_MODE {
            Ok(ReadOp::Indirect { volatile: false, address, destination })
        } else if addr_mode == OFFSET_MODE {
            Ok(ReadOp::OffsetIndirect { volatile: false, address, offset, destination })
        } else if addr_mode == INDEXED_MODE {
            Ok(ReadOp::IndexedIndirect { volatile: false, address, index, destination })
        } else if addr_mode == STACK_OFFSET_MODE {
            Ok(ReadOp::StackOffset { offset, destination })
        } else if addr_mode == VOLATILE_INDIRECT_MODE {
            Ok(ReadOp::Indirect { volatile: true, address, destination })
        } else if addr_mode == VOLATILE_OFFSET_MODE {
            Ok(ReadOp::OffsetIndirect { volatile: true, address, offset, destination })
        } else if addr_mode == VOLATILE_INDEXED_MODE {
            Ok(ReadOp::IndexedIndirect { volatile: true, address, index, destination })
        } else if addr_mode == ZERO_PAGE_MODE {
            Ok(ReadOp::ZeroPage { address: ((word & ZPG_ADDR_MASK) >> ZPG_ADDR_SHIFT) as Short, destination })
        } else {
            Err(DecodeError::InvalidAddressingMode(addr_mode))
        }
    }
}

impl Encode for ReadOp {
    open spec fn spec_encode(self) -> Word {
        (self.mode() << ADDR_MODE_SHIFT) | self.field_bits()
    }

    fn encode(self) -> (w: Word) {
        match self {
            ReadOp::StackOffset { offset, destination } => (STACK_OFFSET_MODE << ADDR_MODE_SHIFT) | (((offset as Word) << OFFSET_SHIFT) | (destination as Word)),
            ReadOp::ZeroPage { address, destination } => (ZERO_PAGE_MODE << ADDR_MODE_SHIFT) | (((address as Word) << ZPG_ADDR_SHIFT) | (destination as Word)),
            ReadOp::Indirect { volatile, address, destination } => {
                let mode = if volatile { VOLATILE_INDIRECT_MODE } else { INDIRECT_MODE };
                (mode << ADDR_MODE_SHIFT) | (((address as Word) << ADDRESS_REG_SHIFT) | (destination as Word))
            },
            ReadOp::OffsetIndirect { volatile, address, offset, destination } => {
                let mode = if volatile { VOLATILE_OFFSET_MODE } else { OFFSET_MODE };
                (mode << ADDR_MODE_SHIFT) | (((address as Word) << ADDRESS_REG_SHIFT) | ((offset as Word) << OFFSET_SHIFT) | (destination as Word))
            },
            ReadOp::IndexedIndirect { volatile, address, index, destination } => {
                let mode = if volatile { VOLATILE_INDEXED_MODE } else { INDEXED_MODE };
                (mode << ADDR_MODE_SHIFT) | (((address as Word) << ADDRESS_REG_SHIFT) | ((index as Word) << INDEX_REG_SHIFT) | (destination as Word))
            },
        }
    }
}

impl ReadOp {
    /// A well-formed operation decodes back from its encoding, whatever stands
    /// in the bits above the operand region; the encoding stays inside the region.
    pub proof fn lemma_roundtrip(self, hi: Word)
        requires
            self.wf(),
            hi & operand_region() == 0,
        ensures
            ReadOp::spec_decode(self.spec_encode() | hi) == Ok::<ReadOp, DecodeError>(self),
            self.spec_encode() & !operand_region() == 0,
    {
        let f = self.field_bits();
        match self {
            ReadOp::ZeroPage { address, destination } => lemma_fields_zero_page(address as u32, destination as u32),
            ReadOp::Indirect { address, destination, .. } => lemma_fields_two(address as u32, destination as u32, 4, 0),
            ReadOp::OffsetIndirect { address, offset, destination, .. } => lemma_fields_offset(address as u32, offset as u32, destination as u32),
            ReadOp::IndexedIndirect { address, index, destination, .. } => lemma_fields_index(address as u32, index as u32, destination as u32),
            ReadOp::StackOffset { offset, destination } => lemma_fields_offset(0, offset as u32, destination as u32),
        }
        lemma_mode_word(self.mode(), f, hi);
        let w = self.spec_encode() | hi;
        lemma_masked_low(w);
    }

    /// Whatever decodes from a word is well-formed.
    pub proof fn lemma_decode_wf(word: Word)
        ensures
            ReadOp::spec_decode(word) matches Ok(o) && o.wf(),
    {
        lemma_mode_fields(word);
    }
}

/// Mask to extract the register operation code
pub const MASK: Word = 0x1E00_0000;
/// Operation code shift
pub const SHIFT: Word = 25;
/// Push to stack bits
pub const PUSH: Word = 0;
/// Pop from the stack bits
pub const POP: Word = 1;
/// Load byte to register bits
pub const LBR: Word = 2;
/// Store byte from register bits
pub const SBR: Word = 3;
/// Load short to register bits
pub const LSR: Word = 4;
/// Store short from register bits
pub const SSR: Word = 5;
/// Load long (word) to register bits
pub const LLR: Word = 6;
/// Store long (word) from register bits
pub const SLR: Word = 7;
/// Transfer bits
pub const TFR: Word = 8;
/// Load immediate value to register bits
pub const LDR: Word = 9;

/// The bits that a [`RegisterOp`] occupies in a word.
pub open spec fn register_region() -> Word {
    0x1FFF_FFFF
}

/// Instructions for register operations
#[derive(Debug, Clone, Copy, PartialEq, Eq, Structural)]
pub enum RegisterOp {
    /// Push to stack
    Push(Register),
    /// Pop from the stack
    Pop(Register),
    /// Load byte to register
    Lbr(ReadOp),
    /// Store byte from register
    Sbr(WriteOp),
    /// Load short to register
    Lsr(ReadOp),
    /// Store short from register
    Ssr(WriteOp),
    /// Load long (word) to register
    Llr(ReadOp),
    /// Store long (word) from register
    Slr(WriteOp),
    /// Transfer
    Tfr(RegOp),
    /// Load immediate value to register
    Ldr(ImmOp),
}

impl RegisterOp {
    /// An operation that its encoding represents exactly.
    pub open spec fn wf(self) -> bool {
        match self {
            RegisterOp::Push(r) | RegisterOp::Pop(r) => r < 32,
            RegisterOp::Lbr(o) | RegisterOp::Lsr(o) | RegisterOp::Llr(o) => o.wf(),
            RegisterOp::Sbr(o) | RegisterOp::Ssr(o) | RegisterOp::Slr(o) => o.wf(),
            RegisterOp::Tfr(o) => o.wf(),
            RegisterOp::Ldr(o) => o.wf(),
        }
    }

    /// The operation code of the operation.
    pub open spec fn opcode(self) -> Word {
        match self {
            RegisterOp::Push(_) => PUSH,
            RegisterOp::Pop(_) => POP,
            RegisterOp::Lbr(_) => LBR,
            RegisterOp::Sbr(_) => SBR,
            RegisterOp::Lsr(_) => LSR,
            RegisterOp::Ssr(_) => SSR,
            RegisterOp::Llr(_) => LLR,
            RegisterOp::Slr(_) => SLR,
            RegisterOp::Tfr(_) => TFR,
            RegisterOp::Ldr(_) => LDR,
        }
    }
}

impl Decode for RegisterOp {
    open spec fn spec_decode(word: Word) -> DecodeResult<RegisterOp> {
        let reg_op = (word & MASK) >> SHIFT;
        if reg_op == PUSH {
            match Register::spec_decode(word) {
                Ok(o) => Ok(RegisterOp::Push(o)),
                Err(e) => Err(e),
            }
        } else if reg_op == POP {
            match Register::spec_decode(word) {
                Ok(o) => Ok(RegisterOp::Pop(o)),
                Err(e) => Err(e),
            }
        } else if reg_op == LBR {
            match ReadOp::spec_decode(word) {
                Ok(o) => Ok(RegisterOp::Lbr(o)),
                Err(e) => Err(e),
            }
        } else if reg_op == SBR {
            match WriteOp::spec_decode(word) {
                Ok(o) => Ok(RegisterOp::Sbr(o)),
                Err(e) => Err(e),
            }
        } else if reg_op == LSR {
            match ReadOp::spec_decode(word) {
                Ok(o) => Ok(RegisterOp::Lsr(o)),
                Err(e) => Err(e),
            }
        } else if reg_op == SSR {
            match WriteOp::spec_decode(word) {
                Ok(o) => Ok(RegisterOp::Ssr(o)),
                Err(e) => Err(e),
            }
        } else if reg_op == LLR {
            match ReadOp::spec_decode(word) {
                Ok(o) => Ok(RegisterOp::Llr(o)),
                Err(e) => Err(e),
            }
        } else if reg_op == SLR {
            match WriteOp::spec_decode(word) {
                Ok(o) => Ok(RegisterOp::Slr(o)),
                Err(e) => Err(e),
            }
        } else if reg_op == TFR {
            match RegOp::spec_decode(word) {
                Ok(o) => Ok(RegisterOp::Tfr(o)),
                Err(e) => Err(e),
            }
        } else if reg_op == LDR {
            match ImmOp::spec_decode(word) {
                Ok(o) => Ok(RegisterOp::Ldr(o)),
                Err(e) => Err(e),
            }
        } else {
            Err(DecodeError::InvalidRegisterOp(reg_op))
        }
    }

    fn decode(word: Word) -> (r: DecodeResult<RegisterOp>) {
        let reg_op = (word & MASK) >> SHIFT;
        if reg_op == PUSH {
            match Register::decode(word) {
                Ok(o) => Ok(RegisterOp::Push(o)),
                Err(e) => Err(e),
            }
        } else if reg_op == POP {
            match Register::decode(word) {
                Ok(o) => Ok(RegisterOp::Pop(o)),
                Err(e) => Err(e),
            }
        } else if reg_op == LBR {
            match ReadOp::decode(word) {
                Ok(o) => Ok(RegisterOp::Lbr(o)),
                Err(e) => Err(e),
            }
        } else if reg_op == SBR {
            match WriteOp::decode(word) {
                Ok(o) => Ok(RegisterOp::Sbr(o)),
                Err(e) => Err(e),
            }
        } else if reg_op == LSR {
            match ReadOp::decode(word) {
                Ok(o) => Ok(RegisterOp::Lsr(o)),
                Err(e) => Err(e),
            }
        } else if reg_op == SSR {
            match WriteOp::decode(word) {
                Ok(o) => Ok(RegisterOp::Ssr(o)),
                Err(e) => Err(e),
            }
        } else if reg_op == LLR {
            match ReadOp::decode(word) {
                Ok(o) => Ok(RegisterOp::Llr(o)),
                Err(e) => Err(e),
            }
        } else if reg_op == SLR {
            match WriteOp::decode(word) {
                Ok(o) => Ok(RegisterOp::Slr(o)),
                Err(e) => Err(e),
            }
        } else if reg_op == TFR {
            match RegOp::decode(word) {
                Ok(o) => Ok(RegisterOp::Tfr(o)),
                Err(e) => Err(e),
            }
        } else if reg_op == LDR {
            match ImmOp::decode(word) {
                Ok(o) => Ok(RegisterOp::Ldr(o)),
                Err(e) => Err(e),
            }
        } else {
            Err(DecodeError::InvalidRegisterOp(reg_op))
        }
    }
}

impl Encode for RegisterOp {
    open spec fn spec_encode(self) -> Word {
        match self {
            RegisterOp::Push(o) => (PUSH << SHIFT) | o.spec_encode(),
            RegisterOp::Pop(o) => (POP << SHIFT) | o.spec_encode(),
            RegisterOp::Lbr(o) => (LBR << SHIFT) | o.spec_encode(),
            RegisterOp::Sbr(o) => (SBR << SHIFT) | o.spec_encode(),
            RegisterOp::Lsr(o) => (LSR << SHIFT) | o.spec_encode(),
            RegisterOp::Ssr(o) => (SSR << SHIFT) | o.spec_encode(),
            RegisterOp::Llr(o) => (LLR << SHIFT) | o.spec_encode(),
            RegisterOp::Slr(o) => (SLR << SHIFT) | o.spec_encode(),
            RegisterOp::Tfr(o) => (TFR << SHIFT) | o.spec_encode(),
            RegisterOp::Ldr(o) => (LDR << SHIFT) | o.spec_encode(),
        }
    }

    fn encode(self) -> (w: Word) {
        match self {
            RegisterOp::Push(o) => (PUSH << SHIFT) | o.encode(),
            RegisterOp::Pop(o) => (POP << SHIFT) | o.encode(),
            RegisterOp::Lbr(o) => (LBR << SHIFT) | o.encode(),
            RegisterOp::Sbr(o) => (SBR << SHIFT) | o.encode(),
            RegisterOp::Lsr(o) => (LSR << SHIFT) | o.encode(),
            RegisterOp::Ssr(o) => (SSR << SHIFT) | o.encode(),
            RegisterOp::Llr(o) => (LLR << SHIFT) | o.encode(),
            RegisterOp::Slr(o) => (SLR << SHIFT) | o.encode(),
            RegisterOp::Tfr(o) => (TFR << SHIFT) | o.encode(),
            RegisterOp::Ldr(o) => (LDR << SHIFT) | o.encode(),
        }
    }
}

proof fn lemma_opcode_field(op: u32, operand: u32, hi: u32) by (bit_vector)
    requires
        op < 16,
        operand & !0x01FF_FFFFu32 == 0,
        hi & 0x1FFF_FFFF == 0,
    ensures
        ((((op << 25) | operand) | hi) & 0x1E00_0000) >> 25 == op,
        (((op << 25) | operand) | hi) == operand | ((op << 25) | hi),
        ((op << 25) | hi) & 0x01FF_FFFF == 0,
        ((op << 25) | operand) & !0x1FFF_FFFFu32 == 0,
{
}

impl RegisterOp {
    /// A well-formed operation decodes back from its encoding, whatever stands
    /// in the bits above its region; the encoding stays inside the region.
    pub proof fn lemma_roundtrip(self, hi: Word)
        requires
            self.wf(),
            hi & register_region() == 0,
        ensures
            RegisterOp::spec_decode(self.spec_encode() | hi) == Ok::<RegisterOp, DecodeError>(self),
            self.spec_encode() & !register_region() == 0,
    {
        let op = self.opcode();
        crate::bits::lemma_zero_and(operand_region());
        match self {
            RegisterOp::Push(o) => {
                lemma_register_roundtrip(o, 0);
                crate::bits::lemma_or_zero(o.spec_encode());
                lemma_opcode_field(op, o.spec_encode(), hi);
                lemma_register_roundtrip(o, (op << 25) | hi);
            },
            RegisterOp::Pop(o) => {
                lemma_register_roundtrip(o, 0);
                crate::bits::lemma_or_zero(o.spec_encode());
                lemma_opcode_field(op, o.spec_encode(), hi);
                lemma_register_roundtrip(o, (op << 25) | hi);
            },
            RegisterOp::Lbr(o) => {
                o.lemma_roundtrip(0);
                crate::bits::lemma_or_zero(o.spec_encode());
                lemma_opcode_field(op, o.spec_encode(), hi);
                o.lemma_roundtrip((op << 25) | hi);
            },
            RegisterOp::Sbr(o) => {
                o.lemma_roundtrip(0);
                crate::bits::lemma_or_zero(o.spec_encode());
                lemma_opcode_field(op, o.spec_encode(), hi);
                o.lemma_roundtrip((op << 25) | hi);
            },
            RegisterOp::Lsr(o) => {
                o.lemma_roundtrip(0);
                crate::bits::lemma_or_zero(o.spec_encode());
                lemma_opcode_field(op, o.spec_encode(), hi);
                o.lemma_roundtrip((op << 25) | hi);
            },
            RegisterOp::Ssr(o) => {
                o.lemma_roundtrip(0);
                crate::bits::lemma_or_zero(o.spec_encode());
                lemma_opcode_field(op, o.spec_encode(), hi);
                o.lemma_roundtrip((op << 25) | hi);
            },
            RegisterOp::Llr(o) => {
                o.lemma_roundtrip(0);
                crate::bits::lemma_or_zero(o.spec_encode());
                lemma_opcode_field(op, o.spec_encode(), hi);
                o.lemma_roundtrip((op << 25) | hi);
            },
            RegisterOp::Slr(o) => {
                o.lemma_roundtrip(0);
                crate::bits::lemma_or_zero(o.spec_encode());
                lemma_opcode_field(op, o.spec_encode(), hi);
                o.lemma_roundtrip((op << 25) | hi);
            },
            RegisterOp::Tfr(o) => {
                o.lemma_roundtrip(0);
                crate::bits::lemma_or_zero(o.spec_encode());
                lemma_opcode_field(op, o.spec_encode(), hi);
                o.lemma_roundtrip((op << 25) | hi);
            },
            RegisterOp::Ldr(o) => {
                o.lemma_roundtrip(0);
                crate::bits::lemma_or_zero(o.spec_encode());
                lemma_opcode_field(op, o.spec_encode(), hi);
                o.lemma_roundtrip((op << 25) | hi);
            },
        }
    }

    /// Whatever decodes from a word is well-formed.
    pub proof fn lemma_decode_wf(word: Word)
        ensures
            RegisterOp::spec_decode(word) matches Ok(r) ==> r.wf(),
    {
        lemma_register_decode_wf(word);
        ReadOp::lemma_decode_wf(word);
        WriteOp::lemma_decode_wf(word);
        RegOp::lemma_decode_wf(word);
        ImmOp::lemma_decode_wf(word);
    }
}

/// The register that a load writes to.
pub open spec fn read_destination(r: ReadOp) -> Register {
    match r {
        ReadOp::IndexedIndirect { destination, .. } | ReadOp::Indirect { destination, .. }
        | ReadOp::OffsetIndirect { destination, .. } | ReadOp::StackOffset { destination, .. }
        | ReadOp::ZeroPage { destination, .. } => destination,
    }
}

impl Info for RegisterOp {
    open spec fn spec_write_regs(self) -> RegisterFlags {
        match self {
            RegisterOp::Lbr(r) | RegisterOp::Lsr(r) | RegisterOp::Llr(r) => RegisterFlags::of([read_destination(r), ZF, OF, EPS, NAN, INF]@),
            RegisterOp::Tfr(RegOp { destination, .. }) => RegisterFlags::of([destination, ZF, OF, EPS, NAN, INF]@),
            RegisterOp::Ldr(i) => RegisterFlags::of([i.destination(), ZF, OF, EPS, NAN, INF]@),
            RegisterOp::Pop(reg) => RegisterFlags::of([reg, SP, ZF, OF, EPS, NAN, INF]@),
            RegisterOp::Push(_) => RegisterFlags::of([SP]@),
            _ => RegisterFlags::of([]@),
        }
    }

    open spec fn spec_read_regs(self) -> RegisterFlags {
        match self {
            RegisterOp::Lbr(r) | RegisterOp::Lsr(r) | RegisterOp::Llr(r) => match r {
                ReadOp::Indirect { address, .. } => RegisterFlags::of([address]@),
                ReadOp::OffsetIndirect { address, .. } => RegisterFlags::of([address]@),
                ReadOp::IndexedIndirect { address, index, .. } => RegisterFlags::of([address, index]@),
                ReadOp::StackOffset { .. } => RegisterFlags::of([BP]@),
                _ => RegisterFlags::of([]@),
            },
            RegisterOp::Sbr(w) | RegisterOp::Ssr(w) | RegisterOp::Slr(w) => match w {
                WriteOp::ZeroPage { source, .. } => RegisterFlags::of([source]@),
                WriteOp::Indirect { address, source, .. } => RegisterFlags::of([address, source]@),
                WriteOp::OffsetIndirect { address, source, .. } => RegisterFlags::of([address, source]@),
                WriteOp::IndexedIndirect { address, index, source, .. } => RegisterFlags::of([address, index, source]@),
                WriteOp::StackOffset { source, .. } => RegisterFlags::of([source, BP]@),
            },
            RegisterOp::Tfr(RegOp { source, .. }) => RegisterFlags::of([source]@),
            RegisterOp::Push(reg) => RegisterFlags::of([reg, SP]@),
            RegisterOp::Pop(_) => RegisterFlags::of([SP]@),
            RegisterOp::Ldr(ImmOp::Immediate { destination, .. }) => RegisterFlags::of([destination]@),
            _ => RegisterFlags::of([]@),
        }
    }

    fn get_write_regs(self) -> (r: RegisterFlags) {
        match self {
            RegisterOp::Lbr(r) | RegisterOp::Lsr(r) | RegisterOp::Llr(r) => {
                let d = match r {
                    ReadOp::IndexedIndirect { destination, .. } | ReadOp::Indirect { destination, .. }
                    | ReadOp::OffsetIndirect { destination, .. } | ReadOp::StackOffset { destination, .. }
                    | ReadOp::ZeroPage { destination, .. } => destination,
                };
                RegisterFlags::from_slice(&[d, ZF, OF, EPS, NAN, INF])
            },
            RegisterOp::Tfr(RegOp { destination, .. }) => RegisterFlags::from_slice(&[destination, ZF, OF, EPS, NAN, INF]),
            RegisterOp::Ldr(ImmOp::Immediate { destination, .. } | ImmOp::ZeroPageTranslate { destination, .. }) => RegisterFlags::from_slice(&[destination, ZF, OF, EPS, NAN, INF]),
            RegisterOp::Pop(reg) => RegisterFlags::from_slice(&[reg, SP, ZF, OF, EPS, NAN, INF]),
            RegisterOp::Push(_) => RegisterFlags::from_slice(&[SP]),
            _ => RegisterFlags::from_slice(&[]),
        }
    }

    fn get_read_regs(self) -> (r: RegisterFlags) {
        match self {
            RegisterOp::Lbr(r) | RegisterOp::Lsr(r) | RegisterOp::Llr(r) => match r {
                ReadOp::Indirect { address, .. } => RegisterFlags::from_slice(&[address]),
                ReadOp::OffsetIndirect { address, .. } => RegisterFlags::from_slice(&[address]),
                ReadOp::IndexedIndirect { address, index, .. } => RegisterFlags::from_slice(&[address, index]),
                ReadOp::StackOffset { .. } => RegisterFlags::from_slice(&[BP]),
                _ => RegisterFlags::from_slice(&[]),
            },
            RegisterOp::Sbr(w) | RegisterOp::Ssr(w) | RegisterOp::Slr(w) => match w {
                WriteOp::ZeroPage { source, .. } => RegisterFlags::from_slice(&[source]),
                WriteOp::Indirect { address, source, .. } => RegisterFlags::from_slice(&[address, source]),
                WriteOp::OffsetIndirect { address, source, .. } => RegisterFlags::from_slice(&[address, source]),
                WriteOp::IndexedIndirect { address, index, source, .. } => RegisterFlags::from_slice(&[address, index, source]),
                WriteOp::StackOffset { source, .. } => RegisterFlags::from_slice(&[source, BP]),
            },
            RegisterOp::Tfr(RegOp { source, .. }) => RegisterFlags::from_slice(&[source]),
            RegisterOp::Push(reg) => RegisterFlags::from_slice(&[reg, SP]),
            RegisterOp::Pop(_) => RegisterFlags::from_slice(&[SP]),
            RegisterOp::Ldr(ImmOp::Immediate { destination, .. }) => RegisterFlags::from_slice(&[destination]),
            _ => RegisterFlags::from_slice(&[]),
        }
    }
}

/// The assignment arrow of a memory access: a double head skips the cache.
pub open spec fn arrow(volatile: bool) -> Seq<char> {
    if volatile {
        "=>>"@
    } else {
        "=>"@
    }
}

/// Appends the assignment arrow of a memory access.
fn push_arrow(f: &mut String, volatile: bool)
    ensures
        final(f)@ == old(f)@ + arrow(volatile),
{
    if volatile {
        f.append("=>>");
    } else {
        f.append("=>");
    }
}

/// A register by name, or `unknown` for a number past the last register.
pub open spec fn name_or_unknown(r: Register) -> Seq<char> {
    if r < COUNT {
        register_name(r)
    } else {
        "unknown"@
    }
}

impl ImmOp {
    /// The operands as written in assembly: the value, and the register with
    /// the short it goes to unless the whole register is set.
    pub open spec fn shown(self) -> Seq<char> {
        match self {
            ImmOp::Immediate { zero, shift, immediate, destination } => if shift == 0 {
                if zero {
                    dec_text(immediate as nat) + " => "@ + vreg(destination)
                } else {
                    dec_text(immediate as nat) + " => "@ + vreg(destination) + ".0"@
                }
            } else {
                dec_text(immediate as nat) + " => "@ + vreg(destination) + "."@ + dec_text(shift as nat)
            },
            ImmOp::ZeroPageTranslate { address, destination } => "&"@ + dec_text(address as nat) + " => "@ + vreg(
                destination,
            ),
        }
    }

    /// Writes the operands as in assembly.
    pub fn fmt(&self, f: &mut String)
        ensures
            final(f)@ == old(f)@ + self.shown(),
    {
        match *self {
            ImmOp::Immediate { zero, shift, immediate, destination } => {
                push_dec(f, immediate as u32);
                f.append(" => ");
                push_vreg(f, destination);
                if shift == 0 {
                    if !zero {
                        f.append(".0");
                    }
                } else {
                    f.append(".");
                    push_dec(f, shift as u32);
                }
            },
            ImmOp::ZeroPageTranslate { address, destination } => {
                f.append("&");
                push_dec(f, address as u32);
                f.append(" => ");
                push_vreg(f, destination);
            },
        }
    }
}

impl RegOp {
    /// The operands as written in assembly, by register name.
    pub open spec fn shown(self) -> Seq<char> {
        register_name(self.source) + " => "@ + register_name(self.destination)
    }

    /// Writes the operands as in assembly.
    pub fn fmt(&self, f: &mut String)
        requires
            self.wf(),
        ensures
            final(f)@ == old(f)@ + self.shown(),
    {
        if let (Some(s), Some(d)) = (get_name(self.source), get_name(self.destination)) {
            f.append(s);
            f.append(" => ");
            f.append(d);
        }
    }
}

impl WriteOp {
    /// The operands as written in assembly.
    pub open spec fn shown(self) -> Seq<char> {
        match self {
            WriteOp::ZeroPage { address, source } => vreg(source) + " => @0x"@ + hex_text(address as nat, false),
            WriteOp::Indirect { volatile, address, source } => vreg(source) + " "@ + arrow(volatile) + " "@ + vreg(
                address,
            ),
            WriteOp::OffsetIndirect { volatile, address, offset, source } => vreg(source) + " "@ + arrow(volatile)
                + " "@ + vreg(address) + " + "@ + dec_text(offset as nat),
            WriteOp::IndexedIndirect { volatile, address, index, source } => vreg(source) + " "@ + arrow(volatile)
                + " "@ + vreg(address) + "["@ + vreg(index) + "]"@,
            WriteOp::StackOffset { offset, source } => vreg(source) + " => %"@ + dec_text(offset as nat),
        }
    }

    /// Writes the operands as in assembly.
    pub fn fmt(&self, f: &mut String)
        ensures
            final(f)@ == old(f)@ + self.shown(),
    {
        match *self {
            WriteOp::ZeroPage { address, source } => {
                push_vreg(f, source);
                f.append(" => @0x");
                push_hex(f, address as u32, false);
            },
            WriteOp::Indirect { volatile, address, source } => {
                push_vreg(f, source);
                f.append(" ");
                push_arrow(f, volatile);
                f.append(" ");
                push_vreg(f, address);
            },
            WriteOp::OffsetIndirect { volatile, address, offset, source } => {
                push_vreg(f, source);
                f.append(" ");
                push_arrow(f, volatile);
                f.append(" ");
                push_vreg(f, address);
                f.append(" + ");
                push_dec(f, offset as u32);
            },
            WriteOp::IndexedIndirect { volatile, address, index, source } => {
                push_vreg(f, source);
                f.append(" ");
                push_arrow(f, volatile);
                f.append(" ");
                push_vreg(f, address);
                f.append("[");
                push_vreg(f, index);
                f.append("]");
            },
            WriteOp::StackOffset { offset, source } => {
                push_vreg(f, source);
                f.append(" => %");
                push_dec(f, offset as u32);
            },
        }
    }
}

impl ReadOp {
    /// The operands as written in assembly.
    pub open spec fn shown(self) -> Seq<char> {
        match self {
            ReadOp::ZeroPage { address, destination } => "@0x"@ + hex_text(address as nat, false) + " => "@ + vreg(
                destination,
            ),
            ReadOp::Indirect { volatile, address, destination } => vreg(address) + " "@ + arrow(volatile) + " "@
                + vreg(destination),
            ReadOp::OffsetIndirect { volatile, address, offset, destination } => vreg(address) + " + "@ + dec_text(
                offset as nat,
            ) + " "@ + arrow(volatile) + " "@ + vreg(destination),
            ReadOp::IndexedIndirect { volatile, address, index, destination } => vreg(address) + "["@ + vreg(index)
                + "] "@ + arrow(volatile) + " "@ + vreg(destination),
            ReadOp::StackOffset { offset, destination } => "%"@ + dec_text(offset as nat) + " => "@ + vreg(
                destination,
            ),
        }
    }

    /// Writes the operands as in assembly.
    pub fn fmt(&self, f: &mut String)
        ensures
            final(f)@ == old(f)@ + self.shown(),
    {
        match *self {
            ReadOp::ZeroPage { address, destination } => {
                f.append("@0x");
                push_hex(f, address as u32, false);
                f.append(" => ");
                push_vreg(f, destination);
            },
            ReadOp::Indirect { volatile, address, destination } => {
                push_vreg(f, address);
                f.append(" ");
                push_arrow(f, volatile);
                f.append(" ");
                push_vreg(f, destination);
            },
            ReadOp::OffsetIndirect { volatile, address, offset, destination } => {
                push_vreg(f, address);
                f.append(" + ");
                push_dec(f, offset as u32);
                f.append(" ");
                push_arrow(f, volatile);
                f.append(" ");
                push_vreg(f, destination);
            },
            ReadOp::IndexedIndirect { volatile, address, index, destination } => {
                push_vreg(f, address);
                f.append("[");
                push_vreg(f, index);
                f.append("] ");
                push_arrow(f, volatile);
                f.append(" ");
                push_vreg(f, destination);
            },
            ReadOp::StackOffset { offset, destination } => {
                f.append("%");
                push_dec(f, offset as u32);
                f.append(" => ");
                push_vreg(f, destination);
            },
        }
    }
}

impl RegisterOp {
    /// The mnemonic of the operation.
    pub open spec fn mnemonic(self) -> Seq<char> {
        match self {
            RegisterOp::Lbr(_) => "LBR"@,
            RegisterOp::Lsr(_) => "LSR"@,
            RegisterOp::Llr(_) => "LLR"@,
            RegisterOp::Sbr(_) => "SBR"@,
            RegisterOp::Ssr(_) => "SSR"@,
            RegisterOp::Slr(_) => "SLR"@,
            RegisterOp::Tfr(_) => "TFR"@,
            RegisterOp::Push(_) => "PUSH"@,
            RegisterOp::Pop(_) => "POP"@,
            RegisterOp::Ldr(_) => "LDR"@,
        }
    }

    /// The operation as written in assembly: the mnemonic, then the
    /// operands; a pushed or popped register goes by name in braces.
    pub open spec fn shown(self) -> Seq<char> {
        self.mnemonic() + " "@ + match self {
            RegisterOp::Lbr(m) | RegisterOp::Lsr(m) | RegisterOp::Llr(m) => m.shown(),
            RegisterOp::Sbr(m) | RegisterOp::Ssr(m) | RegisterOp::Slr(m) => m.shown(),
            RegisterOp::Tfr(r) => r.shown(),
            RegisterOp::Push(r) | RegisterOp::Pop(r) => "{"@ + name_or_unknown(r) + "}"@,
            RegisterOp::Ldr(i) => i.shown(),
        }
    }

    /// Writes the operation as in assembly.
    pub fn fmt(&self, f: &mut String)
        requires
            self matches RegisterOp::Tfr(r) ==> r.wf(),
        ensures
            final(f)@ == old(f)@ + self.shown(),
    {
        match *self {
            RegisterOp::Lbr(_) => f.append("LBR"),
            RegisterOp::Lsr(_) => f.append("LSR"),
            RegisterOp::Llr(_) => f.append("LLR"),
            RegisterOp::Sbr(_) => f.append("SBR"),
            RegisterOp::Ssr(_) => f.append("SSR"),
            RegisterOp::Slr(_) => f.append("SLR"),
            RegisterOp::Tfr(_) => f.append("TFR"),
            RegisterOp::Push(_) => f.append("PUSH"),
            RegisterOp::Pop(_) => f.append("POP"),
            RegisterOp::Ldr(_) => f.append("LDR"),
        }
        f.append(" ");
        match *self {
            RegisterOp::Lbr(m) | RegisterOp::Lsr(m) | RegisterOp::Llr(m) => m.fmt(f),
            RegisterOp::Sbr(m) | RegisterOp::Ssr(m) | RegisterOp::Slr(m) => m.fmt(f),
            RegisterOp::Tfr(r) => r.fmt(f),
            RegisterOp::Push(r) | RegisterOp::Pop(r) => {
                f.append("{");
                match get_name(r) {
                    Some(n) => f.append(n),
                    None => f.append("unknown"),
                }
                f.append("}");
            },
            RegisterOp::Ldr(i) => i.fmt(f),
        }
    }
}

/// The assembly mnemonic of each operation code.
pub open spec fn register_mnemonic(opcode: Word) -> Seq<char> {
    if opcode == PUSH {
        "PUSH"@
    } else if opcode == POP {
        "POP"@
    } else if opcode == LBR {
        "LBR"@
    } else if opcode == SBR {
        "SBR"@
    } else if opcode == LSR {
        "LSR"@
    } else if opcode == SSR {
        "SSR"@
    } else if opcode == LLR {
        "LLR"@
    } else if opcode == SLR {
        "SLR"@
    } else if opcode == TFR {
        "TFR"@
    } else {
        "LDR"@
    }
}

/// The text of an operation starts with the mnemonic of its operation code,
/// followed by a space and the operands.
pub proof fn law_register_text_starts_with_mnemonic(op: RegisterOp)
    ensures
        op.shown().len() > register_mnemonic(op.opcode()).len(),
        op.shown().subrange(0, register_mnemonic(op.opcode()).len() as int) == register_mnemonic(op.opcode()),
        op.shown()[register_mnemonic(op.opcode()).len() as int] == ' ',
{
    reveal_strlit("PUSH");
    reveal_strlit("POP");
    reveal_strlit("LBR");
    reveal_strlit("SBR");
    reveal_strlit("LSR");
    reveal_strlit("SSR");
    reveal_strlit("LLR");
    reveal_strlit("SLR");
    reveal_strlit("TFR");
    reveal_strlit("LDR");
    reveal_strlit(" ");
    let mn = register_mnemonic(op.opcode());
    assert(op.shown().subrange(0, mn.len() as int) =~= mn);
}

/// Operations with different operation codes are written differently: the
/// text of an operation names the operation.
pub proof fn law_register_texts_differ(a: RegisterOp, b: RegisterOp)
    requires
        a.opcode() != b.opcode(),
    ensures
        a.shown() != b.shown(),
{
    law_register_text_starts_with_mnemonic(a);
    law_register_text_starts_with_mnemonic(b);
    reveal_strlit("PUSH");
    reveal_strlit("POP");
    reveal_strlit("LBR");
    reveal_strlit("SBR");
    reveal_strlit("LSR");
    reveal_strlit("SSR");
    reveal_strlit("LLR");
    reveal_strlit("SLR");
    reveal_strlit("TFR");
    reveal_strlit("LDR");
    reveal_strlit(" ");
    if a.shown() == b.shown() {
        let ma = register_mnemonic(a.opcode());
        let mb = register_mnemonic(b.opcode());
        assert(ma[0] == a.shown()[0] && mb[0] == b.shown()[0]);
        assert(ma[1] == a.shown()[1] && mb[1] == b.shown()[1]);
        assert(ma[2] == a.shown()[2] && mb[2] == b.shown()[2]);
    }
}

} // verus!
