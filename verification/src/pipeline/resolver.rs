//! What executing an instruction produces: the steps that the later stages
//! of the pipeline take to complete it.
use crate::instruction_set::control::{ControlOp, Jump};
use crate::instruction_set::integer::{BinaryOp, CompOp, IntegerOp, SignExtendOp, TestOp, UnaryOp};
use crate::instruction_set::register::{ImmOp, ReadOp, RegOp, RegisterOp, WriteOp};
use crate::instruction_set::{FloatingPointOp, Instruction};
use crate::pages::ZERO_PAGE;
use crate::pipeline::regmap::RegMap;
use crate::registers::{RegisterFlags, BP, LP, OF, PC, SP, ZF};
use crate::types::{Byte, Register, SWord, Short, Word};
use vstd::prelude::*;

verus! {

/// The steps that the later stages take to complete an instruction.
#[derive(Debug, Clone, Copy, PartialEq, Eq, Structural)]
pub enum ExecuteResult {
    /// Nothing.
    Nop,
    /// Stops execution.
    Halt,
    /// Jumps to a subroutine, keeping what is needed to return.
    Subroutine { address: Word, link: Word, sp: Word, bp: Word, lp: Word },
    /// Jumps to a location.
    JumpTo { address: Word },
    /// Returns from a subroutine.
    Return { link: Word, bp: Word },
    /// Writes a value to a register and sets the status flags.
    WriteReg { destination: Register, value: Word, zf: bool, of: bool, eps: bool, nan: bool, inf: bool },
    /// Sets the status flags.
    WriteStatus { zf: bool, of: bool, eps: bool, nan: bool, inf: bool },
    /// Writes the low byte of a value to memory.
    WriteMemByte { address: Word, value: Byte, volatile: bool },
    /// Writes the low short of a value to memory.
    WriteMemShort { address: Word, value: Short, volatile: bool },
    /// Writes a word to memory.
    WriteMemWord { address: Word, value: Word, volatile: bool },
    /// Reads a byte from memory into a register.
    ReadMemByte { address: Word, destination: Register, volatile: bool },
    /// Reads a short from memory into a register.
    ReadMemShort { address: Word, destination: Register, volatile: bool },
    /// Reads a word from memory into a register.
    ReadMemWord { address: Word, destination: Register, volatile: bool },
    /// Pops a register from the stack.
    ReadRegStack { register: Register, sp: Word },
    /// Pushes a value on the stack.
    WriteRegStack { value: Word, sp: Word },
    /// Squashes the instructions in the pipeline, releasing these locks.
    Squash { regs: RegisterFlags },
    /// Ignores a jump, releasing these locks.
    Ignore { regs: RegisterFlags },
    /// Removes a word from the stack.
    PopStack { sp: Word },
}

impl ExecuteResult {
    /// The result changes the flow of control, so the pipeline behind it is squashed.
    pub open spec fn squashes(self) -> bool {
        self is JumpTo || self is Subroutine || self is Return
    }

    /// Whether the result needs a squash signal.
    pub fn should_squash(&self) -> (b: bool)
        ensures
            b == self.squashes(),
    {
        match self {
            ExecuteResult::JumpTo { .. } | ExecuteResult::Subroutine { .. } | ExecuteResult::Return { .. } => true,
            _ => false,
        }
    }

    /// Whether the result stops execution.
    pub fn is_halt(&self) -> (b: bool)
        ensures
            b == (*self is Halt),
    {
        match self {
            ExecuteResult::Halt => true,
            _ => false,
        }
    }
}

/// The value a register holds in the map, zero when it is absent.
pub open spec fn reg_value(m: RegMap, r: Register) -> Word {
    if m.has(r) {
        m.value_of(r)
    } else {
        0
    }
}

/// The value of a register in the map, zero when it is absent.
pub fn value(m: &RegMap, r: Register) -> (v: Word)
    requires
        m.wf(),
    ensures
        v == reg_value(*m, r),
{
    match m.get(r) {
        Some(v) => v,
        None => 0,
    }
}

/// The number modulo the size of a word.
pub open spec fn wrap32(x: int) -> Word {
    (x % 0x1_0000_0000) as Word
}

/// The signed value of a word.
pub open spec fn signed(w: Word) -> int {
    if w < 0x8000_0000 {
        w as int
    } else {
        w - 0x1_0000_0000
    }
}

/// Division rounding toward zero.
pub open spec fn div_trunc(a: int, b: int) -> int {
    let q = abs(a) / abs(b);
    if (a < 0) == (b < 0) {
        q
    } else {
        -q
    }
}

/// The absolute value.
pub open spec fn abs(a: int) -> int {
    if a < 0 {
        -a
    } else {
        a
    }
}

/// A write of a value to a register, with the zero flag from the value.
pub open spec fn write_value(destination: Register, value: Word, of: bool) -> ExecuteResult {
    ExecuteResult::WriteReg { destination, value, zf: value == 0, of, eps: false, nan: false, inf: false }
}

/// A write of the zero and overflow flags.
pub open spec fn write_flags(zf: bool, of: bool) -> ExecuteResult {
    ExecuteResult::WriteStatus { zf, of, eps: false, nan: false, inf: false }
}

/// The word rotated left by `k % 32` bits.
pub open spec fn rotl(l: Word, k: Word) -> Word {
    let s = k % 32;
    if s == 0 {
        l
    } else {
        (l << s) | (l >> ((32 - s) as u32))
    }
}

/// The word rotated right by `k % 32` bits.
pub open spec fn rotr(l: Word, k: Word) -> Word {
    let s = k % 32;
    if s == 0 {
        l
    } else {
        (l >> s) | (l << ((32 - s) as u32))
    }
}

/// The result of a binary integer operation on its two operands.
///
/// A division or a remainder by zero stops the processor.
pub open spec fn binary_result(op: IntegerOp, l: Word, r: Word, d: Register) -> ExecuteResult {
    match op {
        IntegerOp::Add(_) => write_value(d, wrap32(l + r), l + r > Word::MAX),
        IntegerOp::Sub(_) => write_value(d, wrap32(l - r), l < r),
        IntegerOp::Mul(_) => write_value(d, wrap32(l * r), l * r > Word::MAX),
        IntegerOp::Dvu(_) => if r == 0 {
            ExecuteResult::Halt
        } else {
            write_value(d, (l / r) as Word, false)
        },
        IntegerOp::Dvs(_) => if r == 0 {
            ExecuteResult::Halt
        } else {
            let q = div_trunc(signed(l), signed(r));
            write_value(d, wrap32(q), q > 0x7FFF_FFFF)
        },
        IntegerOp::Mod(_) => if r == 0 {
            ExecuteResult::Halt
        } else {
            write_value(d, (l % r) as Word, false)
        },
        IntegerOp::And(_) => write_value(d, l & r, false),
        IntegerOp::Ior(_) => write_value(d, l | r, false),
        IntegerOp::Xor(_) => write_value(d, l ^ r, false),
        IntegerOp::Bsl(_) => write_value(d, l << (r % 32), r >= 32),
        IntegerOp::Bsr(_) => write_value(d, l >> (r % 32), r >= 32),
        IntegerOp::Asr(_) => write_value(d, ((l as SWord) >> (r % 32)) as Word, r >= 32),
        IntegerOp::Rol(_) => ExecuteResult::WriteReg {
            destination: d,
            value: rotl(l, r),
            zf: false,
            of: false,
            eps: false,
            nan: false,
            inf: false,
        },
        IntegerOp::Ror(_) => ExecuteResult::WriteReg {
            destination: d,
            value: rotr(l, r),
            zf: false,
            of: false,
            eps: false,
            nan: false,
            inf: false,
        },
        _ => ExecuteResult::Nop,
    }
}

/// The result of a comparison: equal operands set the zero flag; the
/// overflow flag tells that the right operand is the greater.
pub open spec fn compare_result(l: Word, r: Word, is_signed: bool) -> ExecuteResult {
    if is_signed {
        write_flags(l == r, signed(r) > signed(l))
    } else {
        write_flags(l == r, l < r)
    }
}

/// The result of sign-extending the low byte (width 0) or short (width 1)
/// of a value: the bits above it are filled with its sign bit; the overflow
/// flag tells that the sign bit was set. Other widths do nothing.
pub open spec fn sign_extend_result(width: Word, v: Word, d: Register) -> ExecuteResult {
    if width == 0 {
        if v & 0x80 != 0 {
            write_value(d, (v & 0xFF) | 0xFFFF_FF00, true)
        } else {
            write_value(d, v & 0xFF, false)
        }
    } else if width == 1 {
        if v & 0x8000 != 0 {
            write_value(d, (v & 0xFFFF) | 0xFFFF_0000, true)
        } else {
            write_value(d, v & 0xFFFF, false)
        }
    } else {
        ExecuteResult::Nop
    }
}

/// What an integer operation produces from the register values.
pub open spec fn integer_result(op: IntegerOp, m: RegMap) -> ExecuteResult {
    match op {
        IntegerOp::Add(b) | IntegerOp::Sub(b) | IntegerOp::Mul(b) | IntegerOp::Dvu(b) | IntegerOp::Dvs(b)
        | IntegerOp::Mod(b) | IntegerOp::And(b) | IntegerOp::Ior(b) | IntegerOp::Xor(b) | IntegerOp::Bsl(b)
        | IntegerOp::Bsr(b) | IntegerOp::Asr(b) | IntegerOp::Rol(b) | IntegerOp::Ror(b) => match b {
            BinaryOp::Immediate(o, imm, d) => binary_result(op, reg_value(m, o), imm, d),
            BinaryOp::Registers(o, p, d) => binary_result(op, reg_value(m, o), reg_value(m, p), d),
        },
        IntegerOp::Cmp(CompOp::Immediate(o, imm, s)) => compare_result(reg_value(m, o), imm, s),
        IntegerOp::Cmp(CompOp::Registers(o, p, s)) => compare_result(reg_value(m, o), reg_value(m, p), s),
        IntegerOp::Tst(TestOp::Immediate(o, imm)) => write_flags(reg_value(m, o) & imm == reg_value(m, o), false),
        IntegerOp::Tst(TestOp::Registers(o, p)) => write_flags(
            reg_value(m, o) & reg_value(m, p) == reg_value(m, o),
            false,
        ),
        IntegerOp::Not(UnaryOp(o, d)) => write_value(d, !reg_value(m, o), false),
        IntegerOp::Sxt(SignExtendOp(w, d)) => sign_extend_result(w, reg_value(m, d), d),
    }
}

/// A jump to `target` when the condition holds; nothing otherwise.
pub open spec fn jump_if(cond: bool, target: Word) -> ExecuteResult {
    if cond {
        ExecuteResult::JumpTo { address: target }
    } else {
        ExecuteResult::Nop
    }
}

/// Where a jump goes: the register's value, or the address of the jump
/// instruction plus the offset.
pub open spec fn jump_target(j: Jump, m: RegMap) -> Word {
    match j {
        Jump::Register(r) => reg_value(m, r),
        Jump::Relative(off) => wrap32(reg_value(m, PC) + off),
    }
}

/// What a control operation produces from the register values.
pub open spec fn control_result(op: ControlOp, m: RegMap) -> ExecuteResult {
    let zf = reg_value(m, ZF);
    let of = reg_value(m, OF);
    match op {
        ControlOp::Nop => ExecuteResult::Nop,
        ControlOp::Halt => ExecuteResult::Halt,
        ControlOp::Ret => ExecuteResult::Return { link: reg_value(m, LP), bp: reg_value(m, BP) },
        ControlOp::Jmp(j) => ExecuteResult::JumpTo { address: jump_target(j, m) },
        ControlOp::Jsr(j) => ExecuteResult::Subroutine {
            address: jump_target(j, m),
            link: wrap32(reg_value(m, PC) + 4),
            sp: reg_value(m, SP),
            bp: reg_value(m, BP),
            lp: reg_value(m, LP),
        },
        ControlOp::Jeq(j) => jump_if(zf == 1, jump_target(j, m)),
        ControlOp::Jne(j) => jump_if(zf == 0, jump_target(j, m)),
        ControlOp::Jgt(j) => jump_if(zf == 0 && of == 1, jump_target(j, m)),
        ControlOp::Jlt(j) => jump_if(zf == 0 && of == 0, jump_target(j, m)),
        ControlOp::Jge(j) => jump_if(zf == 1 || of == 1, jump_target(j, m)),
        ControlOp::Jle(j) => jump_if(zf == 1 || of == 0, jump_target(j, m)),
    }
}

/// An offset counted in units of `width` bytes, as a byte offset.
pub open spec fn scaled(x: Word, width: Word) -> Word {
    wrap32(x * width)
}

/// The address, destination and volatility of a read of `width` bytes; an
/// offset or index counts in units of the width.
pub open spec fn read_address(op: ReadOp, m: RegMap, width: Word) -> (Word, Register, bool) {
    match op {
        ReadOp::ZeroPage { address, destination } => (ZERO_PAGE | (address as Word), destination, false),
        ReadOp::Indirect { volatile, address, destination } => (reg_value(m, address), destination, volatile),
        ReadOp::OffsetIndirect { volatile, address, offset, destination } => (
            wrap32(reg_value(m, address) + scaled(offset as Word, width)),
            destination,
            volatile,
        ),
        ReadOp::IndexedIndirect { volatile, address, index, destination } => (
            wrap32(reg_value(m, address) + scaled(reg_value(m, index), width)),
            destination,
            volatile,
        ),
        ReadOp::StackOffset { offset, destination } => (wrap32(reg_value(m, BP) + offset), destination, false),
    }
}

/// The address, value and volatility of a write of `width` bytes; an offset
/// or index counts in units of the width.
pub open spec fn write_address(op: WriteOp, m: RegMap, width: Word) -> (Word, Word, bool) {
    match op {
        WriteOp::ZeroPage { address, source } => (ZERO_PAGE | (address as Word), reg_value(m, source), false),
        WriteOp::Indirect { volatile, address, source } => (reg_value(m, address), reg_value(m, source), volatile),
        WriteOp::OffsetIndirect { volatile, address, offset, source } => (
            wrap32(reg_value(m, address) + scaled(offset as Word, width)),
            reg_value(m, source),
            volatile,
        ),
        WriteOp::IndexedIndirect { volatile, address, index, source } => (
            wrap32(reg_value(m, address) + scaled(reg_value(m, index), width)),
            reg_value(m, source),
            volatile,
        ),
        WriteOp::StackOffset { offset, source } => (wrap32(reg_value(m, BP) + offset), reg_value(m, source), false),
    }
}

/// The value that loading an immediate gives: the immediate placed in the
/// low (shift 0) or high (shift 1) short, keeping the other short of the
/// old value unless `zero`.
pub open spec fn load_immediate(zero: bool, shift: Byte, immediate: Short, old: Word) -> Word {
    let (v, mask) = if shift == 0 {
        (immediate as Word, 0xFFFF_0000u32)
    } else if shift == 1 {
        (((immediate as Word) * 0x1_0000) as Word, 0x0000_FFFFu32)
    } else {
        (0u32, 0u32)
    };
    if zero {
        v
    } else {
        v | (old & mask)
    }
}

/// What a register operation produces from the register values.
pub open spec fn register_result(op: RegisterOp, m: RegMap) -> ExecuteResult {
    match op {
        RegisterOp::Lbr(r) => {
            let (a, d, v) = read_address(r, m, 1);
            ExecuteResult::ReadMemByte { address: a, destination: d, volatile: v }
        },
        RegisterOp::Lsr(r) => {
            let (a, d, v) = read_address(r, m, 2);
            ExecuteResult::ReadMemShort { address: a, destination: d, volatile: v }
        },
        RegisterOp::Llr(r) => {
            let (a, d, v) = read_address(r, m, 4);
            ExecuteResult::ReadMemWord { address: a, destination: d, volatile: v }
        },
        RegisterOp::Sbr(w) => {
            let (a, x, v) = write_address(w, m, 1);
            ExecuteResult::WriteMemByte { address: a, value: (x % 0x100) as Byte, volatile: v }
        },
        RegisterOp::Ssr(w) => {
            let (a, x, v) = write_address(w, m, 2);
            ExecuteResult::WriteMemShort { address: a, value: (x % 0x1_0000) as Short, volatile: v }
        },
        RegisterOp::Slr(w) => {
            let (a, x, v) = write_address(w, m, 4);
            ExecuteResult::WriteMemWord { address: a, value: x, volatile: v }
        },
        RegisterOp::Tfr(RegOp { source, destination }) => write_value(destination, reg_value(m, source), false),
        RegisterOp::Ldr(ImmOp::Immediate { zero, shift, immediate, destination }) => write_value(
            destination,
            load_immediate(zero, shift, immediate, reg_value(m, destination)),
            false,
        ),
        RegisterOp::Ldr(ImmOp::ZeroPageTranslate { address, destination }) => ExecuteResult::WriteReg {
            destination,
            value: (address as Word) | ZERO_PAGE,
            zf: false,
            of: false,
            eps: false,
            nan: false,
            inf: false,
        },
        RegisterOp::Push(r) => ExecuteResult::WriteRegStack { value: reg_value(m, r), sp: reg_value(m, SP) },
        RegisterOp::Pop(r) => ExecuteResult::ReadRegStack { register: r, sp: reg_value(m, SP) },
    }
}

/// An operation that the execute stage resolves from the register values
/// that the decode stage read.
pub trait Resolver: Sized {
    /// What executing the operation produces.
    spec fn result(self, regvals: RegMap) -> ExecuteResult;

    /// The number of clocks the operation takes.
    spec fn clocks_needed(self) -> usize;

    /// Executes the operation.
    fn execute(self, regvals: &RegMap) -> (r: ExecuteResult)
        requires
            regvals.wf(),
        ensures
            r == self.result(*regvals),
    ;

    /// The number of clocks the operation takes.
    fn clock_requirement(self) -> (n: usize)
        ensures
            n == self.clocks_needed(),
    ;
}

/// The sum modulo the size of a word.
fn add_words(l: Word, r: Word) -> (v: Word)
    ensures
        v == wrap32(l + r),
{
    l.wrapping_add(r)
}

/// The signed value of a word is negative exactly when its top bit is set.
fn is_negative(w: Word) -> (b: bool)
    ensures
        b == (signed(w) < 0),
{
    w >= 0x8000_0000
}

/// The magnitude of a word's signed value.
fn magnitude(w: Word) -> (m: Word)
    ensures
        m == abs(signed(w)),
{
    if w >= 0x8000_0000 {
        0u32.wrapping_sub(w)
    } else {
        w
    }
}

/// The result of an addition, a subtraction or a multiplication.
fn arithmetic(op: IntegerOp, l: Word, r: Word, d: Register) -> (x: ExecuteResult)
    requires
        op is Add || op is Sub || op is Mul,
    ensures
        x == binary_result(op, l, r, d),
{
    match op {
        IntegerOp::Add(_) => {
            let v = l.wrapping_add(r);
            ExecuteResult::WriteReg { destination: d, value: v, zf: v == 0, of: v < l, eps: false, nan: false, inf: false }
        },
        IntegerOp::Sub(_) => {
            let v = l.wrapping_sub(r);
            ExecuteResult::WriteReg { destination: d, value: v, zf: v == 0, of: l < r, eps: false, nan: false, inf: false }
        },
        IntegerOp::Mul(_) => {
            proof {
                assert(l as int * r as int <= 0xFFFF_FFFF * 0xFFFF_FFFF) by (nonlinear_arith)
                    requires
                        l <= 0xFFFF_FFFF,
                        r <= 0xFFFF_FFFF,
                ;
            }
            let p: u64 = (l as u64) * (r as u64);
            let v = (p % 0x1_0000_0000) as Word;
            ExecuteResult::WriteReg {
                destination: d,
                value: v,
                zf: v == 0,
                of: p > 0xFFFF_FFFF,
                eps: false,
                nan: false,
                inf: false,
            }
        },
        _ => ExecuteResult::Nop,
    }
}

/// The result of a division or a remainder.
fn division(op: IntegerOp, l: Word, r: Word, d: Register) -> (x: ExecuteResult)
    requires
        op is Dvu || op is Dvs || op is Mod,
    ensures
        x == binary_result(op, l, r, d),
{
    match op {
        IntegerOp::Dvu(_) => if r == 0 {
            ExecuteResult::Halt
        } else {
            let v = l / r;
            ExecuteResult::WriteReg { destination: d, value: v, zf: v == 0, of: false, eps: false, nan: false, inf: false }
        },
        IntegerOp::Dvs(_) => if r == 0 {
            ExecuteResult::Halt
        } else {
            let q = magnitude(l) / magnitude(r);
            let negative = is_negative(l) != is_negative(r);
            let v = if negative {
                0u32.wrapping_sub(q)
            } else {
                q
            };
            ExecuteResult::WriteReg {
                destination: d,
                value: v,
                zf: v == 0,
                of: !negative && q > 0x7FFF_FFFF,
                eps: false,
                nan: false,
                inf: false,
            }
        },
        IntegerOp::Mod(_) => if r == 0 {
            ExecuteResult::Halt
        } else {
            let v = l % r;
            ExecuteResult::WriteReg { destination: d, value: v, zf: v == 0, of: false, eps: false, nan: false, inf: false }
        },
        _ => ExecuteResult::Nop,
    }
}

/// The result of a bitwise operation, a shift or a rotation.
fn bitwise(op: IntegerOp, l: Word, r: Word, d: Register) -> (x: ExecuteResult)
    requires
        op is And || op is Ior || op is Xor || op is Bsl || op is Bsr || op is Asr || op is Rol || op is Ror,
    ensures
        x == binary_result(op, l, r, d),
{
    match op {
        IntegerOp::And(_) => {
            let v = l & r;
            ExecuteResult::WriteReg { destination: d, value: v, zf: v == 0, of: false, eps: false, nan: false, inf: false }
        },
        IntegerOp::Ior(_) => {
            let v = l | r;
            ExecuteResult::WriteReg { destination: d, value: v, zf: v == 0, of: false, eps: false, nan: false, inf: false }
        },
        IntegerOp::Xor(_) => {
            let v = l ^ r;
            ExecuteResult::WriteReg { destination: d, value: v, zf: v == 0, of: false, eps: false, nan: false, inf: false }
        },
        IntegerOp::Bsl(_) => {
            let v = l << (r % 32);
            ExecuteResult::WriteReg { destination: d, value: v, zf: v == 0, of: r >= 32, eps: false, nan: false, inf: false }
        },
        IntegerOp::Bsr(_) => {
            let v = l >> (r % 32);
            ExecuteResult::WriteReg { destination: d, value: v, zf: v == 0, of: r >= 32, eps: false, nan: false, inf: false }
        },
        IntegerOp::Asr(_) => {
            let v = ((l as SWord) >> (r % 32)) as Word;
            ExecuteResult::WriteReg { destination: d, value: v, zf: v == 0, of: r >= 32, eps: false, nan: false, inf: false }
        },
        IntegerOp::Rol(_) => {
            let s = r % 32;
            let v = if s == 0 {
                l
            } else {
                (l << s) | (l >> (32 - s))
            };
            ExecuteResult::WriteReg { destination: d, value: v, zf: false, of: false, eps: false, nan: false, inf: false }
        },
        IntegerOp::Ror(_) => {
            let s = r % 32;
            let v = if s == 0 {
                l
            } else {
                (l >> s) | (l << (32 - s))
            };
            ExecuteResult::WriteReg { destination: d, value: v, zf: false, of: false, eps: false, nan: false, inf: false }
        },
        _ => ExecuteResult::Nop,
    }
}

/// The result of a binary operation on its operand values.
fn binary(op: IntegerOp, l: Word, r: Word, d: Register) -> (x: ExecuteResult)
    ensures
        x == binary_result(op, l, r, d),
{
    match op {
        IntegerOp::Add(_) | IntegerOp::Sub(_) | IntegerOp::Mul(_) => arithmetic(op, l, r, d),
        IntegerOp::Dvu(_) | IntegerOp::Dvs(_) | IntegerOp::Mod(_) => division(op, l, r, d),
        IntegerOp::And(_) | IntegerOp::Ior(_) | IntegerOp::Xor(_) | IntegerOp::Bsl(_) | IntegerOp::Bsr(_)
        | IntegerOp::Asr(_) | IntegerOp::Rol(_) | IntegerOp::Ror(_) => bitwise(op, l, r, d),
        _ => ExecuteResult::Nop,
    }
}

/// The result of a comparison of two values.
fn compare(l: Word, r: Word, is_signed: bool) -> (x: ExecuteResult)
    ensures
        x == compare_result(l, r, is_signed),
{
    let of = if is_signed {
        let ln = is_negative(l);
        let rn = is_negative(r);
        if ln == rn {
            r > l
        } else {
            ln
        }
    } else {
        l < r
    };
    ExecuteResult::WriteStatus { zf: l == r, of, eps: false, nan: false, inf: false }
}

/// The result of sign-extending a value.
fn sign_extend(width: Word, v: Word, d: Register) -> (x: ExecuteResult)
    ensures
        x == sign_extend_result(width, v, d),
{
    if width == 0 {
        if v & 0x80 != 0 {
            let w = (v & 0xFF) | 0xFFFF_FF00;
            ExecuteResult::WriteReg { destination: d, value: w, zf: w == 0, of: true, eps: false, nan: false, inf: false }
        } else {
            let w = v & 0xFF;
            ExecuteResult::WriteReg { destination: d, value: w, zf: w == 0, of: false, eps: false, nan: false, inf: false }
        }
    } else if width == 1 {
        if v & 0x8000 != 0 {
            let w = (v & 0xFFFF) | 0xFFFF_0000;
            ExecuteResult::WriteReg { destination: d, value: w, zf: w == 0, of: true, eps: false, nan: false, inf: false }
        } else {
            let w = v & 0xFFFF;
            ExecuteResult::WriteReg { destination: d, value: w, zf: w == 0, of: false, eps: false, nan: false, inf: false }
        }
    } else {
        ExecuteResult::Nop
    }
}

impl Resolver for IntegerOp {
    open spec fn result(self, regvals: RegMap) -> ExecuteResult {
        integer_result(self, regvals)
    }

    open spec fn clocks_needed(self) -> usize {
        1
    }

    fn execute(self, regvals: &RegMap) -> (r: ExecuteResult) {
        match self {
            IntegerOp::Add(b) | IntegerOp::Sub(b) | IntegerOp::Mul(b) | IntegerOp::Dvu(b) | IntegerOp::Dvs(b)
            | IntegerOp::Mod(b) | IntegerOp::And(b) | IntegerOp::Ior(b) | IntegerOp::Xor(b) | IntegerOp::Bsl(b)
            | IntegerOp::Bsr(b) | IntegerOp::Asr(b) | IntegerOp::Rol(b) | IntegerOp::Ror(b) => match b {
                BinaryOp::Immediate(o, imm, d) => binary(self, value(regvals, o), imm, d),
                BinaryOp::Registers(o, p, d) => binary(self, value(regvals, o), value(regvals, p), d),
            },
            IntegerOp::Cmp(CompOp::Immediate(o, imm, s)) => compare(value(regvals, o), imm, s),
            IntegerOp::Cmp(CompOp::Registers(o, p, s)) => compare(value(regvals, o), value(regvals, p), s),
            IntegerOp::Tst(TestOp::Immediate(o, imm)) => {
                let l = value(regvals, o);
                ExecuteResult::WriteStatus { zf: l & imm == l, of: false, eps: false, nan: false, inf: false }
            },
            IntegerOp::Tst(TestOp::Registers(o, p)) => {
                let l = value(regvals, o);
                let r = value(regvals, p);
                ExecuteResult::WriteStatus { zf: l & r == l, of: false, eps: false, nan: false, inf: false }
            },
            IntegerOp::Not(UnaryOp(o, d)) => {
                let v = !value(regvals, o);
                ExecuteResult::WriteReg { destination: d, value: v, zf: v == 0, of: false, eps: false, nan: false, inf: false }
            },
            IntegerOp::Sxt(SignExtendOp(w, d)) => sign_extend(w, value(regvals, d), d),
        }
    }

    fn clock_requirement(self) -> (n: usize) {
        1
    }
}

/// Where a jump goes.
fn target(j: Jump, regvals: &RegMap) -> (t: Word)
    requires
        regvals.wf(),
    ensures
        t == jump_target(j, *regvals),
{
    match j {
        Jump::Register(r) => value(regvals, r),
        Jump::Relative(off) => value(regvals, PC).wrapping_add_signed(off),
    }
}

/// A jump when the condition holds.
fn jump_when(cond: bool, t: Word) -> (x: ExecuteResult)
    ensures
        x == jump_if(cond, t),
{
    if cond {
        ExecuteResult::JumpTo { address: t }
    } else {
        ExecuteResult::Nop
    }
}

impl Resolver for ControlOp {
    open spec fn result(self, regvals: RegMap) -> ExecuteResult {
        control_result(self, regvals)
    }

    open spec fn clocks_needed(self) -> usize {
        match self {
            ControlOp::Jmp(Jump::Relative(_)) | ControlOp::Jsr(Jump::Relative(_)) | ControlOp::Jeq(Jump::Relative(_))
            | ControlOp::Jne(Jump::Relative(_)) | ControlOp::Jgt(Jump::Relative(_)) | ControlOp::Jlt(Jump::Relative(_))
            | ControlOp::Jge(Jump::Relative(_)) | ControlOp::Jle(Jump::Relative(_)) => 2,
            _ => 1,
        }
    }

    fn execute(self, regvals: &RegMap) -> (r: ExecuteResult) {
        let zf = value(regvals, ZF);
        let of = value(regvals, OF);
        match self {
            ControlOp::Nop => ExecuteResult::Nop,
            ControlOp::Halt => ExecuteResult::Halt,
            ControlOp::Ret => ExecuteResult::Return { link: value(regvals, LP), bp: value(regvals, BP) },
            ControlOp::Jmp(j) => ExecuteResult::JumpTo { address: target(j, regvals) },
            ControlOp::Jsr(j) => ExecuteResult::Subroutine {
                address: target(j, regvals),
                link: add_words(value(regvals, PC), 4),
                sp: value(regvals, SP),
                bp: value(regvals, BP),
                lp: value(regvals, LP),
            },
            ControlOp::Jeq(j) => jump_when(zf == 1, target(j, regvals)),
            ControlOp::Jne(j) => jump_when(zf == 0, target(j, regvals)),
            ControlOp::Jgt(j) => jump_when(zf == 0 && of == 1, target(j, regvals)),
            ControlOp::Jlt(j) => jump_when(zf == 0 && of == 0, target(j, regvals)),
            ControlOp::Jge(j) => jump_when(zf == 1 || of == 1, target(j, regvals)),
            ControlOp::Jle(j) => jump_when(zf == 1 || of == 0, target(j, regvals)),
        }
    }

    fn clock_requirement(self) -> (n: usize) {
        match self {
            ControlOp::Jmp(Jump::Relative(_)) | ControlOp::Jsr(Jump::Relative(_)) | ControlOp::Jeq(Jump::Relative(_))
            | ControlOp::Jne(Jump::Relative(_)) | ControlOp::Jgt(Jump::Relative(_)) | ControlOp::Jlt(Jump::Relative(_))
            | ControlOp::Jge(Jump::Relative(_)) | ControlOp::Jle(Jump::Relative(_)) => 2,
            _ => 1,
        }
    }
}

/// A count of `width`-byte units as a byte offset.
fn scale(x: Word, width: Word) -> (r: Word)
    ensures
        r == scaled(x, width),
{
    x.wrapping_mul(width)
}

/// The address, destination and volatility of a read of `width` bytes.
pub fn compute_read_address(op: ReadOp, regvals: &RegMap, width: Word) -> (r: (Word, Register, bool))
    requires
        regvals.wf(),
    ensures
        r == read_address(op, *regvals, width),
{
    match op {
        ReadOp::ZeroPage { address, destination } => (ZERO_PAGE | (address as Word), destination, false),
        ReadOp::Indirect { volatile, address, destination } => (value(regvals, address), destination, volatile),
        ReadOp::OffsetIndirect { volatile, address, offset, destination } => (
            add_words(value(regvals, address), scale(offset as Word, width)),
            destination,
            volatile,
        ),
        ReadOp::IndexedIndirect { volatile, address, index, destination } => (
            add_words(value(regvals, address), scale(value(regvals, index), width)),
            destination,
            volatile,
        ),
        ReadOp::StackOffset { offset, destination } => (add_words(value(regvals, BP), offset as Word), destination, false),
    }
}

/// The address, value and volatility of a write of `width` bytes.
pub fn compute_write_address(op: WriteOp, regvals: &RegMap, width: Word) -> (r: (Word, Word, bool))
    requires
        regvals.wf(),
    ensures
        r == write_address(op, *regvals, width),
{
    match op {
        WriteOp::ZeroPage { address, source } => (ZERO_PAGE | (address as Word), value(regvals, source), false),
        WriteOp::Indirect { volatile, address, source } => (value(regvals, address), value(regvals, source), volatile),
        WriteOp::OffsetIndirect { volatile, address, offset, source } => (
            add_words(value(regvals, address), scale(offset as Word, width)),
            value(regvals, source),
            volatile,
        ),
        WriteOp::IndexedIndirect { volatile, address, index, source } => (
            add_words(value(regvals, address), scale(value(regvals, index), width)),
            value(regvals, source),
            volatile,
        ),
        WriteOp::StackOffset { offset, source } => (
            add_words(value(regvals, BP), offset as Word),
            value(regvals, source),
            false,
        ),
    }
}

impl Resolver for RegisterOp {
    open spec fn result(self, regvals: RegMap) -> ExecuteResult {
        register_result(self, regvals)
    }

    open spec fn clocks_needed(self) -> usize {
        match self {
            RegisterOp::Lbr(r) | RegisterOp::Lsr(r) | RegisterOp::Llr(r) => match r {
                ReadOp::Indirect { .. } | ReadOp::ZeroPage { .. } | ReadOp::StackOffset { .. } => 1,
                _ => 2,
            },
            RegisterOp::Sbr(w) | RegisterOp::Ssr(w) | RegisterOp::Slr(w) => match w {
                WriteOp::ZeroPage { .. } | WriteOp::Indirect { .. } | WriteOp::StackOffset { .. } => 1,
                _ => 2,
            },
            _ => 1,
        }
    }

    fn execute(self, regvals: &RegMap) -> (r: ExecuteResult) {
        match self {
            RegisterOp::Lbr(op) => {
                let (address, destination, volatile) = compute_read_address(op, regvals, 1);
                ExecuteResult::ReadMemByte { address, destination, volatile }
            },
            RegisterOp::Lsr(op) => {
                let (address, destination, volatile) = compute_read_address(op, regvals, 2);
                ExecuteResult::ReadMemShort { address, destination, volatile }
            },
            RegisterOp::Llr(op) => {
                let (address, destination, volatile) = compute_read_address(op, regvals, 4);
                ExecuteResult::ReadMemWord { address, destination, volatile }
            },
            RegisterOp::Sbr(op) => {
                let (address, v, volatile) = compute_write_address(op, regvals, 1);
                ExecuteResult::WriteMemByte { address, value: (v % 0x100) as Byte, volatile }
            },
            RegisterOp::Ssr(op) => {
                let (address, v, volatile) = compute_write_address(op, regvals, 2);
                ExecuteResult::WriteMemShort { address, value: (v % 0x1_0000) as Short, volatile }
            },
            RegisterOp::Slr(op) => {
                let (address, v, volatile) = compute_write_address(op, regvals, 4);
                ExecuteResult::WriteMemWord { address, value: v, volatile }
            },
            RegisterOp::Tfr(RegOp { source, destination }) => {
                let v = value(regvals, source);
                ExecuteResult::WriteReg { destination, value: v, zf: v == 0, of: false, eps: false, nan: false, inf: false }
            },
            RegisterOp::Ldr(ImmOp::Immediate { zero, shift, immediate, destination }) => {
                let (v, mask) = if shift == 0 {
                    (immediate as Word, 0xFFFF_0000u32)
                } else if shift == 1 {
                    ((immediate as Word) * 0x1_0000, 0x0000_FFFFu32)
                } else {
                    (0u32, 0u32)
                };
                let v = if zero {
                    v
                } else {
                    v | (value(regvals, destination) & mask)
                };
                ExecuteResult::WriteReg { destination, value: v, zf: v == 0, of: false, eps: false, nan: false, inf: false }
            },
            RegisterOp::Ldr(ImmOp::ZeroPageTranslate { address, destination }) => ExecuteResult::WriteReg {
                destination,
                value: (address as Word) | ZERO_PAGE,
                zf: false,
                of: false,
                eps: false,
                nan: false,
                inf: false,
            },
            RegisterOp::Push(r) => ExecuteResult::WriteRegStack { value: value(regvals, r), sp: value(regvals, SP) },
            RegisterOp::Pop(r) => ExecuteResult::ReadRegStack { register: r, sp: value(regvals, SP) },
        }
    }

    fn clock_requirement(self) -> (n: usize) {
        match self {
            RegisterOp::Lbr(r) | RegisterOp::Lsr(r) | RegisterOp::Llr(r) => match r {
                ReadOp::Indirect { .. } | ReadOp::ZeroPage { .. } | ReadOp::StackOffset { .. } => 1,
                _ => 2,
            },
            RegisterOp::Sbr(w) | RegisterOp::Ssr(w) | RegisterOp::Slr(w) => match w {
                WriteOp::ZeroPage { .. } | WriteOp::Indirect { .. } | WriteOp::StackOffset { .. } => 1,
                _ => 2,
            },
            _ => 1,
        }
    }
}

/// A unit that carries out floating-point operations, which this crate
/// leaves to the program around it.
pub trait FloatUnit {
    /// Executes a floating-point operation on the register values.
    fn execute_float(&self, op: FloatingPointOp, regvals: &RegMap) -> ExecuteResult;

    /// The number of clocks a floating-point operation takes.
    fn float_clocks(&self, op: FloatingPointOp) -> usize;
}

/// What executing an instruction produces; floating-point operations go to
/// the floating-point unit.
pub open spec fn instruction_result(i: Instruction, regvals: RegMap) -> Option<ExecuteResult> {
    match i {
        Instruction::Control(c) => Some(c.result(regvals)),
        Instruction::Integer(o) => Some(o.result(regvals)),
        Instruction::Register(r) => Some(r.result(regvals)),
        Instruction::FloatingPoint(_) => None,
    }
}

/// Executes an instruction.
pub fn execute_instruction<F: FloatUnit>(i: Instruction, regvals: &RegMap, fpu: &F) -> (r: ExecuteResult)
    requires
        regvals.wf(),
    ensures
        instruction_result(i, *regvals) matches Some(x) ==> r == x,
{
    match i {
        Instruction::Control(c) => c.execute(regvals),
        Instruction::Integer(o) => o.execute(regvals),
        Instruction::Register(r) => r.execute(regvals),
        Instruction::FloatingPoint(f) => fpu.execute_float(f, regvals),
    }
}

/// The number of clocks an instruction takes to execute; floating-point
/// operations take what the floating-point unit says.
pub open spec fn instruction_clocks(i: Instruction) -> Option<usize> {
    match i {
        Instruction::Control(c) => Some(c.clocks_needed()),
        Instruction::Integer(o) => Some(o.clocks_needed()),
        Instruction::Register(r) => Some(r.clocks_needed()),
        Instruction::FloatingPoint(_) => None,
    }
}

/// The number of clocks an instruction takes to execute.
pub fn clock_requirement<F: FloatUnit>(i: Instruction, fpu: &F) -> (n: usize)
    ensures
        instruction_clocks(i) matches Some(k) ==> n == k,
{
    match i {
        Instruction::Control(c) => c.clock_requirement(),
        Instruction::Integer(o) => o.clock_requirement(),
        Instruction::Register(r) => r.clock_requirement(),
        Instruction::FloatingPoint(f) => fpu.float_clocks(f),
    }
}

/// The left and right operand values of a two-operand integer operation: the
/// first register's value, and the second register's value or the immediate.
pub open spec fn operand_pair(b: BinaryOp, m: RegMap) -> (Word, Word) {
    match b {
        BinaryOp::Immediate(s, imm, _) => (reg_value(m, s), imm),
        BinaryOp::Registers(s, o, _) => (reg_value(m, s), reg_value(m, o)),
    }
}

/// A register write of `value` to `d` whose zero flag tells that the value is
/// zero, with the overflow flag `of` and no floating-point flags.
pub open spec fn is_write_of(x: ExecuteResult, d: Register, value: Word, of: bool) -> bool {
    x == ExecuteResult::WriteReg { destination: d, value, zf: value == 0, of, eps: false, nan: false, inf: false }
}

/// The bitwise operations write the bitwise and, or and exclusive or of their
/// operands to the destination; the zero flag tells that the result is zero
/// and the overflow flag is clear.
pub proof fn law_bitwise_operations(b: BinaryOp, m: RegMap)
    ensures
        is_write_of(
            integer_result(IntegerOp::And(b), m),
            b.destination(),
            operand_pair(b, m).0 & operand_pair(b, m).1,
            false,
        ),
        is_write_of(
            integer_result(IntegerOp::Ior(b), m),
            b.destination(),
            operand_pair(b, m).0 | operand_pair(b, m).1,
            false,
        ),
        is_write_of(
            integer_result(IntegerOp::Xor(b), m),
            b.destination(),
            operand_pair(b, m).0 ^ operand_pair(b, m).1,
            false,
        ),
{
}

/// Addition, subtraction and multiplication write the result modulo 2^32 to
/// the destination; the overflow flag tells that the true result did not fit
/// (for subtraction: that the right operand was the greater).
pub proof fn law_arithmetic_operations(b: BinaryOp, m: RegMap)
    ensures
        ({
            let (l, r) = operand_pair(b, m);
            &&& integer_result(IntegerOp::Add(b), m) matches ExecuteResult::WriteReg { destination, value, zf, of, .. }
                && destination == b.destination() && value as int == (l + r) % 0x1_0000_0000
                && zf == (value == 0) && of == (l + r >= 0x1_0000_0000)
            &&& integer_result(IntegerOp::Sub(b), m) matches ExecuteResult::WriteReg { destination, value, zf, of, .. }
                && destination == b.destination() && value as int == (l - r) % 0x1_0000_0000
                && zf == (value == 0) && of == (l < r)
            &&& integer_result(IntegerOp::Mul(b), m) matches ExecuteResult::WriteReg { destination, value, zf, of, .. }
                && destination == b.destination() && value as int == (l * r) % 0x1_0000_0000
                && zf == (value == 0) && of == (l * r >= 0x1_0000_0000)
        }),
{
}

/// Complementing writes the bitwise complement of the operand.
pub proof fn law_not_operation(s: Register, d: Register, m: RegMap)
    ensures
        is_write_of(integer_result(IntegerOp::Not(UnaryOp(s, d)), m), d, !reg_value(m, s), false),
{
}

/// Where a jump goes, from the register values: the named register's value,
/// or the jump's own address plus the offset, modulo 2^32.
pub open spec fn jump_destination(j: Jump, m: RegMap) -> Word {
    match j {
        Jump::Register(r) => reg_value(m, r),
        Jump::Relative(off) => ((reg_value(m, PC) + off) % 0x1_0000_0000) as Word,
    }
}

/// The conditional jumps go to their target exactly when the status
/// registers satisfy their condition: equal on ZF = 1, not equal on ZF = 0,
/// greater on ZF = 0 and OF = 1, less on ZF = 0 and OF = 0, greater or equal
/// on ZF = 1 or OF = 1, less or equal on ZF = 1 or OF = 0; otherwise they do
/// nothing. An unconditional jump always goes.
pub proof fn law_conditional_jumps(j: Jump, m: RegMap)
    ensures
        ({
            let zf = reg_value(m, ZF);
            let of = reg_value(m, OF);
            let go = ExecuteResult::JumpTo { address: jump_destination(j, m) };
            &&& control_result(ControlOp::Jmp(j), m) == go
            &&& control_result(ControlOp::Jeq(j), m) == if zf == 1 { go } else { ExecuteResult::Nop }
            &&& control_result(ControlOp::Jne(j), m) == if zf == 0 { go } else { ExecuteResult::Nop }
            &&& control_result(ControlOp::Jgt(j), m) == if zf == 0 && of == 1 { go } else { ExecuteResult::Nop }
            &&& control_result(ControlOp::Jlt(j), m) == if zf == 0 && of == 0 { go } else { ExecuteResult::Nop }
            &&& control_result(ControlOp::Jge(j), m) == if zf == 1 || of == 1 { go } else { ExecuteResult::Nop }
            &&& control_result(ControlOp::Jle(j), m) == if zf == 1 || of == 0 { go } else { ExecuteResult::Nop }
        }),
{
}

/// A comparison writes only status flags: the zero flag tells that the two
/// operands are equal, and the overflow flag that the right operand is the
/// greater (as unsigned numbers, or as two's-complement numbers when signed).
pub proof fn law_comparison(c: CompOp, m: RegMap)
    ensures
        ({
            let (l, r, is_signed) = match c {
                CompOp::Registers(o, p, s) => (reg_value(m, o), reg_value(m, p), s),
                CompOp::Immediate(o, imm, s) => (reg_value(m, o), imm, s),
            };
            let sl = if l < 0x8000_0000 { l as int } else { l - 0x1_0000_0000 };
            let sr = if r < 0x8000_0000 { r as int } else { r - 0x1_0000_0000 };
            integer_result(IntegerOp::Cmp(c), m) == ExecuteResult::WriteStatus {
                zf: l == r,
                of: if is_signed { sr > sl } else { r > l },
                eps: false,
                nan: false,
                inf: false,
            }
        }),
{
}

/// The address a load or store of `width` bytes reaches: a zero-page
/// address in the zero page; a register's value; a register's value plus an
/// offset or an index register's value counted in units of the width; the
/// base pointer plus an offset in bytes; all modulo 2^32.
pub open spec fn access_address(base: Word, k: int, width: int) -> Word {
    ((base + k * width) % 0x1_0000_0000) as Word
}

/// The address that a read operation reaches for a read of `width` bytes.
pub open spec fn load_address(r: ReadOp, m: RegMap, width: int) -> Word {
    match r {
        ReadOp::ZeroPage { address, .. } => (0x0002_0000 + address) as Word,
        ReadOp::Indirect { address, .. } => reg_value(m, address),
        ReadOp::OffsetIndirect { address, offset, .. } => access_address(reg_value(m, address), offset as int, width),
        ReadOp::IndexedIndirect { address, index, .. } => access_address(
            reg_value(m, address),
            reg_value(m, index) as int,
            width,
        ),
        ReadOp::StackOffset { offset, .. } => access_address(reg_value(m, BP), offset as int, 1),
    }
}

/// The address that a write operation reaches for a write of `width` bytes.
pub open spec fn store_address(w: WriteOp, m: RegMap, width: int) -> Word {
    match w {
        WriteOp::ZeroPage { address, .. } => (0x0002_0000 + address) as Word,
        WriteOp::Indirect { address, .. } => reg_value(m, address),
        WriteOp::OffsetIndirect { address, offset, .. } => access_address(reg_value(m, address), offset as int, width),
        WriteOp::IndexedIndirect { address, index, .. } => access_address(
            reg_value(m, address),
            reg_value(m, index) as int,
            width,
        ),
        WriteOp::StackOffset { offset, .. } => access_address(reg_value(m, BP), offset as int, 1),
    }
}

/// The register a read operation loads into.
pub open spec fn read_destination(r: ReadOp) -> Register {
    match r {
        ReadOp::ZeroPage { destination, .. } | ReadOp::Indirect { destination, .. }
        | ReadOp::OffsetIndirect { destination, .. } | ReadOp::IndexedIndirect { destination, .. }
        | ReadOp::StackOffset { destination, .. } => destination,
    }
}

/// The register a write operation stores.
pub open spec fn write_source(w: WriteOp) -> Register {
    match w {
        WriteOp::ZeroPage { source, .. } | WriteOp::Indirect { source, .. } | WriteOp::OffsetIndirect { source, .. }
        | WriteOp::IndexedIndirect { source, .. } | WriteOp::StackOffset { source, .. } => source,
    }
}

/// Bit facts behind addresses and register values: a zero-page address is
/// the zero page's base plus the short address; a byte or short extended with
/// ones or zeros keeps its low part and has the fill above it; a short put in
/// the low or high half of a word keeps the other half as masked.
proof fn lemma_word_bits(a: u16, v: u32, imm: u16, old: u32)
    by (bit_vector)
    ensures
        (0x0002_0000u32 | (a as u32)) == 0x0002_0000u32 + (a as u32),
        ((v & 0xFF) | 0xFFFF_FF00) & 0xFF == v & 0xFF,
        ((v & 0xFF) | 0xFFFF_FF00) >> 8 == 0x00FF_FFFF,
        (v & 0xFF) >> 8 == 0,
        (v & 0xFF) & 0xFF == v & 0xFF,
        (v & 0xFFFF) & 0xFFFF == v & 0xFFFF,
        ((v & 0xFFFF) | 0xFFFF_0000) & 0xFFFF == v & 0xFFFF,
        ((v & 0xFFFF) | 0xFFFF_0000) >> 16 == 0xFFFF,
        (v & 0xFFFF) >> 16 == 0,
        ((imm as u32) | (old & 0xFFFF_0000)) & 0xFFFF == imm as u32,
        ((imm as u32) | (old & 0xFFFF_0000)) >> 16 == old >> 16,
        (imm as u32) >> 16 == 0,
        (imm as u32) & 0xFFFF == imm as u32,
        ((((imm as u32) * 0x1_0000) as u32) | (old & 0x0000_FFFF)) >> 16 == imm as u32,
        ((((imm as u32) * 0x1_0000) as u32) | (old & 0x0000_FFFF)) & 0xFFFF == old & 0xFFFF,
        (((imm as u32) * 0x1_0000) as u32) & 0xFFFF == 0,
        (((imm as u32) * 0x1_0000) as u32) >> 16 == imm as u32,
{
}

/// Adding a product taken modulo 2^32 to a word, modulo 2^32, is adding the
/// product.
proof fn lemma_wrapped_offset(base: Word, k: int, width: int)
    requires
        k >= 0,
        width >= 1,
    ensures
        wrap32(base + wrap32(k * width)) == access_address(base, k, width),
{
    vstd::arithmetic::div_mod::lemma_add_mod_noop_right(base as int, k * width, 0x1_0000_0000);
    assert(k * width >= 0) by (nonlinear_arith)
        requires
            k >= 0,
            width >= 1,
    ;
}

/// The address a read operation gives for a read of `width` bytes is its
/// load address.
proof fn lemma_read_address(r: ReadOp, m: RegMap, width: Word)
    requires
        width >= 1,
    ensures
        read_address(r, m, width).0 == load_address(r, m, width as int),
{
    match r {
        ReadOp::ZeroPage { address, .. } => lemma_word_bits(address, 0, 0, 0),
        ReadOp::OffsetIndirect { address, offset, .. } => lemma_wrapped_offset(
            reg_value(m, address),
            offset as int,
            width as int,
        ),
        ReadOp::IndexedIndirect { address, index, .. } => lemma_wrapped_offset(
            reg_value(m, address),
            reg_value(m, index) as int,
            width as int,
        ),
        ReadOp::StackOffset { offset, .. } => {
            assert(offset as int * 1 == offset as int);
        },
        _ => {},
    }
}

/// The address a write operation gives for a write of `width` bytes is its
/// store address.
proof fn lemma_write_address(w: WriteOp, m: RegMap, width: Word)
    requires
        width >= 1,
    ensures
        write_address(w, m, width).0 == store_address(w, m, width as int),
{
    match w {
        WriteOp::ZeroPage { address, .. } => lemma_word_bits(address, 0, 0, 0),
        WriteOp::OffsetIndirect { address, offset, .. } => lemma_wrapped_offset(
            reg_value(m, address),
            offset as int,
            width as int,
        ),
        WriteOp::IndexedIndirect { address, index, .. } => lemma_wrapped_offset(
            reg_value(m, address),
            reg_value(m, index) as int,
            width as int,
        ),
        WriteOp::StackOffset { offset, .. } => {
            assert(offset as int * 1 == offset as int);
        },
        _ => {},
    }
}

/// Byte, short and word loads read one, two and four bytes at their load
/// address into their destination; stores write the low byte, the low short
/// or the whole word of their source register at their store address.
pub proof fn law_loads_and_stores(r: ReadOp, w: WriteOp, m: RegMap)
    ensures
        register_result(RegisterOp::Lbr(r), m) matches ExecuteResult::ReadMemByte { address, destination, .. }
            && address == load_address(r, m, 1) && destination == read_destination(r),
        register_result(RegisterOp::Lsr(r), m) matches ExecuteResult::ReadMemShort { address, destination, .. }
            && address == load_address(r, m, 2) && destination == read_destination(r),
        register_result(RegisterOp::Llr(r), m) matches ExecuteResult::ReadMemWord { address, destination, .. }
            && address == load_address(r, m, 4) && destination == read_destination(r),
        register_result(RegisterOp::Sbr(w), m) matches ExecuteResult::WriteMemByte { address, value, .. }
            && address == store_address(w, m, 1) && value as int == reg_value(m, write_source(w)) % 0x100,
        register_result(RegisterOp::Ssr(w), m) matches ExecuteResult::WriteMemShort { address, value, .. }
            && address == store_address(w, m, 2) && value as int == reg_value(m, write_source(w)) % 0x1_0000,
        register_result(RegisterOp::Slr(w), m) matches ExecuteResult::WriteMemWord { address, value, .. }
            && address == store_address(w, m, 4) && value == reg_value(m, write_source(w)),
{
    lemma_read_address(r, m, 1);
    lemma_read_address(r, m, 2);
    lemma_read_address(r, m, 4);
    lemma_write_address(w, m, 1);
    lemma_write_address(w, m, 2);
    lemma_write_address(w, m, 4);
}

/// Unsigned division and remainder stop the processor on a zero divisor and
/// otherwise write the quotient or remainder; shifts move the left operand by
/// the right operand modulo 32, the overflow flag telling that the amount was
/// 32 or more; a test writes only the zero flag, telling that the right
/// operand has every bit of the left operand set.
pub proof fn law_division_shift_and_test(b: BinaryOp, t: TestOp, m: RegMap)
    ensures
        ({
            let (l, r) = operand_pair(b, m);
            let d = b.destination();
            &&& r == 0 ==> integer_result(IntegerOp::Dvu(b), m) == ExecuteResult::Halt
                && integer_result(IntegerOp::Mod(b), m) == ExecuteResult::Halt
                && integer_result(IntegerOp::Dvs(b), m) == ExecuteResult::Halt
            &&& r != 0 ==> is_write_of(integer_result(IntegerOp::Dvu(b), m), d, l / r, false)
                && is_write_of(integer_result(IntegerOp::Mod(b), m), d, l % r, false)
            &&& is_write_of(integer_result(IntegerOp::Bsl(b), m), d, l << (r % 32), r >= 32)
            &&& is_write_of(integer_result(IntegerOp::Bsr(b), m), d, l >> (r % 32), r >= 32)
        }),
        ({
            let (l, r) = match t {
                TestOp::Registers(o, p) => (reg_value(m, o), reg_value(m, p)),
                TestOp::Immediate(o, imm) => (reg_value(m, o), imm),
            };
            integer_result(IntegerOp::Tst(t), m) == ExecuteResult::WriteStatus {
                zf: l & r == l,
                of: false,
                eps: false,
                nan: false,
                inf: false,
            }
        }),
{
}

/// What extending a byte or a short of `v` gives, bit by bit.
proof fn lemma_sign_extend_bits(v: Word, d: Register)
    ensures
        sign_extend_result(0, v, d) matches ExecuteResult::WriteReg { destination, value, of, .. }
            && destination == d && value & 0xFF == v & 0xFF && of == (v & 0x80 != 0)
            && value >> 8 == (if v & 0x80 != 0 { 0x00FF_FFFFu32 } else { 0u32 }),
        sign_extend_result(1, v, d) matches ExecuteResult::WriteReg { destination, value, of, .. }
            && destination == d && value & 0xFFFF == v & 0xFFFF && of == (v & 0x8000 != 0)
            && value >> 16 == (if v & 0x8000 != 0 { 0xFFFFu32 } else { 0u32 }),
{
    lemma_word_bits(0, v, 0, 0);
}

/// Sign extension keeps the low byte (width 0) or short (width 1) of the
/// register and fills every bit above it with that part's sign bit; the
/// overflow flag tells that the sign bit was set.
pub proof fn law_sign_extension(d: Register, m: RegMap)
    ensures
        integer_result(IntegerOp::Sxt(SignExtendOp(0, d)), m) matches ExecuteResult::WriteReg { destination, value, of, .. }
            && destination == d && value & 0xFF == reg_value(m, d) & 0xFF && of == (reg_value(m, d) & 0x80 != 0)
            && value >> 8 == (if reg_value(m, d) & 0x80 != 0 { 0x00FF_FFFFu32 } else { 0u32 }),
        integer_result(IntegerOp::Sxt(SignExtendOp(1, d)), m) matches ExecuteResult::WriteReg { destination, value, of, .. }
            && destination == d && value & 0xFFFF == reg_value(m, d) & 0xFFFF && of == (reg_value(m, d) & 0x8000 != 0)
            && value >> 16 == (if reg_value(m, d) & 0x8000 != 0 { 0xFFFFu32 } else { 0u32 }),
{
    lemma_sign_extend_bits(reg_value(m, d), d);
}

/// Loading an immediate puts it in the low half (shift 0) or the high half
/// (shift 1) of the destination; the other half is kept, or cleared when the
/// load zeroes the register.
pub proof fn law_load_immediate(zero: bool, immediate: Short, d: Register, m: RegMap)
    ensures
        ({
            let old = reg_value(m, d);
            &&& register_result(RegisterOp::Ldr(ImmOp::Immediate { zero, shift: 0, immediate, destination: d }), m) matches ExecuteResult::WriteReg { destination, value, .. }
                && destination == d && value & 0xFFFF == immediate as Word
                && value >> 16 == (if zero { 0 } else { old >> 16 })
            &&& register_result(RegisterOp::Ldr(ImmOp::Immediate { zero, shift: 1, immediate, destination: d }), m) matches ExecuteResult::WriteReg { destination, value, .. }
                && destination == d && value >> 16 == immediate as Word
                && value & 0xFFFF == (if zero { 0 } else { old & 0xFFFF })
        }),
{
    let old = reg_value(m, d);
    lemma_word_bits(0, 0, immediate, old);
    assert(register_result(RegisterOp::Ldr(ImmOp::Immediate { zero, shift: 0, immediate, destination: d }), m)
        == write_value(d, load_immediate(zero, 0, immediate, old), false));
    assert(register_result(RegisterOp::Ldr(ImmOp::Immediate { zero, shift: 1, immediate, destination: d }), m)
        == write_value(d, load_immediate(zero, 1, immediate, old), false));
}

/// A subroutine call jumps to its target with the address after the call as
/// the link, and hands on the stack, base and link pointers to be saved; a
/// return goes to the link pointer with the base pointer to restore from.
pub proof fn law_call_and_return(j: Jump, m: RegMap)
    ensures
        control_result(ControlOp::Jsr(j), m) == (ExecuteResult::Subroutine {
            address: jump_destination(j, m),
            link: ((reg_value(m, PC) + 4) % 0x1_0000_0000) as Word,
            sp: reg_value(m, SP),
            bp: reg_value(m, BP),
            lp: reg_value(m, LP),
        }),
        control_result(ControlOp::Ret, m) == (ExecuteResult::Return { link: reg_value(m, LP), bp: reg_value(m, BP) }),
{
}

} // verus!
