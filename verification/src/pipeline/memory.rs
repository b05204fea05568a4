//! The memory stage: carries out the memory accesses of an instruction,
//! including the stack accesses of subroutine calls and returns.
use crate::module::{self, MemoryModule};
use crate::pages::STACK_PAGE;
use crate::pipeline::registers::{Locks, Registers};
use crate::pipeline::resolver::ExecuteResult;
use crate::pipeline::{Clock, Status};
use crate::registers::{RegisterFlags, BP, EPS, INF, LP, NAN, OF, PC, SP, ZF};
use crate::types::{Byte, Register, Short, Word};
use vstd::prelude::*;

verus! {

/// The kind of read being done.
#[derive(Debug, Clone, Copy, PartialEq, Eq, Structural)]
pub enum ReadMode {
    /// Reading a byte.
    ReadByte { address: Word, volatile: bool },
    /// Reading a short.
    ReadShort { address: Word, volatile: bool },
    /// Reading a word.
    ReadWord { address: Word, volatile: bool },
}

/// The kind of write being done.
#[derive(Debug, Clone, Copy, PartialEq, Eq, Structural)]
pub enum WriteMode {
    /// Writing a byte.
    WriteByte { address: Word, value: Byte, volatile: bool },
    /// Writing a short.
    WriteShort { address: Word, value: Short, volatile: bool },
    /// Writing a word.
    WriteWord { address: Word, value: Word, volatile: bool },
}

/// The step of a subroutine call.
#[derive(Debug, Clone, Copy, PartialEq, Eq, Structural)]
pub enum JsrPrepState {
    /// Writing the link pointer to the stack.
    WritingLp,
    /// Writing the base pointer to the stack.
    WritingBp,
}

/// The step of a return.
#[derive(Debug, Clone, Copy, PartialEq, Eq, Structural)]
pub enum RetPrepState {
    /// Reading the base pointer from the stack.
    ReadingBp,
    /// Reading the link pointer from the stack, with the base pointer read.
    ReadingLp(Word),
}

/// What the memory stage hands to the writeback stage.
#[derive(Debug, Clone, Copy, PartialEq, Eq, Structural)]
pub enum MemoryResult {
    /// Nothing.
    Nop,
    /// A squashed instruction, with the locks it held.
    Squashed { wregs: RegisterFlags },
    /// Writes a register, leaving the status flags.
    WriteRegNoStatus { destination: Register, value: Word },
    /// Writes a register and the status flags.
    WriteReg1 { destination: Register, value: Word, zf: bool, of: bool, eps: bool, nan: bool, inf: bool },
    /// Writes a register, the stack pointer and the status flags.
    WriteReg2 { destination: Register, value: Word, sp: Word, zf: bool, of: bool, eps: bool, nan: bool, inf: bool },
    /// Enters a subroutine.
    JumpSubroutine { address: Word, link: Word, sp: Word, bp: Word },
    /// Jumps.
    Jump { address: Word },
    /// Returns from a subroutine.
    Return { address: Word, bp: Word, sp: Word, lp: Word },
    /// Stops execution.
    Halt,
    /// An ignored jump, with the locks it held.
    Ignore { wregs: RegisterFlags },
    /// Writes the status flags.
    WriteStatus { zf: bool, of: bool, eps: bool, nan: bool, inf: bool },
}

/// The state of the memory stage.
#[derive(Debug, Clone, Copy, PartialEq, Eq, Structural)]
pub enum State {
    /// Awaiting the next instruction.
    Idle,
    /// Reading memory into a register.
    Reading { mode: ReadMode, destination: Register, clocks: usize },
    /// Writing memory.
    Writing { mode: WriteMode, clocks: usize },
    /// Pushing a value on the stack.
    Pushing { value: Word, sp: Word, clocks: usize },
    /// Popping a value from the stack into a register.
    Popping { destination: Register, sp: Word, clocks: usize },
    /// Popping a value from the stack and dropping it.
    DummyPop { sp: Word, clocks: usize },
    /// Saving the link and base pointers for a subroutine call.
    JsrPrep { address: Word, link: Word, sp: Word, bp: Word, lp: Word, state: JsrPrepState, clocks: usize },
    /// Restoring the base and link pointers for a return.
    RetPrep { link: Word, bp: Word, state: RetPrepState, clocks: usize },
    /// Ready to forward a result.
    Ready { result: MemoryResult },
    /// Squashed, with the locks of the squashed instruction.
    Squashed { wregs: RegisterFlags },
    /// Writing the caches back before halting.
    Halting(usize),
    /// Halted.
    Halted,
}

impl JsrPrepState {
    /// The step described in words.
    pub open spec fn shown(self) -> Seq<char> {
        match self {
            JsrPrepState::WritingLp => "Writing the LP"@,
            JsrPrepState::WritingBp => "Writing the BP"@,
        }
    }

    /// Writes the step described in words.
    pub fn fmt(&self, f: &mut String)
        ensures
            final(f)@ == old(f)@ + self.shown(),
    {
        match self {
            JsrPrepState::WritingLp => f.append("Writing the LP"),
            JsrPrepState::WritingBp => f.append("Writing the BP"),
        }
    }
}

impl RetPrepState {
    /// The step described in words.
    pub open spec fn shown(self) -> Seq<char> {
        match self {
            RetPrepState::ReadingLp(_) => "Reading the LP"@,
            RetPrepState::ReadingBp => "Reading the BP"@,
        }
    }

    /// Writes the step described in words.
    pub fn fmt(&self, f: &mut String)
        ensures
            final(f)@ == old(f)@ + self.shown(),
    {
        match self {
            RetPrepState::ReadingLp(_) => f.append("Reading the LP"),
            RetPrepState::ReadingBp => f.append("Reading the BP"),
        }
    }
}

/// The address on the stack page of a stack pointer value.
pub open spec fn stack_at(a: Word) -> Word {
    STACK_PAGE | (a & 0xFFFF)
}

/// The address on the stack page of a stack pointer value.
pub fn stack_address(a: Word) -> (r: Word)
    ensures
        r == stack_at(a),
{
    STACK_PAGE | (a & 0xFFFF)
}

impl State {
    /// The state waits on the memory.
    pub open spec fn waiting(self) -> bool {
        self is Reading || self is Writing || self is Pushing || self is Popping || self is JsrPrep
            || self is RetPrep || self is Halting
    }

    /// The clocks the state waits.
    pub open spec fn wait(self) -> usize {
        match self {
            State::Reading { clocks, .. } | State::Writing { clocks, .. } | State::Pushing { clocks, .. }
            | State::Popping { clocks, .. } | State::DummyPop { clocks, .. } | State::JsrPrep { clocks, .. }
            | State::RetPrep { clocks, .. } | State::Halting(clocks) => clocks,
            _ => 1,
        }
    }

    /// The clocks the state waits.
    pub fn wait_time(&self) -> (n: usize)
        ensures
            n == self.wait(),
    {
        match self {
            State::Reading { clocks, .. } | State::Writing { clocks, .. } | State::Pushing { clocks, .. }
            | State::Popping { clocks, .. } | State::DummyPop { clocks, .. } | State::JsrPrep { clocks, .. }
            | State::RetPrep { clocks, .. } | State::Halting(clocks) => *clocks,
            _ => 1,
        }
    }

    /// Whether the state waits on the memory.
    pub fn is_waiting(&self) -> (b: bool)
        ensures
            b == self.waiting(),
    {
        match self {
            State::Reading { .. } | State::Writing { .. } | State::Pushing { .. } | State::Popping { .. }
            | State::JsrPrep { .. } | State::RetPrep { .. } | State::Halting(..) => true,
            _ => false,
        }
    }

    /// The registers that the instruction in this state holds locks on.
    pub open spec fn wregs(self) -> RegisterFlags {
        match self {
            State::Reading { destination, .. } => RegisterFlags::of([destination, ZF, OF, EPS, NAN, INF]@),
            State::Pushing { .. } => RegisterFlags::of([SP]@),
            State::Popping { destination, .. } => RegisterFlags::of([destination, SP, ZF, OF, EPS, NAN, INF]@),
            State::DummyPop { .. } => RegisterFlags::of([SP, ZF, OF, EPS, NAN, INF]@),
            State::JsrPrep { .. } => RegisterFlags::of([PC, SP, BP, LP]@),
            State::RetPrep { .. } => RegisterFlags::of([PC, BP, SP]@),
            State::Ready { result } => match result {
                MemoryResult::Squashed { wregs } | MemoryResult::Ignore { wregs } => wregs,
                MemoryResult::WriteReg1 { destination, .. } => RegisterFlags::of([destination, ZF, OF, EPS, NAN, INF]@),
                MemoryResult::WriteReg2 { destination, .. } => RegisterFlags::of(
                    [destination, SP, ZF, OF, EPS, NAN, INF]@,
                ),
                MemoryResult::JumpSubroutine { .. } => RegisterFlags::of([PC, SP, BP, LP]@),
                MemoryResult::Jump { .. } => RegisterFlags::of([PC]@),
                MemoryResult::Return { .. } => RegisterFlags::of([SP, BP, PC]@),
                MemoryResult::WriteStatus { .. } => RegisterFlags::of([ZF, OF, EPS, NAN, INF]@),
                _ => RegisterFlags::of(Seq::empty()),
            },
            State::Squashed { wregs } => wregs,
            _ => RegisterFlags::of(Seq::empty()),
        }
    }

    /// The registers that the instruction in this state holds locks on.
    pub fn get_wregs(&self) -> (r: RegisterFlags)
        ensures
            r == self.wregs(),
    {
        match self {
            State::Reading { destination, .. } => RegisterFlags::from_slice(&[*destination, ZF, OF, EPS, NAN, INF]),
            State::Pushing { .. } => RegisterFlags::from_slice(&[SP]),
            State::Popping { destination, .. } => RegisterFlags::from_slice(&[*destination, SP, ZF, OF, EPS, NAN, INF]),
            State::DummyPop { .. } => RegisterFlags::from_slice(&[SP, ZF, OF, EPS, NAN, INF]),
            State::JsrPrep { .. } => RegisterFlags::from_slice(&[PC, SP, BP, LP]),
            State::RetPrep { .. } => RegisterFlags::from_slice(&[PC, BP, SP]),
            State::Ready { result } => match result {
                MemoryResult::Squashed { wregs } | MemoryResult::Ignore { wregs } => *wregs,
                MemoryResult::WriteReg1 { destination, .. } => RegisterFlags::from_slice(&[*destination, ZF, OF, EPS, NAN, INF]),
                MemoryResult::WriteReg2 { destination, .. } => RegisterFlags::from_slice(&[*destination, SP, ZF, OF, EPS, NAN, INF]),
                MemoryResult::JumpSubroutine { .. } => RegisterFlags::from_slice(&[PC, SP, BP, LP]),
                MemoryResult::Jump { .. } => RegisterFlags::from_slice(&[PC]),
                MemoryResult::Return { .. } => RegisterFlags::from_slice(&[SP, BP, PC]),
                MemoryResult::WriteStatus { .. } => RegisterFlags::from_slice(&[ZF, OF, EPS, NAN, INF]),
                _ => RegisterFlags::from_slice(&[]),
            },
            State::Squashed { wregs } => *wregs,
            _ => RegisterFlags::from_slice(&[]),
        }
    }
}

/// The clocks to wait that a module's answer tells: none once it is idle.
pub open spec fn clocks_of(s: module::Status) -> usize {
    match s {
        module::Status::Busy(c) => c,
        module::Status::Idle => 0,
    }
}

/// What a read gives when it takes the module from `before` to `after`: the
/// value read, or the clocks to wait.
pub open spec fn read_outcome<M: MemoryModule>(mode: ReadMode, before: M, after: M) -> Result<Word, usize> {
    match mode {
        ReadMode::ReadByte { address, volatile } => match before.byte_read(address, volatile, after) {
            Ok(v) => Ok(v as Word),
            Err(s) => Err(clocks_of(s)),
        },
        ReadMode::ReadShort { address, volatile } => match before.short_read(address, volatile, after) {
            Ok(v) => Ok(v as Word),
            Err(s) => Err(clocks_of(s)),
        },
        ReadMode::ReadWord { address, volatile } => match before.word_read(address, volatile, after) {
            Ok(v) => Ok(v),
            Err(s) => Err(clocks_of(s)),
        },
    }
}

/// What the module answers to a write that takes it from `before` to
/// `after`: busy for some clocks, or idle once the write is done.
pub open spec fn write_status<M: MemoryModule>(mode: WriteMode, before: M, after: M) -> module::Status {
    match mode {
        WriteMode::WriteByte { address, value, volatile } => before.byte_write(address, value, volatile, after),
        WriteMode::WriteShort { address, value, volatile } => before.short_write(address, value, volatile, after),
        WriteMode::WriteWord { address, value, volatile } => before.word_write(address, value, volatile, after),
    }
}

/// Carries out a read; gives the value, or the clocks to wait.
fn read<M: MemoryModule>(mode: ReadMode, mem: &mut M) -> (r: Result<Word, usize>)
    requires
        old(mem).inv(),
    ensures
        final(mem).inv(),
        mode matches ReadMode::ReadByte { .. } ==> r matches Ok(v) ==> v < 0x100,
        mode matches ReadMode::ReadShort { .. } ==> r matches Ok(v) ==> v < 0x1_0000,
        r == read_outcome(mode, *old(mem), *final(mem)),
{
    let r = match mode {
        ReadMode::ReadByte { address, volatile } => {
            let x = if volatile {
                mem.read_byte_volatile(address)
            } else {
                mem.read_byte(address)
            };
            match x {
                Ok(v) => Ok(v as Word),
                Err(s) => Err(s),
            }
        },
        ReadMode::ReadShort { address, volatile } => {
            let x = if volatile {
                mem.read_short_volatile(address)
            } else {
                mem.read_short(address)
            };
            match x {
                Ok(v) => Ok(v as Word),
                Err(s) => Err(s),
            }
        },
        ReadMode::ReadWord { address, volatile } => {
            if volatile {
                mem.read_word_volatile(address)
            } else {
                mem.read_word(address)
            }
        },
    };
    match r {
        Ok(v) => Ok(v),
        Err(module::Status::Busy(c)) => Err(c),
        Err(module::Status::Idle) => Err(0),
    }
}

/// Carries out a write; gives the module's answer.
fn write<M: MemoryModule>(mode: WriteMode, mem: &mut M) -> (r: module::Status)
    requires
        old(mem).inv(),
    ensures
        final(mem).inv(),
        r == write_status(mode, *old(mem), *final(mem)),
{
    match mode {
        WriteMode::WriteByte { address, value, volatile } => if volatile {
            mem.write_byte_volatile(address, value)
        } else {
            mem.write_byte(address, value)
        },
        WriteMode::WriteShort { address, value, volatile } => if volatile {
            mem.write_short_volatile(address, value)
        } else {
            mem.write_short(address, value)
        },
        WriteMode::WriteWord { address, value, volatile } => if volatile {
            mem.write_word_volatile(address, value)
        } else {
            mem.write_word(address, value)
        },
    }
}

/// Reads the word at a stack address; gives the value, or the clocks to wait.
fn read_stack<M: MemoryModule>(address: Word, mem: &mut M) -> (r: Result<Word, usize>)
    requires
        old(mem).inv(),
    ensures
        final(mem).inv(),
        r == read_outcome(ReadMode::ReadWord { address, volatile: false }, *old(mem), *final(mem)),
{
    match mem.read_word(address) {
        Ok(v) => Ok(v),
        Err(module::Status::Busy(c)) => Err(c),
        Err(module::Status::Idle) => Err(0),
    }
}

/// The memory stage.
#[derive(Debug)]
pub struct Memory {
    state: State,
    forward: Option<MemoryResult>,
}

/// A write of a value read from memory to a register, with the zero flag.
pub open spec fn loaded(destination: Register, value: Word) -> MemoryResult {
    MemoryResult::WriteReg1 { destination, value, zf: value == 0, of: false, eps: false, nan: false, inf: false }
}

/// A value popped from the stack into a register, lowering the stack pointer.
pub open spec fn popped(destination: Register, value: Word, sp: Word) -> MemoryResult {
    MemoryResult::WriteReg2 {
        destination,
        value,
        sp: crate::pipeline::resolver::wrap32(sp - 4),
        zf: value == 0,
        of: false,
        eps: false,
        nan: false,
        inf: false,
    }
}

/// A return to `link`, restoring the base pointer `bpval` and the link
/// pointer `lp` read from the stack below `bp`.
pub open spec fn returned(link: Word, bpval: Word, bp: Word, lp: Word) -> MemoryResult {
    MemoryResult::Return { address: link, bp: bpval, sp: crate::pipeline::resolver::wrap32(bp - 8), lp }
}

impl Memory {
    /// The state of the stage.
    pub closed spec fn stage(&self) -> State {
        self.state
    }

    /// The result waiting to be forwarded.
    pub closed spec fn outgoing(&self) -> Option<MemoryResult> {
        self.forward
    }

    /// An idle stage with nothing to forward.
    pub fn new() -> (m: Memory)
        ensures
            m.stage() == State::Idle,
            m.outgoing() is None,
    {
        Memory { state: State::Idle, forward: None }
    }

    /// The state of the stage.
    pub fn get_state(&self) -> (s: State)
        ensures
            s == self.stage(),
    {
        self.state
    }

    /// The result waiting to be forwarded.
    pub fn pending(&self) -> (r: Option<MemoryResult>)
        ensures
            r == self.outgoing(),
    {
        self.forward
    }

    /// `after` completed with `result`: it forwards it at once when the
    /// next stage is ready, and keeps it ready otherwise.
    pub open spec fn completes(self, after: Memory, clock: Clock, result: MemoryResult, out: Clock) -> bool {
        if clock is Ready || clock is Squash {
            after.stage() == State::Idle && after.outgoing() == Some(result) && out == Clock::Ready(clock.count())
        } else {
            after.stage() == (State::Ready { result }) && after.outgoing() == self.outgoing()
                && out == Clock::Block(clock.count())
        }
    }

    /// `after` keeps waiting in state `st`, holding back what it would
    /// forward and blocking the stage before it.
    pub open spec fn waits(self, after: Memory, st: State, clock: Clock, out: Clock) -> bool {
        after.stage() == st && after.outgoing() == self.outgoing() && out == Clock::Block(clock.count())
    }

    /// Completes with `result`.
    fn complete(&mut self, clock: Clock, result: MemoryResult) -> (out: Clock)
        ensures
            old(self).completes(*final(self), clock, result, out),
    {
        if clock.is_ready() {
            self.state = State::Idle;
            self.forward = Some(result);
            clock.to_ready()
        } else {
            self.state = State::Ready { result };
            clock.to_block()
        }
    }

    /// The stage waits on a read of the memory module.
    pub open spec fn awaits_read(self) -> bool {
        self.stage() is Reading || self.stage() is Popping || self.stage() is DummyPop || self.stage() is RetPrep
    }

    /// The stage waits on a write to the memory module, or on its writeback
    /// before halting.
    pub open spec fn awaits_write(self) -> bool {
        self.stage() is Writing || self.stage() is Pushing || self.stage() is JsrPrep || self.stage() is Halting
    }

    /// `after` is this stage once the memory module answered its read with
    /// `answer`: the value read, or the clocks to wait.
    pub open spec fn read_answered(self, after: Self, clock: Clock, answer: Result<Word, usize>, out: Clock) -> bool {
        match self.stage() {
            State::Reading { mode, destination, .. } => match answer {
                Ok(v) => self.completes(after, clock, loaded(destination, v), out),
                Err(c) => self.waits(after, State::Reading { mode, destination, clocks: c }, clock, out),
            },
            State::Popping { destination, sp, .. } => match answer {
                Ok(v) => self.completes(after, clock, popped(destination, v, sp), out),
                Err(c) => self.waits(after, State::Popping { destination, sp, clocks: c }, clock, out),
            },
            State::DummyPop { sp, .. } => match answer {
                Ok(_) => self.completes(
                    after,
                    clock,
                    MemoryResult::WriteRegNoStatus { destination: SP, value: crate::pipeline::resolver::wrap32(sp - 4) },
                    out,
                ),
                Err(c) => self.waits(after, State::DummyPop { sp, clocks: c }, clock, out),
            },
            State::RetPrep { link, bp, state, .. } => match state {
                RetPrepState::ReadingBp => self.waits(
                    after,
                    match answer {
                        Ok(v) => State::RetPrep { link, bp, state: RetPrepState::ReadingLp(v), clocks: 1 },
                        Err(c) => State::RetPrep { link, bp, state, clocks: c },
                    },
                    clock,
                    out,
                ),
                RetPrepState::ReadingLp(bpval) => match answer {
                    Ok(v) => self.completes(after, clock, returned(link, bpval, bp, v), out),
                    Err(c) => self.waits(after, State::RetPrep { link, bp, state, clocks: c }, clock, out),
                },
            },
            _ => false,
        }
    }

    /// `after` is this stage once the memory module answered its write with
    /// `answer`: busy for some clocks, or idle once the write is done.
    pub open spec fn write_answered(self, after: Self, clock: Clock, answer: module::Status, out: Clock) -> bool {
        match self.stage() {
            State::Writing { mode, .. } => match answer {
                module::Status::Idle => self.completes(after, clock, MemoryResult::Nop, out),
                module::Status::Busy(c) => self.waits(after, State::Writing { mode, clocks: c }, clock, out),
            },
            State::Pushing { value, sp, .. } => match answer {
                module::Status::Idle => self.completes(
                    after,
                    clock,
                    MemoryResult::WriteRegNoStatus { destination: SP, value: crate::pipeline::resolver::wrap32(sp + 4) },
                    out,
                ),
                module::Status::Busy(c) => self.waits(after, State::Pushing { value, sp, clocks: c }, clock, out),
            },
            State::JsrPrep { address, link, sp, bp, lp, state, .. } => match state {
                JsrPrepState::WritingLp => self.waits(
                    after,
                    match answer {
                        module::Status::Idle => State::JsrPrep {
                            address,
                            link,
                            sp,
                            bp,
                            lp,
                            state: JsrPrepState::WritingBp,
                            clocks: 1,
                        },
                        module::Status::Busy(c) => State::JsrPrep { address, link, sp, bp, lp, state, clocks: c },
                    },
                    clock,
                    out,
                ),
                JsrPrepState::WritingBp => match answer {
                    module::Status::Idle => self.completes(
                        after,
                        clock,
                        MemoryResult::JumpSubroutine {
                            address,
                            link,
                            sp: stack_at(crate::pipeline::resolver::wrap32(sp + 8)),
                            bp: stack_at(crate::pipeline::resolver::wrap32(sp + 8)),
                        },
                        out,
                    ),
                    module::Status::Busy(c) => self.waits(
                        after,
                        State::JsrPrep { address, link, sp, bp, lp, state, clocks: c },
                        clock,
                        out,
                    ),
                },
            },
            State::Halting(_) => match answer {
                module::Status::Idle => out == Clock::Halt && (if clock is Ready || clock is Squash {
                    after.stage() is Halted && after.outgoing() == Some(MemoryResult::Halt)
                } else {
                    after.stage() == (State::Ready { result: MemoryResult::Halt })
                        && after.outgoing() == self.outgoing()
                }),
                module::Status::Busy(c) => self.waits(after, State::Halting(c), clock, out),
            },
            _ => false,
        }
    }

    /// `after` is this stage once a clock has taken it along, with the registers, locks and memory module before and after, and the signal it passes on.
    pub open spec fn stepped<M: MemoryModule>(self, after: Self, clock: Clock, regs: Registers, regs_after: Registers, locks: Locks, locks_after: Locks, mem: M, mem_after: M, out: Clock) -> bool {
        &&& (regs_after == regs)
        &&& (locks_after == locks)
        &&& (self.stage() is Halted ==> out == Clock::Halt && after == self && mem_after
            == mem)
        &&& (!(self.stage() is Halted) && clock is Squash ==> after.stage() == (State::Squashed {
            wregs: self.stage().wregs(),
        }) && after.outgoing() is None && out == clock && mem_after == mem)
        &&& (!(self.stage() is Halted) && !(clock is Squash) ==> match self.stage() {
            State::Idle => after == self && out == Clock::Ready(clock.count()) && mem_after
                == mem,
            State::Ready { result } => mem_after == mem && if clock is Ready {
                after.outgoing() == Some(result) && if result is Halt {
                    after.stage() is Halted && out == Clock::Halt
                } else {
                    after.stage() is Idle && out == clock
                }
            } else {
                after == self && out == Clock::Block(clock.count())
            },
            State::Squashed { wregs } => mem_after == mem && if clock is Ready {
                after.stage() is Idle && after.outgoing() == Some(MemoryResult::Squashed { wregs })
                    && out == Clock::Ready(clock.count())
            } else {
                after == self && out == Clock::Block(clock.count())
            },
            State::Reading { mode, .. } => self.read_answered(after, clock, read_outcome(mode, mem, mem_after), out),
            State::Writing { mode, .. } => self.write_answered(after, clock, write_status(mode, mem, mem_after), out),
            State::Pushing { value, sp, .. } => self.write_answered(
                after,
                clock,
                mem.word_write(stack_at(sp), value, false, mem_after),
                out,
            ),
            State::Popping { sp, .. } | State::DummyPop { sp, .. } => self.read_answered(
                after,
                clock,
                read_outcome(
                    ReadMode::ReadWord { address: stack_at(crate::pipeline::resolver::wrap32(sp - 4)), volatile: false },
                    mem,
                    mem_after,
                ),
                out,
            ),
            State::JsrPrep { sp, bp, lp, state, .. } => self.write_answered(
                after,
                clock,
                match state {
                    JsrPrepState::WritingLp => mem.word_write(stack_at(sp), lp, false, mem_after),
                    JsrPrepState::WritingBp => mem.word_write(
                        stack_at(crate::pipeline::resolver::wrap32(sp + 4)),
                        bp,
                        false,
                        mem_after,
                    ),
                },
                out,
            ),
            State::RetPrep { bp, state, .. } => self.read_answered(
                after,
                clock,
                read_outcome(
                    ReadMode::ReadWord {
                        address: stack_at(
                            match state {
                                RetPrepState::ReadingBp => crate::pipeline::resolver::wrap32(bp - 4),
                                RetPrepState::ReadingLp(_) => crate::pipeline::resolver::wrap32(bp - 8),
                            },
                        ),
                        volatile: false,
                    },
                    mem,
                    mem_after,
                ),
                out,
            ),
            State::Halting(_) => self.write_answered(after, clock, mem.writeback_answer(mem_after), out),
            State::Halted => true,
        })
    }

    /// Takes the memory module's answer to the read that the stage waits on:
    /// a value read moves it on, a number of clocks keeps it waiting.
    pub fn on_read(&mut self, clock: Clock, answer: Result<Word, usize>) -> (out: Clock)
        requires
            old(self).awaits_read(),
        ensures
            old(self).read_answered(*final(self), clock, answer, out),
    {
        let ghost before = *self;
        match self.state {
            State::Reading { mode, destination, .. } => match answer {
                Ok(value) => {
                    let out = self.complete(clock, MemoryResult::WriteReg1 {
                        destination,
                        value,
                        zf: value == 0,
                        of: false,
                        eps: false,
                        nan: false,
                        inf: false,
                    });
                    proof {
                        assert(before.completes(*self, clock, loaded(destination, value), out));
                    }
                    out
                },
                Err(clocks) => {
                    self.state = State::Reading { mode, destination, clocks };
                    clock.to_block()
                },
            },
            State::Popping { destination, sp, .. } => match answer {
                Ok(value) => {
                    let out = self.complete(
                        clock,
                        MemoryResult::WriteReg2 {
                            destination,
                            value,
                            sp: sp.wrapping_sub(4),
                            zf: value == 0,
                            of: false,
                            eps: false,
                            nan: false,
                            inf: false,
                        },
                    );
                    proof {
                        assert(before.completes(*self, clock, popped(destination, value, sp), out));
                    }
                    out
                },
                Err(clocks) => {
                    self.state = State::Popping { destination, sp, clocks };
                    clock.to_block()
                },
            },
            State::DummyPop { sp, .. } => match answer {
                Ok(_) => self.complete(
                    clock,
                    MemoryResult::WriteRegNoStatus { destination: SP, value: sp.wrapping_sub(4) },
                ),
                Err(clocks) => {
                    self.state = State::DummyPop { sp, clocks };
                    clock.to_block()
                },
            },
            State::RetPrep { link, bp, state, .. } => match state {
                RetPrepState::ReadingBp => {
                    match answer {
                        Ok(value) => {
                            self.state = State::RetPrep { link, bp, state: RetPrepState::ReadingLp(value), clocks: 1 };
                        },
                        Err(clocks) => {
                            self.state = State::RetPrep { link, bp, state, clocks };
                        },
                    }
                    clock.to_block()
                },
                RetPrepState::ReadingLp(bpval) => match answer {
                    Ok(value) => {
                        let out = self.complete(
                            clock,
                            MemoryResult::Return { address: link, bp: bpval, sp: bp.wrapping_sub(8), lp: value },
                        );
                        proof {
                            assert(before.completes(*self, clock, returned(link, bpval, bp, value), out));
                        }
                        out
                    },
                    Err(clocks) => {
                        self.state = State::RetPrep { link, bp, state, clocks };
                        clock.to_block()
                    },
                },
            },
            _ => clock.to_block(),
        }
    }

    /// Takes the memory module's answer to the write that the stage waits
    /// on: idle moves it on, busy keeps it waiting for that many clocks.
    pub fn on_write(&mut self, clock: Clock, answer: module::Status) -> (out: Clock)
        requires
            old(self).awaits_write(),
        ensures
            old(self).write_answered(*final(self), clock, answer, out),
    {
        match self.state {
            State::Writing { mode, .. } => match answer {
                module::Status::Busy(clocks) => {
                    self.state = State::Writing { mode, clocks };
                    assert(self.stage() == (State::Writing { mode, clocks }));
                    clock.to_block()
                },
                module::Status::Idle => self.complete(clock, MemoryResult::Nop),
            },
            State::Pushing { value, sp, .. } => match answer {
                module::Status::Busy(clocks) => {
                    self.state = State::Pushing { value, sp, clocks };
                    clock.to_block()
                },
                module::Status::Idle => self.complete(
                    clock,
                    MemoryResult::WriteRegNoStatus { destination: SP, value: sp.wrapping_add(4) },
                ),
            },
            State::JsrPrep { address, link, sp, bp, lp, state, .. } => match state {
                JsrPrepState::WritingLp => {
                    match answer {
                        module::Status::Idle => {
                            self.state = State::JsrPrep { address, link, sp, bp, lp, state: JsrPrepState::WritingBp, clocks: 1 };
                        },
                        module::Status::Busy(clocks) => {
                            self.state = State::JsrPrep { address, link, sp, bp, lp, state, clocks };
                        },
                    }
                    clock.to_block()
                },
                JsrPrepState::WritingBp => match answer {
                    module::Status::Idle => {
                        let top = stack_address(sp.wrapping_add(8));
                        self.complete(clock, MemoryResult::JumpSubroutine { address, link, sp: top, bp: top })
                    },
                    module::Status::Busy(clocks) => {
                        self.state = State::JsrPrep { address, link, sp, bp, lp, state, clocks };
                        clock.to_block()
                    },
                },
            },
            State::Halting(..) => match answer {
                module::Status::Idle => {
                    if clock.is_ready() {
                        self.state = State::Halted;
                        self.forward = Some(MemoryResult::Halt);
                    } else {
                        self.state = State::Ready { result: MemoryResult::Halt };
                    }
                    Clock::Halt
                },
                module::Status::Busy(clocks) => {
                    self.state = State::Halting(clocks);
                    clock.to_block()
                },
            },
            _ => clock.to_block(),
        }
    }

    /// Applies a clock: a squash drops the instruction in progress (keeping
    /// its locks to release); otherwise the access in progress moves on and
    /// its result goes forward once it is done and the next stage is ready.
    pub fn clock<M: MemoryModule>(
        &mut self,
        clock: Clock,
        registers: &mut Registers,
        reg_locks: &mut Locks,
        memory: &mut M,
    ) -> (out: Clock)
        requires
            old(memory).inv(),
        ensures
            final(memory).inv(),
            old(self).stepped(*final(self), clock, *old(registers), *final(registers), *old(reg_locks), *final(reg_locks), *old(memory), *final(memory), out),
    {
        if let State::Halted = self.state {
            return Clock::Halt;
        }
        if clock.is_squash() {
            self.state = State::Squashed { wregs: self.state.get_wregs() };
            self.forward = None;
            return clock;
        }
        let ghost before = *self;
        match self.state {
            State::Idle => clock.to_ready(),
            State::Reading { mode, .. } => {
                let answer = read(mode, memory);
                self.on_read(clock, answer)
            },
            State::Writing { mode, .. } => {
                let answer = write(mode, memory);
                self.on_write(clock, answer)
            },
            State::Pushing { value, sp, .. } => {
                let answer = memory.write_word(stack_address(sp), value);
                self.on_write(clock, answer)
            },
            State::Popping { sp, .. } | State::DummyPop { sp, .. } => {
                let answer = read_stack(stack_address(sp.wrapping_sub(4)), memory);
                self.on_read(clock, answer)
            },
            State::JsrPrep { sp, bp, lp, state, .. } => {
                let answer = match state {
                    JsrPrepState::WritingLp => memory.write_word(stack_address(sp), lp),
                    JsrPrepState::WritingBp => memory.write_word(stack_address(sp.wrapping_add(4)), bp),
                };
                self.on_write(clock, answer)
            },
            State::RetPrep { bp, state, .. } => {
                let at = match state {
                    RetPrepState::ReadingBp => bp.wrapping_sub(4),
                    RetPrepState::ReadingLp(_) => bp.wrapping_sub(8),
                };
                let answer = read_stack(stack_address(at), memory);
                self.on_read(clock, answer)
            },
            State::Ready { result } => {
                if clock.is_ready() {
                    self.forward = Some(result);
                    if let MemoryResult::Halt = result {
                        self.state = State::Halted;
                        Clock::Halt
                    } else {
                        self.state = State::Idle;
                        clock.to_ready()
                    }
                } else {
                    clock.to_block()
                }
            },
            State::Squashed { wregs } => {
                if clock.is_ready() {
                    self.forward = Some(MemoryResult::Squashed { wregs });
                    self.state = State::Idle;
                    clock.to_ready()
                } else {
                    clock.to_block()
                }
            },
            State::Halting(..) => {
                let answer = memory.immediate_writeback();
                self.on_write(clock, answer)
            },
            State::Halted => Clock::Halt,
        }
    }

    /// The state that an execute result starts.
    pub open spec fn start(x: ExecuteResult) -> State {
        match x {
            ExecuteResult::Nop => State::Ready { result: MemoryResult::Nop },
            ExecuteResult::Subroutine { address, link, sp, bp, lp } => State::JsrPrep {
                address,
                link,
                sp,
                bp,
                lp,
                state: JsrPrepState::WritingLp,
                clocks: 1,
            },
            ExecuteResult::JumpTo { address } => State::Ready { result: MemoryResult::Jump { address } },
            ExecuteResult::Return { link, bp } => State::RetPrep { link, bp, state: RetPrepState::ReadingBp, clocks: 1 },
            ExecuteResult::WriteReg { destination, value, zf, of, eps, nan, inf } => State::Ready {
                result: MemoryResult::WriteReg1 { destination, value, zf, of, eps, nan, inf },
            },
            ExecuteResult::WriteStatus { zf, of, eps, nan, inf } => State::Ready {
                result: MemoryResult::WriteStatus { zf, of, eps, nan, inf },
            },
            ExecuteResult::WriteMemByte { address, value, volatile } => State::Writing {
                mode: WriteMode::WriteByte { address, value, volatile },
                clocks: 1,
            },
            ExecuteResult::WriteMemShort { address, value, volatile } => State::Writing {
                mode: WriteMode::WriteShort { address, value, volatile },
                clocks: 1,
            },
            ExecuteResult::WriteMemWord { address, value, volatile } => State::Writing {
                mode: WriteMode::WriteWord { address, value, volatile },
                clocks: 1,
            },
            ExecuteResult::ReadMemByte { address, destination, volatile } => State::Reading {
                mode: ReadMode::ReadByte { address, volatile },
                destination,
                clocks: 1,
            },
            ExecuteResult::ReadMemShort { address, destination, volatile } => State::Reading {
                mode: ReadMode::ReadShort { address, volatile },
                destination,
                clocks: 1,
            },
            ExecuteResult::ReadMemWord { address, destination, volatile } => State::Reading {
                mode: ReadMode::ReadWord { address, volatile },
                destination,
                clocks: 1,
            },
            ExecuteResult::ReadRegStack { register, sp } => State::Popping { destination: register, sp, clocks: 1 },
            ExecuteResult::WriteRegStack { value, sp } => State::Pushing { value, sp, clocks: 1 },
            ExecuteResult::Squash { regs } => State::Ready { result: MemoryResult::Squashed { wregs: regs } },
            ExecuteResult::Ignore { regs } => State::Ready { result: MemoryResult::Ignore { wregs: regs } },
            ExecuteResult::Halt => State::Halting(1),
            ExecuteResult::PopStack { sp } => State::DummyPop { sp, clocks: 1 },
        }
    }

    /// The state that an execute result starts.
    fn start_state(x: ExecuteResult) -> (s: State)
        ensures
            s == Self::start(x),
    {
        match x {
            ExecuteResult::Nop => State::Ready { result: MemoryResult::Nop },
            ExecuteResult::Subroutine { address, link, sp, bp, lp } => State::JsrPrep {
                address,
                link,
                sp,
                bp,
                lp,
                state: JsrPrepState::WritingLp,
                clocks: 1,
            },
            ExecuteResult::JumpTo { address } => State::Ready { result: MemoryResult::Jump { address } },
            ExecuteResult::Return { link, bp } => State::RetPrep { link, bp, state: RetPrepState::ReadingBp, clocks: 1 },
            ExecuteResult::WriteReg { destination, value, zf, of, eps, nan, inf } => State::Ready {
                result: MemoryResult::WriteReg1 { destination, value, zf, of, eps, nan, inf },
            },
            ExecuteResult::WriteStatus { zf, of, eps, nan, inf } => State::Ready {
                result: MemoryResult::WriteStatus { zf, of, eps, nan, inf },
            },
            ExecuteResult::WriteMemByte { address, value, volatile } => State::Writing {
                mode: WriteMode::WriteByte { address, value, volatile },
                clocks: 1,
            },
            ExecuteResult::WriteMemShort { address, value, volatile } => State::Writing {
                mode: WriteMode::WriteShort { address, value, volatile },
                clocks: 1,
            },
            ExecuteResult::WriteMemWord { address, value, volatile } => State::Writing {
                mode: WriteMode::WriteWord { address, value, volatile },
                clocks: 1,
            },
            ExecuteResult::ReadMemByte { address, destination, volatile } => State::Reading {
                mode: ReadMode::ReadByte { address, volatile },
                destination,
                clocks: 1,
            },
            ExecuteResult::ReadMemShort { address, destination, volatile } => State::Reading {
                mode: ReadMode::ReadShort { address, volatile },
                destination,
                clocks: 1,
            },
            ExecuteResult::ReadMemWord { address, destination, volatile } => State::Reading {
                mode: ReadMode::ReadWord { address, volatile },
                destination,
                clocks: 1,
            },
            ExecuteResult::ReadRegStack { register, sp } => State::Popping { destination: register, sp, clocks: 1 },
            ExecuteResult::WriteRegStack { value, sp } => State::Pushing { value, sp, clocks: 1 },
            ExecuteResult::Squash { regs } => State::Ready { result: MemoryResult::Squashed { wregs: regs } },
            ExecuteResult::Ignore { regs } => State::Ready { result: MemoryResult::Ignore { wregs: regs } },
            ExecuteResult::Halt => State::Halting(1),
            ExecuteResult::PopStack { sp } => State::DummyPop { sp, clocks: 1 },
        }
    }

    /// `after` is this stage once it has taken in `input`, whatever it handed
    /// on.
    pub open spec fn took(self, after: Self, input: Status<ExecuteResult>) -> bool {
        exists|out: Status<MemoryResult>| #[trigger] self.passed(after, input, out)
    }

    /// `after` is this stage once it has taken in `input` and handed on `out`.
    pub open spec fn passed(self, after: Self, input: Status<ExecuteResult>, out: Status<MemoryResult>) -> bool {
        &&& (self.stage() is Halted ==> out == Status::<MemoryResult>::Dry && after == self)
        &&& (!(self.stage() is Halted) ==> {
            let (clocks, bubbles) = match input {
                Status::Flow(_, b) => (1usize, b),
                Status::Stall(c) => (c, true),
                Status::Ready(n, b) => (n, b),
                Status::Squashed(n) => (n, true),
                Status::Dry => (1usize, true),
            };
            let st = match input {
                Status::Flow(x, _) => Self::start(x),
                _ => self.stage(),
            };
            &&& after.stage() == st
            &&& after.outgoing() is None
            &&& match self.outgoing() {
                Some(r) => out == Status::Flow(r, bubbles),
                None => if st.waiting() {
                    out == Status::<MemoryResult>::Stall(if clocks < st.wait() { clocks } else { st.wait() })
                } else if st is Squashed {
                    out == Status::<MemoryResult>::Squashed(clocks)
                } else if st is Idle {
                    out == Status::<MemoryResult>::Stall(clocks)
                } else {
                    out == Status::<MemoryResult>::Ready(clocks, bubbles)
                },
            }
        })
    }

    /// Takes in what the execute stage forwards and hands on the result of
    /// the last access, or says why there is none.
    pub fn forward(&mut self, input: Status<ExecuteResult>) -> (out: Status<MemoryResult>)
        ensures
            old(self).passed(*final(self), input, out),
    {
        if let State::Halted = self.state {
            return Status::Dry;
        }
        let (clocks, bubbles) = match input {
            Status::Flow(x, b) => {
                self.state = Self::start_state(x);
                (1usize, b)
            },
            Status::Stall(c) => (c, true),
            Status::Ready(n, b) => (n, b),
            Status::Squashed(n) => (n, true),
            Status::Dry => (1usize, true),
        };
        let taken = self.forward;
        self.forward = None;
        match taken {
            Some(r) => Status::Flow(r, bubbles),
            None => {
                if self.state.is_waiting() {
                    let w = self.state.wait_time();
                    Status::Stall(if clocks < w {
                        clocks
                    } else {
                        w
                    })
                } else if let State::Squashed { .. } = self.state {
                    Status::Squashed(clocks)
                } else if let State::Idle = self.state {
                    Status::Stall(clocks)
                } else {
                    Status::Ready(clocks, bubbles)
                }
            },
        }
    }
}

impl Default for Memory {
    fn default() -> (m: Memory)
        ensures
            m.stage() == State::Idle,
            m.outgoing() is None,
    {
        Memory::new()
    }
}

/// A load reads memory at its own width: whatever the memory module does, a
/// byte load takes the module's answer to a byte read of its address, a
/// short load the answer to a short read, a word load the answer to a word
/// read, each for the load's destination; a store writes its value at its
/// own width.
pub proof fn law_accesses_use_their_width<M: MemoryModule>(x: ExecuteResult, before: M, after: M)
    ensures
        match x {
            ExecuteResult::ReadMemByte { address, destination, volatile } => Memory::start(x) matches State::Reading {
                mode,
                destination: d,
                ..
            } && d == destination && read_outcome(mode, before, after) == match before.byte_read(address, volatile, after) {
                Ok(v) => Ok::<Word, usize>(v as Word),
                Err(s) => Err(clocks_of(s)),
            },
            ExecuteResult::ReadMemShort { address, destination, volatile } => Memory::start(x) matches State::Reading {
                mode,
                destination: d,
                ..
            } && d == destination && read_outcome(mode, before, after) == match before.short_read(address, volatile, after) {
                Ok(v) => Ok::<Word, usize>(v as Word),
                Err(s) => Err(clocks_of(s)),
            },
            ExecuteResult::ReadMemWord { address, destination, volatile } => Memory::start(x) matches State::Reading {
                mode,
                destination: d,
                ..
            } && d == destination && read_outcome(mode, before, after) == match before.word_read(address, volatile, after) {
                Ok(v) => Ok::<Word, usize>(v),
                Err(s) => Err(clocks_of(s)),
            },
            ExecuteResult::WriteMemByte { address, value, volatile } => Memory::start(x) matches State::Writing {
                mode,
                ..
            } && write_status(mode, before, after) == before.byte_write(address, value, volatile, after),
            ExecuteResult::WriteMemShort { address, value, volatile } => Memory::start(x) matches State::Writing {
                mode,
                ..
            } && write_status(mode, before, after) == before.short_write(address, value, volatile, after),
            ExecuteResult::WriteMemWord { address, value, volatile } => Memory::start(x) matches State::Writing {
                mode,
                ..
            } && write_status(mode, before, after) == before.word_write(address, value, volatile, after),
            _ => true,
        },
{
}

/// A value loaded from memory goes forward to the load's destination, with
/// the zero flag telling that it is zero.
pub proof fn law_loaded_value_goes_forward(m: Memory, after: Memory, clock: Clock, v: Word, out: Clock)
    requires
        m.stage() is Reading,
        m.read_answered(after, clock, Ok(v), out),
        clock is Ready,
    ensures
        after.outgoing() == Some(
            MemoryResult::WriteReg1 {
                destination: m.stage()->Reading_destination,
                value: v,
                zf: v == 0,
                of: false,
                eps: false,
                nan: false,
                inf: false,
            },
        ),
{
}

/// The address in the stack page that a stack pointer value stands for: the
/// stack page with the pointer's low short.
pub open spec fn stack_slot(sp: int) -> Word {
    (0x0001_0000 + (sp % 0x1_0000)) as Word
}

/// The stack page with a word's low short is the stack page's base plus the
/// low short.
proof fn lemma_stack_at(a: Word)
    ensures
        stack_at(a) == stack_slot(a as int),
{
    crate::pipeline::decode::lemma_in_stack_page(a);
}

/// The stack work of the memory stage, on a clock that lets its result go
/// forward: a push writes its value at the stack pointer and, once written,
/// raises the stack pointer by four; a pop reads the word below the stack
/// pointer into its register and lowers the pointer by four; a call first
/// writes the caller's link pointer at the stack pointer, then the caller's
/// base pointer just above it, and then enters the subroutine with both
/// pointers past the two words; a return reads the saved base pointer just
/// below the base pointer, then the saved link pointer below it, and then
/// jumps to the link with both restored and the stack pointer at the saved
/// link pointer's slot.
pub proof fn law_stack_work<M: MemoryModule>(
    m: Memory,
    after: Memory,
    clock: Clock,
    regs: Registers,
    regs_after: Registers,
    locks: Locks,
    locks_after: Locks,
    mem: M,
    mem_after: M,
    out: Clock,
)
    requires
        m.stepped(after, clock, regs, regs_after, locks, locks_after, mem, mem_after, out),
        clock is Ready,
    ensures
        match m.stage() {
            State::Pushing { value, sp, .. } => mem.word_write(stack_slot(sp as int), value, false, mem_after)
                is Idle ==> after.outgoing() == Some(
                MemoryResult::WriteRegNoStatus { destination: SP, value: ((sp + 4) % 0x1_0000_0000) as Word },
            ),
            State::Popping { destination, sp, .. } => forall|v: Word|
                mem.word_read(stack_slot(sp - 4), false, mem_after) == Ok::<Word, module::Status>(v)
                    ==> after.outgoing() == Some(
                    MemoryResult::WriteReg2 {
                        destination,
                        value: v,
                        sp: ((sp - 4) % 0x1_0000_0000) as Word,
                        zf: v == 0,
                        of: false,
                        eps: false,
                        nan: false,
                        inf: false,
                    },
                ),
            State::JsrPrep { address, link, sp, bp, lp, state, .. } => match state {
                JsrPrepState::WritingLp => mem.word_write(stack_slot(sp as int), lp, false, mem_after) is Idle
                    ==> after.stage() == (State::JsrPrep {
                    address,
                    link,
                    sp,
                    bp,
                    lp,
                    state: JsrPrepState::WritingBp,
                    clocks: 1,
                }),
                JsrPrepState::WritingBp => mem.word_write(stack_slot(sp + 4), bp, false, mem_after) is Idle
                    ==> after.outgoing() == Some(
                    MemoryResult::JumpSubroutine {
                        address,
                        link,
                        sp: stack_slot(sp + 8),
                        bp: stack_slot(sp + 8),
                    },
                ),
            },
            State::RetPrep { link, bp, state, .. } => match state {
                RetPrepState::ReadingBp => forall|v: Word|
                    mem.word_read(stack_slot(bp - 4), false, mem_after) == Ok::<Word, module::Status>(v)
                        ==> after.stage() == (State::RetPrep {
                        link,
                        bp,
                        state: RetPrepState::ReadingLp(v),
                        clocks: 1,
                    }),
                RetPrepState::ReadingLp(saved_bp) => forall|v: Word|
                    mem.word_read(stack_slot(bp - 8), false, mem_after) == Ok::<Word, module::Status>(v)
                        ==> after.outgoing() == Some(
                        MemoryResult::Return {
                            address: link,
                            bp: saved_bp,
                            sp: ((bp - 8) % 0x1_0000_0000) as Word,
                            lp: v,
                        },
                    ),
            },
            _ => true,
        },
{
    match m.stage() {
        State::Pushing { sp, .. } => lemma_stack_at(sp),
        State::Popping { sp, .. } => {
            lemma_stack_at(crate::pipeline::resolver::wrap32(sp - 4));
            wrap_mod_short(sp as int - 4);
        },
        State::JsrPrep { sp, .. } => {
            lemma_stack_at(sp);
            lemma_stack_at(crate::pipeline::resolver::wrap32(sp + 4));
            lemma_stack_at(crate::pipeline::resolver::wrap32(sp + 8));
            wrap_mod_short(sp as int + 4);
            wrap_mod_short(sp as int + 8);
        },
        State::RetPrep { bp, .. } => {
            lemma_stack_at(crate::pipeline::resolver::wrap32(bp - 4));
            lemma_stack_at(crate::pipeline::resolver::wrap32(bp - 8));
            wrap_mod_short(bp as int - 4);
            wrap_mod_short(bp as int - 8);
        },
        _ => {},
    }
}

/// Taking a number modulo 2^32 and then modulo 2^16 is taking it modulo 2^16.
proof fn wrap_mod_short(x: int)
    ensures
        stack_slot(crate::pipeline::resolver::wrap32(x) as int) == stack_slot(x),
{
    vstd::arithmetic::div_mod::lemma_mod_mod(x, 0x1_0000, 0x1_0000);
    assert(0x1_0000 * 0x1_0000 == 0x1_0000_0000);
    assert(((x % 0x1_0000_0000) as Word) as int == x % 0x1_0000_0000);
}

} // verus!
