//! The processor pipeline: its stages, the signals that pass between them,
//! and the register state they share.
//!
//! A clock travels from the fetch stage towards the writeback stage as a
//! [`Clock`] signal; results travel the same way as a [`Status`].
pub mod registers;
pub mod regmap;
pub mod resolver;
pub mod fetch;
pub mod decode;
pub mod execute;
pub mod memory;
pub mod writeback;
pub mod piped;
pub mod unpiped;

use crate::module::MemoryModule;
use crate::pipeline::decode::Decode;
use crate::pipeline::execute::Execute;
use crate::pipeline::fetch::Fetch;
use crate::pipeline::memory::Memory as MemoryStage;
use crate::pipeline::registers::Registers;
use crate::pipeline::resolver::FloatUnit;
use crate::pipeline::writeback::Writeback;
use vstd::prelude::*;
pub use piped::Pipelined;
pub use unpiped::Unpipelined;

verus! {

/// The signal a stage passes to the next stage when clocked.
#[derive(Debug, Clone, Copy, PartialEq, Eq, Structural)]
pub enum Clock {
    /// The next stage is ready to receive.
    Ready(usize),
    /// The next stage is not ready to receive.
    Block(usize),
    /// The next stage ordered a squash.
    Squash(usize),
    /// Execution stops.
    Halt,
}

impl Clock {
    /// The number of clocks a signal carries; none for a halt.
    pub open spec fn count(self) -> usize {
        match self {
            Clock::Ready(x) | Clock::Block(x) | Clock::Squash(x) => x,
            Clock::Halt => 0,
        }
    }

    /// The number of clocks sent.
    pub fn clocks(self) -> (n: usize)
        ensures
            n == self.count(),
    {
        match self {
            Clock::Ready(x) | Clock::Block(x) | Clock::Squash(x) => x,
            Clock::Halt => 0,
        }
    }

    /// Whether the signal is a block.
    pub fn is_block(self) -> (b: bool)
        ensures
            b == (self is Block),
    {
        match self {
            Clock::Block(_) => true,
            _ => false,
        }
    }

    /// Whether the signal is a squash.
    pub fn is_squash(self) -> (b: bool)
        ensures
            b == (self is Squash),
    {
        match self {
            Clock::Squash(_) => true,
            _ => false,
        }
    }

    /// Whether the next stage is ready: true for a ready or a squash signal.
    pub fn is_ready(self) -> (b: bool)
        ensures
            b == (self is Ready || self is Squash),
    {
        match self {
            Clock::Ready(_) | Clock::Squash(_) => true,
            _ => false,
        }
    }

    /// Whether the signal stops execution.
    pub fn is_halt(self) -> (b: bool)
        ensures
            b == (self is Halt),
    {
        match self {
            Clock::Halt => true,
            _ => false,
        }
    }

    /// The same number of clocks as a block signal.
    pub fn to_block(self) -> (c: Clock)
        ensures
            c == Clock::Block(self.count()),
    {
        Clock::Block(self.clocks())
    }

    /// The same number of clocks as a squash signal.
    pub fn to_squash(self) -> (c: Clock)
        ensures
            c == Clock::Squash(self.count()),
    {
        Clock::Squash(self.clocks())
    }

    /// The same number of clocks as a ready signal.
    pub fn to_ready(self) -> (c: Clock)
        ensures
            c == Clock::Ready(self.count()),
    {
        Clock::Ready(self.clocks())
    }
}

/// What a stage forwards to the next one after a clock.
///
/// A stall carries the number of clocks needed to clear the shortest stall.
#[derive(Debug)]
pub enum Status<T> {
    /// Some earlier stage stalls for this many clocks.
    Stall(usize),
    /// A job is forwarded; the flag tells whether a bubble precedes it.
    Flow(T, bool),
    /// The stage is ready but waiting, with the clocks and the bubble flag.
    Ready(usize, bool),
    /// An instruction was squashed.
    Squashed(usize),
    /// There are no new jobs.
    Dry,
}

impl<T> Status<T> {
    /// Whether the status is a stall.
    pub fn is_stall(&self) -> (b: bool)
        ensures
            b == (*self is Stall),
    {
        match self {
            Status::Stall(..) => true,
            _ => false,
        }
    }

    /// Whether the status forwards a job.
    pub fn is_flow(&self) -> (b: bool)
        ensures
            b == (*self is Flow),
    {
        match self {
            Status::Flow(..) => true,
            _ => false,
        }
    }

    /// Whether the status is ready.
    pub fn is_ready(&self) -> (b: bool)
        ensures
            b == (*self is Ready),
    {
        match self {
            Status::Ready(..) => true,
            _ => false,
        }
    }

    /// Whether an instruction was squashed.
    pub fn is_squashed(&self) -> (b: bool)
        ensures
            b == (*self is Squashed),
    {
        match self {
            Status::Squashed(..) => true,
            _ => false,
        }
    }

    /// Whether there are no new jobs.
    pub fn is_dry(&self) -> (b: bool)
        ensures
            b == (*self is Dry),
    {
        match self {
            Status::Dry => true,
            _ => false,
        }
    }
}

/// The result of clocking a whole pipeline.
#[derive(Debug, Clone, Copy, PartialEq, Eq, Structural)]
pub enum ClockResult {
    /// A stage stalls; the value is the number of clocks for the shortest
    /// stall to pass.
    Stall(usize),
    /// No stage stalls.
    Flow,
    /// The pipeline ran dry after a halt.
    Dry,
}

/// The stages of a processor, for display.
#[derive(Debug)]
pub struct PipelineStages<'a, F: FloatUnit> {
    /// The fetch stage.
    pub fetch: &'a Fetch,
    /// The decode stage.
    pub decode: &'a Decode,
    /// The execute stage.
    pub execute: &'a Execute<F>,
    /// The memory stage.
    pub memory: &'a MemoryStage,
    /// The writeback stage.
    pub writeback: &'a Writeback,
}

/// A processor built from the five stages over a memory module.
pub trait Pipeline {
    /// The memory module the processor runs on.
    type Module: MemoryModule;

    /// The unit that carries out floating-point operations.
    type Fpu: FloatUnit;

    /// The processor is well formed.
    spec fn inv(&self) -> bool;

    /// The memory module.
    spec fn module(&self) -> Self::Module;

    /// The registers.
    spec fn regs(&self) -> Registers;

    /// The processor has executed a halt and runs dry.
    spec fn halted(&self) -> bool;

    /// Applies clocks to the processor. A halted processor stays halted and
    /// dry, and a processor runs dry only once it has halted.
    fn clock(&mut self, amount: usize) -> (r: ClockResult)
        requires
            old(self).inv(),
        ensures
            final(self).inv(),
            old(self).halted() ==> r == ClockResult::Dry && final(self).halted(),
            r == ClockResult::Dry ==> final(self).halted(),
    ;

    /// The memory module.
    fn memory_module(&self) -> (m: &Self::Module)
        ensures
            *m == self.module(),
    ;

    /// The memory module, to change; the processor stays well formed if
    /// the module does.
    fn memory_module_mut(&mut self) -> (m: &mut Self::Module)
        ensures
            *m == old(self).module(),
            final(self).module() == *final(m),
            final(self).regs() == old(self).regs(),
            final(self).halted() == old(self).halted(),
            old(self).inv() && final(m).inv() ==> final(self).inv(),
    ;

    /// The registers.
    fn registers(&self) -> (r: &Registers)
        ensures
            *r == self.regs(),
    ;

    /// The registers, to change.
    fn registers_mut(&mut self) -> (r: &mut Registers)
        ensures
            *r == old(self).regs(),
            final(self).regs() == *final(r),
            final(self).module() == old(self).module(),
            final(self).halted() == old(self).halted(),
            old(self).inv() ==> final(self).inv(),
    ;

    /// The stages, for display.
    fn stages(&self) -> PipelineStages<'_, Self::Fpu>;
}

} // verus!
