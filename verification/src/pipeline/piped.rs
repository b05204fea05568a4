//! A pipelined processor: at each clock every stage works on an instruction
//! of its own.
use crate::module::MemoryModule;
use crate::pipeline::decode::{Decode, DecodeResult};
use crate::pipeline::execute::Execute;
use crate::pipeline::fetch::{Fetch, FetchResult};
use crate::pipeline::memory::{Memory as MemoryStage, MemoryResult};
use crate::pipeline::registers::{Locks, Registers};
use crate::pipeline::resolver::{wrap32, ExecuteResult, FloatUnit};
use crate::pipeline::writeback::{normalized, written, Writeback};
use crate::pipeline::{Clock, ClockResult, Pipeline, PipelineStages, Status};
use crate::registers::{COUNT, PC};
use crate::types::Word;
use vstd::prelude::*;

verus! {

/// A pipelined processor over a memory module, with a floating-point unit.
#[derive(Debug)]
pub struct Pipelined<M: MemoryModule, F: FloatUnit> {
    memory_module: M,
    registers: Registers,
    locks: Locks,
    fetch: Fetch,
    decode: Decode,
    execute: Execute<F>,
    memory: MemoryStage,
    writeback: Writeback,
}

impl<M: MemoryModule, F: FloatUnit> Pipelined<M, F> {
    /// A processor with cleared registers and idle stages over a memory module.
    pub fn new(memory_module: M, fpu: F) -> (p: Self)
        requires
            memory_module.inv(),
        ensures
            p.inv(),
            p.module() == memory_module,
            p.regs()@ == Seq::new(25, |i: int| 0u32),
            p.locks()@ == Seq::new(25, |i: int| 0u8),
            p.fetch_stage().stage() is Idle,
            p.memory_stage().stage() is Idle,
    {
        Pipelined {
            memory_module,
            registers: Registers::new(),
            locks: Locks::new(),
            fetch: Fetch::new(),
            decode: Decode::new(),
            execute: Execute::new(fpu),
            memory: MemoryStage::new(),
            writeback: Writeback::new(),
        }
    }

    /// The register locks held by instructions in flight.
    pub closed spec fn locks(&self) -> Locks {
        self.locks
    }

    /// The fetch stage.
    pub closed spec fn fetch_stage(&self) -> Fetch {
        self.fetch
    }

    /// The decode stage.
    pub closed spec fn decode_stage(&self) -> Decode {
        self.decode
    }

    /// The execute stage.
    pub closed spec fn execute_stage(&self) -> Execute<F> {
        self.execute
    }

    /// The memory stage.
    pub closed spec fn memory_stage(&self) -> MemoryStage {
        self.memory
    }

    /// The writeback stage.
    pub closed spec fn writeback_stage(&self) -> Writeback {
        self.writeback
    }

    /// One clock of the processor, from `self` to `after`: the module's own
    /// clock of `clocks` left it as `mods.0`; then the writeback, memory, execute, decode
    /// and fetch stages took the clock in that order, each by its contract,
    /// each handed the signal of the one before and leaving the registers,
    /// locks and module as the next one found them; then, from the fetch
    /// stage to the writeback stage, each handed its result to the next,
    /// and the writeback stage's result gives the processor's.
    pub open spec fn cycled(
        self,
        after: Self,
        clocks: usize,
        mods: (M, M, M, M, M),
        regs: (Registers, Registers, Registers, Registers),
        locks: (Locks, Locks, Locks, Locks),
        cs: (Clock, Clock, Clock, Clock, Clock),
        stages: (Writeback, MemoryStage, Execute<F>, Decode, Fetch),
        outs: (Status<FetchResult>, Status<DecodeResult>, Status<ExecuteResult>, Status<MemoryResult>, Status<()>),
        r: ClockResult,
    ) -> bool {
        &&& mods.0.inv()
        &&& self.module().clocked(clocks, mods.0)
        &&& self.writeback_stage().stepped(stages.0, Clock::Ready(clocks), self.regs(), regs.0, self.locks(), locks.0, mods.0, mods.1, cs.0)
        &&& self.memory_stage().stepped(stages.1, cs.0, regs.0, regs.1, locks.0, locks.1, mods.1, mods.2, cs.1)
        &&& self.execute_stage().stepped(stages.2, cs.1, regs.1, regs.2, locks.1, locks.2, mods.2, mods.3, cs.2)
        &&& self.decode_stage().stepped(stages.3, cs.2, regs.2, regs.3, locks.2, locks.3, mods.3, mods.4, cs.3)
        &&& self.fetch_stage().stepped(stages.4, cs.3, regs.3, after.regs(), locks.3, after.locks(), mods.4, after.module(), cs.4)
        &&& stages.4.passed(after.fetch_stage(), Status::Ready(1, false), outs.0)
        &&& stages.3.passed(after.decode_stage(), outs.0, outs.1)
        &&& stages.2.passed(after.execute_stage(), outs.1, outs.2)
        &&& stages.1.passed(after.memory_stage(), outs.2, outs.3)
        &&& stages.0.passed(after.writeback_stage(), outs.3, outs.4)
        &&& r == match outs.4 {
            Status::Stall(n) => ClockResult::Stall(n),
            Status::Dry => ClockResult::Dry,
            _ => ClockResult::Flow,
        }
    }

    /// The registers once the writeback stage has written the result it
    /// holds.
    pub open spec fn written_back(&self) -> Seq<Word> {
        match self.writeback_stage().job_of() {
            Some(j) => normalized(written(self.regs()@, j)),
            None => normalized(self.regs()@),
        }
    }
}

impl<M: MemoryModule, F: FloatUnit> Pipeline for Pipelined<M, F> {
    type Module = M;

    type Fpu = F;

    closed spec fn inv(&self) -> bool {
        &&& self.memory_module.inv()
        &&& self.decode.inv()
        &&& self.execute.inv()
    }

    closed spec fn module(&self) -> M {
        self.memory_module
    }

    closed spec fn regs(&self) -> Registers {
        self.registers
    }

    closed spec fn halted(&self) -> bool {
        self.memory.stage() is Halted
    }

    /// Clocks the memory module, then each stage from the last to the first,
    /// each told whether the one after it is ready; then each stage hands
    /// its result on, from the first to the last.
    fn clock(&mut self, clocks: usize) -> (r: ClockResult)
        ensures
            (r == ClockResult::Dry) == final(self).halted(),
            forall|i: int| 0 <= i < COUNT && i != PC ==> #[trigger] final(self).regs()@[i] == old(self).written_back()[i],
            final(self).regs()@[PC as int] == old(self).written_back()[PC as int] || final(self).regs()@[PC as int]
                == wrap32(old(self).written_back()[PC as int] + 4),
            exists|
                mods: (M, M, M, M, M),
                regs: (Registers, Registers, Registers, Registers),
                locks: (Locks, Locks, Locks, Locks),
                cs: (Clock, Clock, Clock, Clock, Clock),
                stages: (Writeback, MemoryStage, Execute<F>, Decode, Fetch),
                outs: (Status<FetchResult>, Status<DecodeResult>, Status<ExecuteResult>, Status<MemoryResult>, Status<()>),
            | #[trigger] old(self).cycled(*final(self), clocks, mods, regs, locks, cs, stages, outs, r),
    {
        let ghost before = *self;
        proof {
            self.registers.lemma_len();
        }
        self.memory_module.clock(clocks);
        let ghost m0 = self.memory_module;
        let c0 = self.writeback.clock(Clock::Ready(clocks), &mut self.registers, &mut self.locks, &mut self.memory_module);
        let ghost (w1, r0, l0, m1) = (self.writeback, self.registers, self.locks, self.memory_module);
        let c1 = self.memory.clock(c0, &mut self.registers, &mut self.locks, &mut self.memory_module);
        let ghost (a1, r1, l1, m2) = (self.memory, self.registers, self.locks, self.memory_module);
        let c2 = self.execute.clock(c1, &mut self.registers, &mut self.locks, &mut self.memory_module);
        let ghost (e1, r2, l2, m3) = (self.execute, self.registers, self.locks, self.memory_module);
        let c3 = self.decode.clock(c2, &mut self.registers, &mut self.locks, &mut self.memory_module);
        let ghost (d1, r3, l3, m4) = (self.decode, self.registers, self.locks, self.memory_module);
        let c4 = self.fetch.clock(c3, &mut self.registers, &mut self.locks, &mut self.memory_module);
        let ghost f1 = self.fetch;
        let s0 = self.fetch.forward(Status::Ready(1, false));
        let s1 = self.decode.forward(s0);
        let s2 = self.execute.forward(s1);
        let s3 = self.memory.forward(s2);
        let s4 = self.writeback.forward(s3);
        let r = match s4 {
            Status::Stall(n) => ClockResult::Stall(n),
            Status::Dry => ClockResult::Dry,
            _ => ClockResult::Flow,
        };
        proof {
            assert(before.cycled(
                *self,
                clocks,
                (m0, m1, m2, m3, m4),
                (r0, r1, r2, r3),
                (l0, l1, l2, l3),
                (c0, c1, c2, c3, c4),
                (w1, a1, e1, d1, f1),
                (s0, s1, s2, s3, s4),
                r,
            ));
        }
        r
    }

    fn memory_module(&self) -> (m: &M) {
        &self.memory_module
    }

    fn memory_module_mut(&mut self) -> (m: &mut M) {
        &mut self.memory_module
    }

    fn registers(&self) -> (r: &Registers) {
        &self.registers
    }

    fn registers_mut(&mut self) -> (r: &mut Registers) {
        &mut self.registers
    }

    fn stages(&self) -> (s: PipelineStages<'_, F>)
        ensures
            *s.fetch == self.fetch_stage(),
            *s.decode == self.decode_stage(),
            *s.execute == self.execute_stage(),
            *s.memory == self.memory_stage(),
            *s.writeback == self.writeback_stage(),
    {
        PipelineStages {
            fetch: &self.fetch,
            decode: &self.decode,
            execute: &self.execute,
            memory: &self.memory,
            writeback: &self.writeback,
        }
    }
}

} // verus!
