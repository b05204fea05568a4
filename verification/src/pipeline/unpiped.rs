//! A processor without pipelining: one instruction at a time passes through
//! the five stages, one stage per clock.
use crate::module::MemoryModule;
use crate::pipeline::decode::{Decode, DecodeResult};
use crate::pipeline::execute::Execute;
use crate::pipeline::fetch::{Fetch, FetchResult};
use crate::pipeline::memory::{Memory as MemoryStage, MemoryResult};
use crate::pipeline::registers::{Locks, Registers};
use crate::pipeline::resolver::{wrap32, ExecuteResult, FloatUnit};
use crate::pipeline::writeback::{normalized, written, Writeback};
use crate::pipeline::{Clock, ClockResult, Pipeline, PipelineStages, Status};
use crate::registers::PC;
use crate::types::Word;
use vstd::prelude::*;

verus! {

/// The stage that the instruction in flight is in.
#[derive(Debug, Clone, Copy, PartialEq, Eq, Structural)]
pub enum Stage {
    /// Fetching.
    Fetch,
    /// Decoding.
    Decode,
    /// Executing.
    Execute,
    /// Accessing memory.
    Memory,
    /// Writing the registers back.
    Writeback,
}

impl Stage {
    /// The stage that follows; after the writeback comes the next fetch.
    pub open spec fn next(self) -> Stage {
        match self {
            Stage::Fetch => Stage::Decode,
            Stage::Decode => Stage::Execute,
            Stage::Execute => Stage::Memory,
            Stage::Memory => Stage::Writeback,
            Stage::Writeback => Stage::Fetch,
        }
    }
}

/// What a stage's forwarded status means for the processor: a job that went
/// on flows, anything else but running dry waits.
pub open spec fn outcome<T>(s: Status<T>) -> ClockResult {
    match s {
        Status::Stall(k) => ClockResult::Stall(k),
        Status::Flow(..) => ClockResult::Flow,
        Status::Ready(..) | Status::Squashed(..) => ClockResult::Stall(1),
        Status::Dry => ClockResult::Dry,
    }
}

/// A processor without pipelining over a memory module, with a
/// floating-point unit.
#[derive(Debug)]
pub struct Unpipelined<M: MemoryModule, F: FloatUnit> {
    memory_module: M,
    registers: Registers,
    locks: Locks,
    stage: Stage,
    fetch: Fetch,
    decode: Decode,
    execute: Execute<F>,
    memory: MemoryStage,
    writeback: Writeback,
}

impl<M: MemoryModule, F: FloatUnit> Unpipelined<M, F> {
    /// A processor with cleared registers and idle stages over a memory
    /// module, about to fetch.
    pub fn new(memory_module: M, fpu: F) -> (p: Self)
        requires
            memory_module.inv(),
        ensures
            p.inv(),
            p.module() == memory_module,
            p.regs()@ == Seq::new(25, |i: int| 0u32),
            p.current() == Stage::Fetch,
    {
        Unpipelined {
            memory_module,
            registers: Registers::new(),
            locks: Locks::new(),
            stage: Stage::Fetch,
            fetch: Fetch::new(),
            decode: Decode::new(),
            execute: Execute::new(fpu),
            memory: MemoryStage::new(),
            writeback: Writeback::new(),
        }
    }

    /// The register locks held by the instruction in flight.
    pub closed spec fn locks(&self) -> Locks {
        self.locks
    }

    /// Nothing but the stages named changed from `self` to `after`: the
    /// fetch, decode, execute, memory and writeback stages in that order.
    pub open spec fn keeps(self, after: Self, f: bool, d: bool, x: bool, m: bool, w: bool) -> bool {
        &&& (f || after.fetch_stage() == self.fetch_stage())
        &&& (d || after.decode_stage() == self.decode_stage())
        &&& (x || after.execute_stage() == self.execute_stage())
        &&& (m || after.memory_stage() == self.memory_stage())
        &&& (w || after.writeback_stage() == self.writeback_stage())
    }

    /// A clock of the fetch stage: after the module's own clock of `clocks`
    /// left it as `m1`, the stage took a ready clock by its contract and handed on `s`,
    /// which gives the result; a word it handed on went into the decode stage.
    pub open spec fn fetched(self, after: Self, clocks: usize, m1: M, c: Clock, f1: Fetch, s: Status<FetchResult>, r: ClockResult) -> bool {
        &&& m1.inv()
        &&& self.module().clocked(clocks, m1)
        &&& self.fetch_stage().stepped(f1, Clock::Ready(clocks), self.regs(), after.regs(), self.locks(), after.locks(), m1, after.module(), c)
        &&& f1.passed(after.fetch_stage(), Status::Ready(0, false), s)
        &&& r == outcome(s)
        &&& match s {
            Status::Flow(x, b) => self.decode_stage().took(after.decode_stage(), Status::Flow(x, b)),
            _ => after.decode_stage() == self.decode_stage(),
        }
        &&& self.keeps(after, true, true, false, false, false)
    }

    /// A clock of the decode stage, in the same way; an instruction it handed
    /// on went into the execute stage.
    pub open spec fn decoded(self, after: Self, clocks: usize, m1: M, c: Clock, d1: Decode, s: Status<DecodeResult>, r: ClockResult) -> bool {
        &&& m1.inv()
        &&& self.module().clocked(clocks, m1)
        &&& self.decode_stage().stepped(d1, Clock::Ready(clocks), self.regs(), after.regs(), self.locks(), after.locks(), m1, after.module(), c)
        &&& d1.passed(after.decode_stage(), Status::Ready(0, false), s)
        &&& r == outcome(s)
        &&& match s {
            Status::Flow(x, b) => self.execute_stage().took(after.execute_stage(), Status::Flow(x, b)),
            _ => after.execute_stage() == self.execute_stage(),
        }
        &&& self.keeps(after, false, true, true, false, false)
    }

    /// A clock of the execute stage; a result it handed on went into the
    /// memory stage.
    pub open spec fn executed(self, after: Self, clocks: usize, m1: M, c: Clock, e1: Execute<F>, s: Status<ExecuteResult>, r: ClockResult) -> bool {
        &&& m1.inv()
        &&& self.module().clocked(clocks, m1)
        &&& self.execute_stage().stepped(e1, Clock::Ready(clocks), self.regs(), after.regs(), self.locks(), after.locks(), m1, after.module(), c)
        &&& e1.passed(after.execute_stage(), Status::Ready(0, false), s)
        &&& r == outcome(s)
        &&& match s {
            Status::Flow(x, b) => self.memory_stage().took(after.memory_stage(), Status::Flow(x, b)),
            _ => after.memory_stage() == self.memory_stage(),
        }
        &&& self.keeps(after, false, false, true, true, false)
    }

    /// A clock of the memory stage; a result it handed on went into the
    /// writeback stage.
    pub open spec fn accessed(self, after: Self, clocks: usize, m1: M, c: Clock, a1: MemoryStage, s: Status<MemoryResult>, r: ClockResult) -> bool {
        &&& m1.inv()
        &&& self.module().clocked(clocks, m1)
        &&& self.memory_stage().stepped(a1, Clock::Ready(clocks), self.regs(), after.regs(), self.locks(), after.locks(), m1, after.module(), c)
        &&& a1.passed(after.memory_stage(), Status::Ready(0, false), s)
        &&& r == outcome(s)
        &&& match s {
            Status::Flow(x, b) => self.writeback_stage().took(after.writeback_stage(), Status::Flow(x, b)),
            _ => after.writeback_stage() == self.writeback_stage(),
        }
        &&& self.keeps(after, false, false, false, true, true)
    }

    /// A clock of the writeback stage: it wrote its result by its contract.
    pub open spec fn wrote(self, after: Self, clocks: usize, m1: M, c: Clock, w1: Writeback, s: Status<()>, r: ClockResult) -> bool {
        &&& m1.inv()
        &&& self.module().clocked(clocks, m1)
        &&& self.writeback_stage().stepped(w1, Clock::Ready(clocks), self.regs(), after.regs(), self.locks(), after.locks(), m1, after.module(), c)
        &&& w1.passed(after.writeback_stage(), Status::Ready(0, false), s)
        &&& r == outcome(s)
        &&& self.keeps(after, false, false, false, false, true)
    }

    /// The stage that the instruction in flight is in.
    pub closed spec fn current(&self) -> Stage {
        self.stage
    }

    /// The fetch stage.
    pub closed spec fn fetch_stage(&self) -> Fetch {
        self.fetch
    }

    /// The decode stage.
    pub closed spec fn decode_stage(&self) -> Decode {
        self.decode
    }

    /// The execute stage.
    pub closed spec fn execute_stage(&self) -> Execute<F> {
        self.execute
    }

    /// The memory stage.
    pub closed spec fn memory_stage(&self) -> MemoryStage {
        self.memory
    }

    /// The writeback stage.
    pub closed spec fn writeback_stage(&self) -> Writeback {
        self.writeback
    }

    /// The registers once the writeback stage has written the result it
    /// holds.
    pub open spec fn written_back(&self) -> Seq<Word> {
        match self.writeback_stage().job_of() {
            Some(j) => normalized(written(self.regs()@, j)),
            None => normalized(self.regs()@),
        }
    }

    /// The stage that the instruction in flight is in.
    pub fn stage(&self) -> (s: Stage)
        ensures
            s == self.current(),
    {
        self.stage
    }
}

impl<M: MemoryModule, F: FloatUnit> Pipeline for Unpipelined<M, F> {
    type Module = M;

    type Fpu = F;

    closed spec fn inv(&self) -> bool {
        &&& self.memory_module.inv()
        &&& self.decode.inv()
        &&& self.execute.inv()
    }

    closed spec fn module(&self) -> M {
        self.memory_module
    }

    closed spec fn regs(&self) -> Registers {
        self.registers
    }

    closed spec fn halted(&self) -> bool {
        match self.stage {
            Stage::Fetch => self.fetch.stage() is Halted && self.fetch.outgoing() is None,
            Stage::Decode => self.decode.stage() is Halted,
            Stage::Execute => self.execute.stage() is Halted && self.execute.outgoing() is None,
            Stage::Memory => self.memory.stage() is Halted,
            Stage::Writeback => false,
        }
    }

    /// Clocks the memory module and the stage that holds the instruction; a
    /// result that the stage hands on moves the instruction to the next
    /// stage. The writeback stage always hands over to the next fetch.
    fn clock(&mut self, clocks: usize) -> (r: ClockResult)
        ensures
            old(self).current() is Writeback ==> final(self).current() is Fetch,
            !(old(self).current() is Writeback) ==> final(self).current() == if r is Flow {
                old(self).current().next()
            } else {
                old(self).current()
            },
            old(self).current() is Writeback ==> final(self).regs()@ == old(self).written_back(),
            old(self).current() is Fetch ==> final(self).regs() == old(self).regs() || final(self).regs()@
                == old(self).regs()@.update(PC as int, wrap32(old(self).regs()@[PC as int] + 4)),
            !(old(self).current() is Writeback || old(self).current() is Fetch) ==> final(self).regs() == old(
                self,
            ).regs(),
            old(self).current() is Fetch ==> exists|m1: M, c: Clock, f1: Fetch, s: Status<FetchResult>|
                #[trigger] old(self).fetched(*final(self), clocks, m1, c, f1, s, r),
            old(self).current() is Decode ==> exists|m1: M, c: Clock, d1: Decode, s: Status<DecodeResult>|
                #[trigger] old(self).decoded(*final(self), clocks, m1, c, d1, s, r),
            old(self).current() is Execute ==> exists|m1: M, c: Clock, e1: Execute<F>, s: Status<ExecuteResult>|
                #[trigger] old(self).executed(*final(self), clocks, m1, c, e1, s, r),
            old(self).current() is Memory ==> exists|m1: M, c: Clock, a1: MemoryStage, s: Status<MemoryResult>|
                #[trigger] old(self).accessed(*final(self), clocks, m1, c, a1, s, r),
            old(self).current() is Writeback ==> exists|m1: M, c: Clock, w1: Writeback, s: Status<()>|
                #[trigger] old(self).wrote(*final(self), clocks, m1, c, w1, s, r),
    {
        let ghost before = *self;
        self.memory_module.clock(clocks);
        let ghost m1 = self.memory_module;
        let ready = Clock::Ready(clocks);
        match self.stage {
            Stage::Fetch => {
                let c = self.fetch.clock(ready, &mut self.registers, &mut self.locks, &mut self.memory_module);
                let ghost one = self.fetch;
                let s = self.fetch.forward(Status::Ready(0, false));
                let ghost sg = s;
                let r = if let Status::Flow(x, b) = s {
                    self.stage = Stage::Decode;
                    let o = self.decode.forward(Status::Flow(x, b));
                    proof {
                        assert(before.decode.passed(self.decode, Status::Flow(x, b), o));
                    }
                    ClockResult::Flow
                } else {
                    outcome_of(s)
                };
                proof {
                    assert(before.fetched(*self, clocks, m1, c, one, sg, r));
                }
                r
            },
            Stage::Decode => {
                let c = self.decode.clock(ready, &mut self.registers, &mut self.locks, &mut self.memory_module);
                let ghost one = self.decode;
                let s = self.decode.forward(Status::Ready(0, false));
                let ghost sg = s;
                let r = if let Status::Flow(x, b) = s {
                    self.stage = Stage::Execute;
                    let o = self.execute.forward(Status::Flow(x, b));
                    proof {
                        assert(before.execute.passed(self.execute, Status::Flow(x, b), o));
                    }
                    ClockResult::Flow
                } else {
                    outcome_of(s)
                };
                proof {
                    assert(before.decoded(*self, clocks, m1, c, one, sg, r));
                }
                r
            },
            Stage::Execute => {
                let c = self.execute.clock(ready, &mut self.registers, &mut self.locks, &mut self.memory_module);
                let ghost one = self.execute;
                let s = self.execute.forward(Status::Ready(0, false));
                let ghost sg = s;
                let r = if let Status::Flow(x, b) = s {
                    self.stage = Stage::Memory;
                    let o = self.memory.forward(Status::Flow(x, b));
                    proof {
                        assert(before.memory.passed(self.memory, Status::Flow(x, b), o));
                    }
                    ClockResult::Flow
                } else {
                    outcome_of(s)
                };
                proof {
                    assert(before.executed(*self, clocks, m1, c, one, sg, r));
                }
                r
            },
            Stage::Memory => {
                let c = self.memory.clock(ready, &mut self.registers, &mut self.locks, &mut self.memory_module);
                let ghost one = self.memory;
                let s = self.memory.forward(Status::Ready(0, false));
                let ghost sg = s;
                let r = if let Status::Flow(x, b) = s {
                    self.stage = Stage::Writeback;
                    let o = self.writeback.forward(Status::Flow(x, b));
                    proof {
                        assert(before.writeback.passed(self.writeback, Status::Flow(x, b), o));
                    }
                    ClockResult::Flow
                } else {
                    outcome_of(s)
                };
                proof {
                    assert(before.accessed(*self, clocks, m1, c, one, sg, r));
                }
                r
            },
            Stage::Writeback => {
                let c = self.writeback.clock(ready, &mut self.registers, &mut self.locks, &mut self.memory_module);
                let ghost one = self.writeback;
                self.stage = Stage::Fetch;
                let s = self.writeback.forward(Status::Ready(0, false));
                let ghost sg = s;
                let r = outcome_of(s);
                proof {
                    assert(before.wrote(*self, clocks, m1, c, one, sg, r));
                }
                r
            },
        }
    }

    fn memory_module(&self) -> (m: &M) {
        &self.memory_module
    }

    fn memory_module_mut(&mut self) -> (m: &mut M) {
        &mut self.memory_module
    }

    fn registers(&self) -> (r: &Registers) {
        &self.registers
    }

    fn registers_mut(&mut self) -> (r: &mut Registers) {
        &mut self.registers
    }

    fn stages(&self) -> (s: PipelineStages<'_, F>)
        ensures
            *s.fetch == self.fetch_stage(),
            *s.decode == self.decode_stage(),
            *s.execute == self.execute_stage(),
            *s.memory == self.memory_stage(),
            *s.writeback == self.writeback_stage(),
    {
        PipelineStages {
            fetch: &self.fetch,
            decode: &self.decode,
            execute: &self.execute,
            memory: &self.memory,
            writeback: &self.writeback,
        }
    }
}

/// The processor's result for a status that a stage handed on.
fn outcome_of<T>(s: Status<T>) -> (r: ClockResult)
    ensures
        r == outcome(s),
{
    match s {
        Status::Stall(k) => ClockResult::Stall(k),
        Status::Flow(..) => ClockResult::Flow,
        Status::Ready(..) | Status::Squashed(..) => ClockResult::Stall(1),
        Status::Dry => ClockResult::Dry,
    }
}

} // verus!
