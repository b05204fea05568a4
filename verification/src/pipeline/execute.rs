//! The execute stage: carries out a decoded instruction on the register
//! values that the decode stage read.
use crate::instruction_set::Instruction;
use crate::module::MemoryModule;
use crate::pipeline::decode::DecodeResult;
use crate::pipeline::registers::{Locks, Registers};
use crate::pipeline::regmap::RegMap;
use crate::pipeline::resolver::{clock_requirement, execute_instruction, instruction_clocks, instruction_result, ExecuteResult, FloatUnit};
use crate::pipeline::{Clock, Status};
use crate::registers::RegisterFlags;
use vstd::prelude::*;

verus! {

/// The state of the [`Execute`] stage.
#[derive(Debug)]
pub enum State {
    /// Awaiting the next instruction.
    Idle,
    /// Executing an instruction, which owns the locks `wregs`, on the values
    /// `rvals`, with `clocks` left.
    Executing { instruction: Instruction, wregs: RegisterFlags, rvals: RegMap, clocks: usize },
    /// Ready to forward a result.
    Ready { result: ExecuteResult, wregs: RegisterFlags },
    /// Squashed, holding the locks of the squashed instruction.
    Squashed { wregs: RegisterFlags },
    /// The stage has been halted.
    Halted,
}

/// The execute stage, with the unit that carries out floating-point operations.
#[derive(Debug)]
pub struct Execute<F: FloatUnit> {
    state: State,
    forward: Option<ExecuteResult>,
    fpu: F,
}

impl<F: FloatUnit> Execute<F> {
    /// The state of the stage.
    pub closed spec fn stage(&self) -> State {
        self.state
    }

    /// The result waiting to be forwarded.
    pub closed spec fn outgoing(&self) -> Option<ExecuteResult> {
        self.forward
    }

    /// The stage is well formed: an instruction in progress has well-formed
    /// register values.
    pub open spec fn inv(&self) -> bool {
        self.stage() matches State::Executing { rvals, .. } ==> rvals.wf()
    }

    /// An idle stage with nothing to forward.
    pub fn new(fpu: F) -> (e: Self)
        ensures
            e.stage() is Idle,
            e.outgoing() is None,
            e.inv(),
    {
        Execute { state: State::Idle, forward: None, fpu }
    }

    /// The state of the stage.
    pub fn get_state(&self) -> (s: &State)
        ensures
            *s == self.stage(),
    {
        &self.state
    }

    /// The result waiting to be forwarded.
    pub fn pending(&self) -> (r: Option<ExecuteResult>)
        ensures
            r == self.outgoing(),
    {
        self.forward
    }

    /// `after` is this stage once a clock has taken it along, with the registers, locks and memory module before and after, and the signal it passes on.
    pub open spec fn stepped<M: MemoryModule>(self, after: Self, clock: Clock, regs: Registers, regs_after: Registers, locks: Locks, locks_after: Locks, mem: M, mem_after: M, out: Clock) -> bool {
        &&& (regs_after == regs)
        &&& (locks_after == locks)
        &&& (match self.stage() {
            State::Idle => after.stage() is Idle && after.outgoing() == self.outgoing()
                && out == Clock::Ready(clock.count()),
            State::Halted => after.stage() is Halted && after.outgoing() == self.outgoing()
                && out == Clock::Halt,
            State::Squashed { wregs } => if clock is Ready || clock is Squash {
                after.stage() is Idle && after.outgoing() == Some(ExecuteResult::Squash { regs: wregs })
                    && out == clock
            } else {
                after.stage() == self.stage() && out == Clock::Block(clock.count())
            },
            State::Ready { result, wregs } => if clock is Squash {
                after.stage() == (State::Squashed { wregs }) && after.outgoing() is None && out == clock
            } else if clock is Ready {
                after.outgoing() == Some(result) && out == clock && if result is Halt {
                    after.stage() is Halted
                } else {
                    after.stage() is Idle
                }
            } else {
                after.stage() == self.stage() && out == Clock::Block(clock.count())
            },
            State::Executing { instruction, wregs, rvals, clocks } => if clock is Squash {
                after.stage() == (State::Squashed { wregs }) && after.outgoing() is None && out == clock
            } else if clocks > clock.count() {
                after.stage() == (State::Executing { instruction, wregs, rvals, clocks: (clocks - clock.count()) as usize })
                    && after.outgoing() == self.outgoing() && out == Clock::Block(clock.count())
            } else {
                instruction_result(instruction, rvals) matches Some(x) ==> if clock is Ready {
                    &&& after.outgoing() == Some(x)
                    &&& (if x is Halt { after.stage() is Halted } else { after.stage() is Idle })
                    &&& out == if x.squashes() { Clock::Squash(clock.count()) } else { Clock::Ready(clock.count()) }
                } else {
                    &&& after.stage() == (State::Ready { result: x, wregs })
                    &&& after.outgoing() == self.outgoing()
                    &&& out == if x.squashes() { Clock::Squash(clock.count()) } else { Clock::Block(clock.count()) }
                }
            },
        })
    }

    /// Applies a clock: a squash drops the instruction in progress (keeping
    /// its locks to release), and otherwise the instruction runs its clocks
    /// down and its result goes forward once the next stage is ready.
    pub fn clock<M: MemoryModule>(
        &mut self,
        clock: Clock,
        registers: &mut Registers,
        reg_locks: &mut Locks,
        memory: &mut M,
    ) -> (out: Clock)
        requires
            old(self).inv(),
            old(memory).inv(),
        ensures
            final(self).inv(),
            final(memory).inv(),
            old(self).stepped(*final(self), clock, *old(registers), *final(registers), *old(reg_locks), *final(reg_locks), *old(memory), *final(memory), out),
    {
        let mut st = State::Idle;
        std::mem::swap(&mut st, &mut self.state);
        match st {
            State::Idle => clock.to_ready(),
            State::Halted => {
                self.state = State::Halted;
                Clock::Halt
            },
            State::Squashed { wregs } => {
                if clock.is_ready() {
                    self.forward = Some(ExecuteResult::Squash { regs: wregs });
                    clock
                } else {
                    self.state = State::Squashed { wregs };
                    clock.to_block()
                }
            },
            State::Ready { result, wregs } => {
                if clock.is_squash() {
                    self.forward = None;
                    self.state = State::Squashed { wregs };
                    clock
                } else if clock.is_ready() {
                    let halt = result.is_halt();
                    self.forward = Some(result);
                    if halt {
                        self.state = State::Halted;
                    }
                    clock
                } else {
                    self.state = State::Ready { result, wregs };
                    clock.to_block()
                }
            },
            State::Executing { instruction, wregs, rvals, clocks } => {
                if clock.is_squash() {
                    self.forward = None;
                    self.state = State::Squashed { wregs };
                    clock
                } else {
                    let left = clocks.saturating_sub(clock.clocks());
                    if left == 0 {
                        let result = execute_instruction(instruction, &rvals, &self.fpu);
                        let squash = result.should_squash();
                        if clock.is_ready() {
                            let halt = result.is_halt();
                            self.forward = Some(result);
                            if halt {
                                self.state = State::Halted;
                            }
                            if squash {
                                clock.to_squash()
                            } else {
                                clock.to_ready()
                            }
                        } else {
                            self.state = State::Ready { result, wregs };
                            if squash {
                                clock.to_squash()
                            } else {
                                clock.to_block()
                            }
                        }
                    } else {
                        self.state = State::Executing { instruction, wregs, rvals, clocks: left };
                        clock.to_block()
                    }
                }
            },
        }
    }

    /// `after` is this stage once it has taken in `input`, whatever it handed
    /// on.
    pub open spec fn took(self, after: Self, input: Status<DecodeResult>) -> bool {
        exists|out: Status<ExecuteResult>| #[trigger] self.passed(after, input, out)
    }

    /// `after` is this stage once it has taken in `input` and handed on `out`.
    pub open spec fn passed(self, after: Self, input: Status<DecodeResult>, out: Status<ExecuteResult>) -> bool {
        &&& (self.stage() is Halted && self.outgoing() is None ==> out == Status::<ExecuteResult>::Dry
            && after == self)
        &&& (!(self.stage() is Halted && self.outgoing() is None) ==> {
            &&& after.outgoing() is None
            &&& match input {
                Status::Flow(DecodeResult::Forward { instruction, regvals, reglocks }, _) => after.stage() matches State::Executing {
                    instruction: i,
                    wregs,
                    rvals,
                    clocks: w,
                } && i == instruction && wregs == reglocks && rvals == regvals && (instruction_clocks(instruction) matches Some(n)
                    ==> w == n),
                Status::Flow(DecodeResult::Squashed, _) => after.stage() == (State::Squashed { wregs: RegisterFlags(0) }),
                _ => after.stage() == self.stage(),
            }
            &&& {
                let (clocks, bubbles) = match input {
                    Status::Stall(c) => (c, true),
                    Status::Flow(DecodeResult::Forward { .. }, b) => (
                        match after.stage() {
                            State::Executing { clocks: w, .. } => w,
                            _ => 0,
                        },
                        b,
                    ),
                    Status::Flow(DecodeResult::Squashed, b) => (1usize, b),
                    Status::Ready(n, b) => (n, b),
                    Status::Squashed(n) => (n, true),
                    Status::Dry => (1usize, true),
                };
                match self.outgoing() {
                    Some(x) => out == Status::Flow(x, bubbles),
                    None => match after.stage() {
                        State::Executing { clocks: w, .. } => out == Status::<ExecuteResult>::Stall(
                            if clocks < w {
                                clocks
                            } else {
                                w
                            },
                        ),
                        State::Squashed { .. } => out == Status::<ExecuteResult>::Squashed(clocks),
                        State::Idle => out == Status::<ExecuteResult>::Stall(clocks),
                        _ => out == Status::<ExecuteResult>::Ready(clocks, bubbles),
                    },
                }
            }
        })
    }

    /// Takes in what the decode stage forwards and hands on the result of
    /// the last instruction, or says why there is none.
    pub fn forward(&mut self, input: Status<DecodeResult>) -> (out: Status<ExecuteResult>)
        requires
            old(self).inv(),
            input matches Status::Flow(DecodeResult::Forward { regvals, .. }, _) ==> regvals.wf(),
        ensures
            final(self).inv(),
            old(self).passed(*final(self), input, out),
    {
        if let State::Halted = self.state {
            if self.forward.is_none() {
                return Status::Dry;
            }
        }
        let (clocks, bubbles) = match input {
            Status::Stall(c) => (c, true),
            Status::Flow(DecodeResult::Forward { instruction, regvals, reglocks }, b) => {
                let c = clock_requirement(instruction, &self.fpu);
                self.state = State::Executing { instruction, wregs: reglocks, rvals: regvals, clocks: c };
                (c, b)
            },
            Status::Flow(DecodeResult::Squashed, b) => {
                self.state = State::Squashed { wregs: RegisterFlags(0) };
                (1usize, b)
            },
            Status::Ready(n, b) => (n, b),
            Status::Squashed(n) => (n, true),
            Status::Dry => (1usize, true),
        };
        let taken = self.forward;
        self.forward = None;
        match taken {
            Some(x) => Status::Flow(x, bubbles),
            None => match &self.state {
                State::Executing { clocks: w, .. } => Status::Stall(if clocks < *w {
                    clocks
                } else {
                    *w
                }),
                State::Squashed { .. } => Status::Squashed(clocks),
                State::Idle => Status::Stall(clocks),
                _ => Status::Ready(clocks, bubbles),
            },
        }
    }
}

impl<F: FloatUnit + Default> Default for Execute<F> {
    fn default() -> (e: Self)
        ensures
            e.stage() is Idle,
            e.outgoing() is None,
            e.inv(),
    {
        Execute::new(F::default())
    }
}

} // verus!
