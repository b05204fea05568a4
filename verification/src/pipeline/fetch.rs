//! The fetch stage: reads the instruction word at the program counter.
use crate::module::{self, MemoryModule};
use crate::pipeline::memory::clocks_of;
use crate::pipeline::registers::{Locks, Registers};
use crate::pipeline::resolver::wrap32;
use crate::pipeline::{Clock, Status};
use crate::registers::PC;
use crate::types::Word;
use vstd::prelude::*;

verus! {

/// The state of the [`Fetch`] stage.
#[derive(Debug, Clone, Copy, PartialEq, Eq, Structural)]
pub enum State {
    /// Waiting for the next job.
    Idle,
    /// The instruction word is being read; the value is the clocks left.
    Waiting { clocks: usize },
    /// The instruction word has been read.
    Ready { word: Word },
    /// The stage was squashed; the value is the clocks before it reads again.
    Squashed { clocks: usize },
    /// The stage has been halted.
    Halted,
}

impl State {
    /// The clocks before the state can move on.
    pub open spec fn wait(self) -> usize {
        match self {
            State::Waiting { clocks } => clocks,
            _ => 1,
        }
    }
}

/// The result of a fetch.
#[derive(Debug, Clone, Copy, PartialEq, Eq, Structural)]
pub enum FetchResult {
    /// An instruction word, with the address it was read from.
    Ready { word: Word, pc: Word },
    /// No new instruction is available.
    Squashed,
}

/// The fetch stage.
#[derive(Debug)]
pub struct Fetch {
    state: State,
    forward: Option<FetchResult>,
}

impl Fetch {
    /// The state of the stage.
    pub closed spec fn stage(self) -> State {
        self.state
    }

    /// The result waiting to be forwarded.
    pub closed spec fn outgoing(self) -> Option<FetchResult> {
        self.forward
    }

    /// An idle stage with nothing to forward.
    pub fn new() -> (f: Fetch)
        ensures
            f.stage() == State::Idle,
            f.outgoing() is None,
    {
        Fetch { state: State::Idle, forward: None }
    }

    /// The state of the stage.
    pub fn get_state(&self) -> (s: State)
        ensures
            s == self.stage(),
    {
        self.state
    }

    /// The result waiting to be forwarded.
    pub fn pending(&self) -> (r: Option<FetchResult>)
        ensures
            r == self.outgoing(),
    {
        self.forward
    }

    /// `after` took the word `word` that the memory gave for the program
    /// counter of `regs`, under the clock `clock`.
    pub open spec fn took_word(self, after: Fetch, clock: Clock, regs: Registers, regs_after: Registers, word: Word, out: Clock) -> bool {
        if clock is Ready || clock is Squash {
            &&& after.outgoing() == Some(FetchResult::Ready { word, pc: regs@[PC as int] })
            &&& after.stage() == State::Idle
            &&& regs_after@ == regs@.update(PC as int, wrap32(regs@[PC as int] + 4))
            &&& out == Clock::Ready(clock.count())
        } else {
            &&& after.stage() == (State::Ready { word })
            &&& after.outgoing() == self.outgoing()
            &&& regs_after == regs
            &&& out == Clock::Block(clock.count())
        }
    }

    /// `after` is this stage once a clock has taken it along, with the registers, locks and memory module before and after, and the signal it passes on.
    pub open spec fn stepped<M: MemoryModule>(self, after: Self, clock: Clock, regs: Registers, regs_after: Registers, locks: Locks, locks_after: Locks, mem: M, mem_after: M, out: Clock) -> bool {
        &&& (locks_after == locks)
        &&& (clock is Halt ==> after.stage() == State::Halted && after.outgoing() is None
            && out == Clock::Halt && regs_after == regs)
        &&& (clock is Squash ==> after.stage() == (State::Squashed { clocks: 2 })
            && after.outgoing() is None && out == clock && regs_after == regs)
        &&& ((clock is Halt || clock is Squash || !(self.stage() is Idle || self.stage() is Waiting))
            ==> mem_after == mem)
        &&& (!(clock is Halt || clock is Squash) ==> match self.stage() {
            State::Halted => out == Clock::Halt && after == self && regs_after == regs,
            State::Ready { word } => self.took_word(after, clock, regs, regs_after, word, out),
            State::Squashed { clocks } => regs_after == regs && after.outgoing() == self.outgoing()
                && if clock is Ready {
                    if clocks > 0 {
                        after.stage() == (State::Squashed { clocks: (clocks - 1) as usize })
                            && out == Clock::Squash(clock.count())
                    } else {
                        after.stage() == State::Idle && out == Clock::Ready(clock.count())
                    }
                } else {
                    after.stage() == self.stage() && out == Clock::Block(clock.count())
                },
            _ => match mem.instruction_read(regs@[PC as int], mem_after) {
                Ok(w) => self.took_word(after, clock, regs, regs_after, w, out),
                Err(s) => after.stage() == (State::Waiting { clocks: clocks_of(s) })
                    && after.outgoing() == self.outgoing() && regs_after == regs
                    && out == Clock::Block(clock.count()),
            },
        })
    }

    /// Applies a clock: the stage halts on a halt, restarts on a squash, and
    /// otherwise moves its read of the next instruction word along.
    pub fn clock<M: MemoryModule>(
        &mut self,
        clock: Clock,
        registers: &mut Registers,
        reg_locks: &mut Locks,
        memory: &mut M,
    ) -> (out: Clock)
        requires
            old(memory).inv(),
        ensures
            final(memory).inv(),
            old(self).stepped(*final(self), clock, *old(registers), *final(registers), *old(reg_locks), *final(reg_locks), *old(memory), *final(memory), out),
    {
        if clock.is_halt() {
            self.state = State::Halted;
            self.forward = None;
            return Clock::Halt;
        } else if clock.is_squash() {
            self.state = State::Squashed { clocks: 2 };
            self.forward = None;
            return clock;
        }
        match self.state {
            State::Ready { word } => {
                if clock.is_ready() {
                    self.take_word(word, registers);
                    clock.to_ready()
                } else {
                    clock.to_block()
                }
            },
            State::Halted => Clock::Halt,
            State::Squashed { clocks } => {
                if clock.is_ready() {
                    if clocks > 0 {
                        self.state = State::Squashed { clocks: clocks - 1 };
                        clock.to_squash()
                    } else {
                        self.state = State::Idle;
                        clock.to_ready()
                    }
                } else {
                    clock.to_block()
                }
            },
            State::Idle | State::Waiting { .. } => {
                let ghost before = *self;
                let ghost regs_before = *registers;
                let pc = registers.pc();
                match memory.read_instruction(pc) {
                    Ok(word) => {
                        let out = if clock.is_ready() {
                            self.take_word(word, registers);
                            clock.to_ready()
                        } else {
                            self.state = State::Ready { word };
                            clock.to_block()
                        };
                        proof {
                            assert(before.took_word(*self, clock, regs_before, *registers, word, out));
                        }
                        out
                    },
                    Err(s) => {
                        let clocks = match s {
                            module::Status::Busy(c) => c,
                            module::Status::Idle => 0,
                        };
                        self.state = State::Waiting { clocks };
                        proof {
                            assert(self.stage() == (State::Waiting { clocks }));
                        }
                        clock.to_block()
                    },
                }
            },
        }
    }

    /// Forwards the word read at the program counter and moves the program
    /// counter to the next word.
    fn take_word(&mut self, word: Word, registers: &mut Registers)
        ensures
            final(self).outgoing() == Some(FetchResult::Ready { word, pc: old(registers)@[PC as int] }),
            final(self).stage() == State::Idle,
            final(registers)@ == old(registers)@.update(PC as int, wrap32(old(registers)@[PC as int] + 4)),
    {
        let pc = registers.pc();
        self.forward = Some(FetchResult::Ready { word, pc });
        self.state = State::Idle;
        registers.set_pc(pc.wrapping_add(4));
    }

    /// `after` is this stage once it has taken in `input` and handed on `out`.
    pub open spec fn passed(self, after: Self, input: Status<()>, out: Status<FetchResult>) -> bool {
        &&& (after.stage() == self.stage())
        &&& (after.outgoing() is None)
        &&& (match self.outgoing() {
            Some(r) => out == Status::Flow(r, false),
            None => match self.stage() {
                State::Waiting { clocks } => out == Status::<FetchResult>::Stall(clocks),
                State::Squashed { .. } => out == Status::<FetchResult>::Squashed(1),
                State::Halted => out == Status::<FetchResult>::Dry,
                _ => out == Status::<FetchResult>::Ready(1, false),
            },
        })
    }

    /// Hands the fetched word on, or says why there is none: a stall while
    /// the read is in progress, a squash, a dry pipeline after a halt.
    pub fn forward(&mut self, input: Status<()>) -> (out: Status<FetchResult>)
        ensures
            old(self).passed(*final(self), input, out),
    {
        match self.forward {
            Some(r) => {
                self.forward = None;
                Status::Flow(r, false)
            },
            None => match self.state {
                State::Waiting { clocks } => Status::Stall(clocks),
                State::Squashed { .. } => Status::Squashed(1),
                State::Halted => Status::Dry,
                _ => Status::Ready(1, false),
            },
        }
    }
}

impl Default for Fetch {
    fn default() -> (f: Fetch)
        ensures
            f.stage() == State::Idle,
            f.outgoing() is None,
    {
        Fetch::new()
    }
}

/// On a clock that lets it go on, a fetch stage that is reading reads the
/// instruction word at the program counter: once the module gives the word,
/// the stage hands on that word with the address it came from and moves the
/// program counter to the next word, leaving the other registers alone;
/// while the module is busy, nothing moves.
pub proof fn law_fetch_reads_at_pc<M: MemoryModule>(
    f: Fetch,
    after: Fetch,
    regs: Registers,
    regs_after: Registers,
    locks: Locks,
    locks_after: Locks,
    mem: M,
    mem_after: M,
    clocks: usize,
    out: Clock,
)
    requires
        f.stepped(after, Clock::Ready(clocks), regs, regs_after, locks, locks_after, mem, mem_after, out),
        f.stage() is Idle || f.stage() is Waiting,
    ensures
        mem.instruction_read(regs@[PC as int], mem_after) is Ok ==> {
            &&& after.outgoing() == Some(
                FetchResult::Ready { word: mem.instruction_read(regs@[PC as int], mem_after)->Ok_0, pc: regs@[PC as int] },
            )
            &&& regs_after@.len() == regs@.len()
            &&& regs_after@[PC as int] as int == (regs@[PC as int] + 4) % 0x1_0000_0000
            &&& forall|i: int| 0 <= i < regs@.len() && i != PC ==> regs_after@[i] == regs@[i]
        },
        mem.instruction_read(regs@[PC as int], mem_after) is Err ==> regs_after == regs && after.outgoing()
            == f.outgoing(),
{
    regs.lemma_len();
}

} // verus!
