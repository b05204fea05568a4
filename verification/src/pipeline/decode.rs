//! The decode stage: decodes the fetched word, reads the registers the
//! instruction uses and locks the registers it writes.
use crate::instruction_set::{decode, Decode as _, Info, Instruction};
use crate::module::MemoryModule;
use crate::pipeline::fetch::FetchResult;
use crate::pipeline::registers::{Locks, Registers};
use crate::pipeline::regmap::RegMap;
use crate::pipeline::{Clock, Status};
use crate::registers::{lemma_regs_from_contains, lemma_regs_from_sorted, regs_from, RegisterFlags, BP, COUNT, PC, SP};
use crate::pages::STACK_PAGE;
use crate::types::{Register, Word};
use vstd::prelude::*;

verus! {

/// The state of the [`Decode`] stage.
#[derive(Debug, Clone, Copy, PartialEq, Eq, Structural)]
pub enum State {
    /// Decoding a word fetched from `pc`.
    Decoding { word: Word, pc: Word },
    /// Ready to forward the instruction of a word fetched from `pc`.
    Ready { word: Word, pc: Word },
    /// Awaiting the next instruction.
    Idle,
    /// The stage was squashed.
    Squashed,
    /// The previous stage sent a squashed instruction.
    PrevSquash,
    /// The stage has been halted.
    Halted,
}

/// The result of the decode stage.
#[derive(Debug)]
pub enum DecodeResult {
    /// A decoded instruction with the values of the registers it reads and
    /// the registers it locked for writing.
    Forward { instruction: Instruction, regvals: RegMap, reglocks: RegisterFlags },
    /// A squashed instruction.
    Squashed,
}

/// The decode stage.
#[derive(Debug)]
pub struct Decode {
    state: State,
    forward: Option<DecodeResult>,
}

/// The instruction a word decodes to; a word that decodes to nothing is a no-op.
pub open spec fn decoded(word: Word) -> Instruction {
    match Instruction::spec_decode(word) {
        Ok(i) => i,
        Err(_) => Instruction::Control(crate::instruction_set::control::ControlOp::Nop),
    }
}

/// The value an instruction fetched from `pc` reads from register `r`: the
/// fetch address for the program counter, the stack page with the low short
/// for the stack and base pointers, the register's value otherwise.
pub open spec fn operand_value(regs: Seq<Word>, pc: Word, r: Register) -> Word {
    if r == PC {
        pc
    } else if r == SP || r == BP {
        (regs[r as int] & 0x0000_FFFF) | 0x0001_0000
    } else {
        regs[r as int]
    }
}

/// The lock count after taking one more lock.
pub open spec fn locked_once(n: u8) -> u8 {
    if n < u8::MAX {
        (n + 1) as u8
    } else {
        n
    }
}

/// The lock counts after the decode stage takes one lock on each register of
/// `writes`.
pub open spec fn locked_all(locks: Seq<u8>, writes: Seq<Register>) -> Seq<u8> {
    Seq::new(locks.len(), |r: int| if writes.contains(r as Register) { locked_once(locks[r]) } else { locks[r] })
}

impl Decode {
    /// The state of the stage.
    pub closed spec fn stage(&self) -> State {
        self.state
    }

    /// The result waiting to be forwarded.
    pub closed spec fn outgoing(&self) -> Option<DecodeResult> {
        self.forward
    }

    /// The stage is well formed: a result waiting to go forward carries
    /// well-formed register values.
    pub open spec fn inv(&self) -> bool {
        self.outgoing() matches Some(DecodeResult::Forward { regvals, .. }) ==> regvals.wf()
    }

    /// An idle stage with nothing to forward.
    pub fn new() -> (d: Decode)
        ensures
            d.stage() == State::Idle,
            d.outgoing() is None,
    {
        Decode { state: State::Idle, forward: None }
    }

    /// The state of the stage.
    pub fn get_state(&self) -> (s: State)
        ensures
            s == self.stage(),
    {
        self.state
    }

    /// The result waiting to be forwarded.
    pub fn pending(&self) -> (r: &Option<DecodeResult>)
        ensures
            *r == self.outgoing(),
    {
        &self.forward
    }

    /// `after` issued the instruction of `word`, fetched from `pc`: it read
    /// the registers the instruction reads and locked those it writes.
    pub open spec fn issued(after: Decode, word: Word, pc: Word, regs: Seq<Word>, locks: Seq<u8>, locks_after: Seq<u8>) -> bool {
        let i = decoded(word);
        let reads = regs_from(i.spec_read_regs().0, 0);
        let writes = regs_from(i.spec_write_regs().0, 0);
        &&& after.stage() == State::Idle
        &&& after.outgoing() matches Some(DecodeResult::Forward { instruction, regvals, reglocks })
        &&& instruction == i
        &&& reglocks == i.spec_write_regs()
        &&& regvals.wf()
        &&& regvals.entries() == reads.map_values(|r: Register| (r, operand_value(regs, pc, r)))
        &&& locks_after == locked_all(locks, writes)
    }

    /// Whether no register that `word`'s instruction reads is locked.
    pub open spec fn can_issue(word: Word, locks: Seq<u8>) -> bool {
        let reads = regs_from(decoded(word).spec_read_regs().0, 0);
        forall|k: int| 0 <= k < reads.len() ==> locks[reads[k] as int] == 0
    }

    /// `after` is this stage once a clock has taken it along, with the registers, locks and memory module before and after, and the signal it passes on.
    pub open spec fn stepped<M: MemoryModule>(self, after: Self, clock: Clock, regs: Registers, regs_after: Registers, locks: Locks, locks_after: Locks, mem: M, mem_after: M, out: Clock) -> bool {
        &&& (regs_after == regs)
        &&& (clock is Halt ==> after.stage() == State::Halted && after.outgoing() is None && out == clock
            && locks_after == locks)
        &&& (clock is Squash ==> after.stage() == State::Squashed && after.outgoing() is None && out == clock
            && locks_after == locks)
        &&& (!(clock is Halt || clock is Squash) ==> match self.stage() {
            State::Halted => out == Clock::Halt && after == self && locks_after == locks,
            State::Decoding { word, pc } | State::Ready { word, pc } => if clock is Ready {
                if Self::can_issue(word, locks@) {
                    Self::issued(after, word, pc, regs@, locks@, locks_after@)
                        && out == Clock::Ready(clock.count())
                } else {
                    after.stage() == (State::Ready { word, pc }) && after.outgoing() == self.outgoing()
                        && locks_after == locks && out == Clock::Block(clock.count())
                }
            } else {
                after.stage() == (State::Ready { word, pc }) && after.outgoing() == self.outgoing()
                    && locks_after == locks && out == clock
            },
            State::Idle => after == self && locks_after == locks
                && out == Clock::Ready(clock.count()),
            State::Squashed | State::PrevSquash => locks_after == locks && if clock is Ready {
                after.outgoing() == Some(DecodeResult::Squashed) && after.stage() == State::Idle
                    && out == Clock::Ready(clock.count())
            } else {
                after == self && out == clock
            },
        })
    }

    /// Applies a clock: the stage halts on a halt, drops its work on a
    /// squash, and otherwise issues the instruction it decoded once no
    /// register it reads is locked and the next stage is ready.
    pub fn clock<M: MemoryModule>(
        &mut self,
        clock: Clock,
        registers: &mut Registers,
        reg_locks: &mut Locks,
        memory: &mut M,
    ) -> (out: Clock)
        requires
            old(memory).inv(),
        ensures
            final(memory).inv(),
            old(self).inv() ==> final(self).inv(),
            old(self).stepped(*final(self), clock, *old(registers), *final(registers), *old(reg_locks), *final(reg_locks), *old(memory), *final(memory), out),
    {
        if clock.is_halt() {
            self.state = State::Halted;
            self.forward = None;
            return clock;
        } else if clock.is_squash() {
            self.forward = None;
            self.state = State::Squashed;
            return clock;
        }
        match self.state {
            State::Halted => Clock::Halt,
            State::Decoding { word, pc } | State::Ready { word, pc } => {
                self.state = State::Ready { word, pc };
                if clock.is_ready() {
                    if self.issue(word, pc, registers, reg_locks) {
                        clock.to_ready()
                    } else {
                        clock.to_block()
                    }
                } else {
                    clock
                }
            },
            State::Idle => clock.to_ready(),
            State::Squashed | State::PrevSquash => {
                if clock.is_ready() {
                    self.forward = Some(DecodeResult::Squashed);
                    self.state = State::Idle;
                    clock.to_ready()
                } else {
                    clock
                }
            },
        }
    }

    /// Issues the instruction of `word` if no register it reads is locked.
    fn issue(&mut self, word: Word, pc: Word, registers: &Registers, reg_locks: &mut Locks) -> (b: bool)
        ensures
            b == Self::can_issue(word, old(reg_locks)@),
            b ==> Self::issued(*final(self), word, pc, registers@, old(reg_locks)@, final(reg_locks)@),
            !b ==> *final(self) == *old(self) && *final(reg_locks) == *old(reg_locks),
    {
        let instruction: Instruction = match decode::<Instruction>(word) {
            Ok(i) => i,
            Err(_) => Instruction::default(),
        };
        assert(instruction == decoded(word));
        let writes = instruction.get_write_regs();
        let reads = instruction.get_read_regs();
        let read_list = reads.to_vec();
        let write_list = writes.to_vec();
        proof {
            lemma_regs_from_sorted(reads.0, 0);
            lemma_regs_from_sorted(writes.0, 0);
            reg_locks.lemma_len();
            registers.lemma_len();
        }
        let mut k: usize = 0;
        while k < read_list.len()
            invariant
                k <= read_list@.len(),
                read_list@ == regs_from(reads.0, 0),
                reads == decoded(word).spec_read_regs(),
                reg_locks@ == old(reg_locks)@,
                forall|i: int| 0 <= i < read_list@.len() ==> #[trigger] read_list@[i] < COUNT,
                forall|j: int| 0 <= j < k ==> reg_locks@[read_list@[j] as int] == 0,
            decreases read_list@.len() - k,
        {
            if reg_locks.is_locked(read_list[k]) {
                proof {
                    assert(reg_locks@[read_list@[k as int] as int] != 0);
                }
                return false;
            }
            k += 1;
        }
        let ghost locks_before = reg_locks@;
        let mut j: usize = 0;
        while j < write_list.len()
            invariant
                j <= write_list@.len(),
                write_list@ == regs_from(writes.0, 0),
                forall|i: int| 0 <= i < write_list@.len() ==> #[trigger] write_list@[i] < COUNT,
                forall|a: int, b: int| 0 <= a < b < write_list@.len() ==> #[trigger] write_list@[a] < #[trigger] write_list@[b],
                reg_locks@.len() == COUNT,
                locks_before.len() == COUNT,
                forall|r: int| 0 <= r < COUNT ==> #[trigger] reg_locks@[r] == if write_list@.take(j as int).contains(r as Register) {
                    locked_once(locks_before[r])
                } else {
                    locks_before[r]
                },
            decreases write_list@.len() - j,
        {
            let r = write_list[j];
            let ghost pre = reg_locks@;
            reg_locks.lock(r);
            proof {
                assert forall|x: int| 0 <= x < COUNT implies #[trigger] reg_locks@[x] == if write_list@.take(j + 1).contains(x as Register) {
                    locked_once(locks_before[x])
                } else {
                    locks_before[x]
                } by {
                    let t = write_list@.take(j + 1);
                    assert(t == write_list@.take(j as int).push(r));
                    if x == r {
                        assert(t[j as int] == r);
                        assert(t.contains(r));
                        if write_list@.take(j as int).contains(r) {
                            let y = choose|y: int| 0 <= y < j && write_list@.take(j as int)[y] == r;
                            assert(write_list@[y] < write_list@[j as int]);
                        }
                    } else {
                        assert(t.contains(x as Register) == write_list@.take(j as int).contains(x as Register));
                    }
                }
            }
            j += 1;
        }
        let mut regvals = RegMap::new();
        let mut m: usize = 0;
        while m < read_list.len()
            invariant
                m <= read_list@.len(),
                read_list@ == regs_from(reads.0, 0),
                forall|i: int| 0 <= i < read_list@.len() ==> #[trigger] read_list@[i] < COUNT,
                forall|a: int, b: int| 0 <= a < b < read_list@.len() ==> #[trigger] read_list@[a] < #[trigger] read_list@[b],
                registers@.len() == COUNT,
                regvals.wf(),
                regvals.entries() == read_list@.take(m as int).map_values(|r: Register| (r, operand_value(registers@, pc, r))),
            decreases read_list@.len() - m,
        {
            let r = read_list[m];
            let v = if r == PC {
                pc
            } else if r == SP || r == BP {
                (registers.get(r) & 0x0000_FFFF) | 0x0001_0000
            } else {
                registers.get(r)
            };
            proof {
                if m > 0 {
                    assert(regvals.entries().last().0 == read_list@[m - 1]);
                }
            }
            regvals.push(r, v);
            proof {
                assert(read_list@.take(m + 1) == read_list@.take(m as int).push(r));
                assert(regvals.entries() =~= read_list@.take(m + 1).map_values(|r: Register| (r, operand_value(registers@, pc, r))));
            }
            m += 1;
        }
        proof {
            assert(read_list@.take(read_list@.len() as int) =~= read_list@);
            assert(write_list@.take(write_list@.len() as int) =~= write_list@);
            assert(reg_locks@ =~= locked_all(old(reg_locks)@, write_list@));
        }
        self.forward = Some(DecodeResult::Forward { instruction, regvals, reglocks: writes });
        self.state = State::Idle;
        true
    }

    /// `after` is this stage once it has taken in `input`, whatever it handed
    /// on.
    pub open spec fn took(self, after: Self, input: Status<FetchResult>) -> bool {
        exists|out: Status<DecodeResult>| #[trigger] self.passed(after, input, out)
    }

    /// `after` is this stage once it has taken in `input` and handed on `out`.
    pub open spec fn passed(self, after: Self, input: Status<FetchResult>, out: Status<DecodeResult>) -> bool {
        &&& (self.stage() == State::Halted ==> out == Status::<DecodeResult>::Dry && after == self)
        &&& (self.stage() != State::Halted ==> {
            let (clocks, bubbles) = match input {
                Status::Flow(_, b) => (1usize, b),
                Status::Stall(c) => (c, true),
                Status::Ready(n, b) => (n, b),
                Status::Squashed(n) => (n, true),
                Status::Dry => (1usize, true),
            };
            let st = match input {
                Status::Flow(FetchResult::Ready { word, pc }, _) => State::Decoding { word, pc },
                Status::Flow(FetchResult::Squashed, _) => State::PrevSquash,
                _ => self.stage(),
            };
            &&& after.stage() == st
            &&& after.outgoing() is None
            &&& match self.outgoing() {
                Some(v) => out == Status::Flow(v, bubbles),
                None => match st {
                    State::Ready { .. } => out == Status::<DecodeResult>::Ready(clocks, bubbles),
                    State::Squashed | State::PrevSquash => out == Status::<DecodeResult>::Squashed(clocks),
                    State::Idle => out == Status::<DecodeResult>::Stall(clocks),
                    _ => out == Status::<DecodeResult>::Stall(1),
                },
            }
        })
    }

    /// Takes in what the fetch stage forwards and hands on the decoded
    /// instruction, or says why there is none.
    pub fn forward(&mut self, input: Status<FetchResult>) -> (out: Status<DecodeResult>)
        ensures
            old(self).inv() ==> final(self).inv(),
            old(self).passed(*final(self), input, out),
    {
        if let State::Halted = self.state {
            return Status::Dry;
        }
        let (clocks, bubbles) = match input {
            Status::Flow(FetchResult::Ready { word, pc }, b) => {
                self.state = State::Decoding { word, pc };
                (1usize, b)
            },
            Status::Flow(FetchResult::Squashed, b) => {
                self.state = State::PrevSquash;
                (1usize, b)
            },
            Status::Stall(c) => (c, true),
            Status::Ready(n, b) => (n, b),
            Status::Squashed(n) => (n, true),
            Status::Dry => (1usize, true),
        };
        let mut taken: Option<DecodeResult> = None;
        std::mem::swap(&mut taken, &mut self.forward);
        match taken {
            Some(v) => Status::Flow(v, bubbles),
            None => match self.state {
                State::Ready { .. } => Status::Ready(clocks, bubbles),
                State::Squashed | State::PrevSquash => Status::Squashed(clocks),
                State::Idle => Status::Stall(clocks),
                _ => Status::Stall(1),
            },
        }
    }
}

impl Default for Decode {
    fn default() -> (d: Decode)
        ensures
            d.stage() == State::Idle,
            d.outgoing() is None,
    {
        Decode::new()
    }
}

/// A word with its upper short replaced by the stack page lies in the stack
/// page, keeps its low short, and is the stack page's base plus that short.
pub(crate) proof fn lemma_in_stack_page(x: Word)
    by (bit_vector)
    ensures
        ((x & 0x0000_FFFF) | 0x0001_0000) & 0xFFFF_0000 == 0x0001_0000,
        ((x & 0x0000_FFFF) | 0x0001_0000) & 0x0000_FFFF == x & 0x0000_FFFF,
        (0x0001_0000u32 | (x & 0xFFFF)) == 0x0001_0000u32 + (x % 0x1_0000),
{
}

/// The values an issued instruction reads: the fetch address for the program
/// counter; for the stack and base pointers an address in the stack page with
/// the register's low short, so that stack-relative addresses fall in the
/// stack page; every other register's own value.
pub proof fn law_issued_operand_values(after: Decode, word: Word, pc: Word, regs: Seq<Word>, locks: Seq<u8>, locks_after: Seq<u8>)
    requires
        Decode::issued(after, word, pc, regs, locks, locks_after),
    ensures
        after.outgoing() matches Some(DecodeResult::Forward { regvals, .. }) && forall|k: int|
            0 <= k < regvals.entries().len() ==> {
                let (r, v) = #[trigger] regvals.entries()[k];
                &&& r == PC ==> v == pc
                &&& (r == SP || r == BP) ==> v & 0xFFFF_0000 == STACK_PAGE && v & 0x0000_FFFF == regs[r as int]
                    & 0x0000_FFFF
                &&& !(r == PC || r == SP || r == BP) ==> v == regs[r as int]
            },
{
    if let Some(DecodeResult::Forward { regvals, .. }) = after.outgoing() {
        assert forall|k: int| 0 <= k < regvals.entries().len() implies {
            let (r, v) = #[trigger] regvals.entries()[k];
            &&& r == PC ==> v == pc
            &&& (r == SP || r == BP) ==> v & 0xFFFF_0000 == STACK_PAGE && v & 0x0000_FFFF == regs[r as int]
                & 0x0000_FFFF
            &&& !(r == PC || r == SP || r == BP) ==> v == regs[r as int]
        } by {
            let r = regvals.entries()[k].0;
            lemma_in_stack_page(regs[r as int]);
        }
    }
}

/// Issuing an instruction takes one more lock on each register it writes
/// (a count at its limit stays there) and leaves every other register's lock
/// count as it was.
pub proof fn law_issue_locks_written_registers(
    after: Decode,
    word: Word,
    pc: Word,
    regs: Seq<Word>,
    locks: Seq<u8>,
    locks_after: Seq<u8>,
    r: Register,
)
    requires
        Decode::issued(after, word, pc, regs, locks, locks_after),
        (r as int) < locks.len(),
    ensures
        decoded(word).spec_write_regs().contains(r) && r < COUNT ==> locks_after[r as int] == if locks[r as int]
            < u8::MAX {
            (locks[r as int] + 1) as u8
        } else {
            locks[r as int]
        },
        !(decoded(word).spec_write_regs().contains(r) && r < COUNT) ==> locks_after[r as int] == locks[r as int],
{
    lemma_regs_from_contains(decoded(word).spec_write_regs().0, 0, r);
}

} // verus!
