//! The writeback stage: writes the results of an instruction to the
//! registers and releases the locks it held.
use crate::module::MemoryModule;
use crate::pages::PAGE_SIZE;
use crate::pipeline::decode::locked_all;
use crate::instruction_set::integer::{IntegerOp, SignExtendOp, UnaryOp};
use crate::instruction_set::Info;
use crate::pipeline::memory::{Memory as MemoryStage, MemoryResult, State as MemoryState};
use crate::pipeline::regmap::RegMap;
use crate::pipeline::resolver::integer_result;
use crate::pipeline::registers::{Locks, Registers};
use crate::pipeline::{Clock, Status};
use crate::registers::{lemma_regs_from_mask, lemma_regs_from_sorted, regs_from, RegisterFlags, BP, COUNT, EPS, INF, LP, NAN, OF, PC, SP, ZF};
use crate::types::{Register, Word};
use vstd::prelude::*;

verus! {

/// The writeback stage.
#[derive(Debug)]
pub struct Writeback {
    job: Option<MemoryResult>,
}

/// The value a flag register takes.
pub open spec fn flag(b: bool) -> Word {
    if b {
        1
    } else {
        0
    }
}

/// The lock counts after releasing one lock on each register of a list, in
/// order; a register number past the last register holds no lock.
pub open spec fn release_all(locks: Seq<u8>, regs: Seq<Register>) -> Seq<u8>
    decreases regs.len(),
{
    if regs.len() == 0 {
        locks
    } else {
        let l = release_all(locks, regs.drop_last());
        let r = regs.last() as int;
        if r < COUNT {
            l.update(r, if l[r] > 0 { (l[r] - 1) as u8 } else { 0u8 })
        } else {
            l
        }
    }
}

/// The registers with `destination` set to `value`; there is no register to
/// set past the last one.
pub open spec fn put(regs: Seq<Word>, destination: Register, value: Word) -> Seq<Word> {
    if destination < COUNT {
        regs.update(destination as int, value)
    } else {
        regs
    }
}

/// The registers whose locks a result releases.
pub open spec fn released(job: MemoryResult) -> Seq<Register> {
    match job {
        MemoryResult::Squashed { wregs } | MemoryResult::Ignore { wregs } => regs_from(wregs.0, 0),
        MemoryResult::WriteStatus { .. } => seq![ZF, OF, EPS, NAN, INF],
        MemoryResult::WriteRegNoStatus { destination, .. } => seq![destination],
        MemoryResult::WriteReg1 { destination, .. } => seq![destination, ZF, OF, EPS, NAN, INF],
        MemoryResult::WriteReg2 { destination, .. } => seq![destination, SP, ZF, OF, EPS, NAN, INF],
        MemoryResult::JumpSubroutine { .. } => seq![PC, LP, SP, BP],
        MemoryResult::Jump { .. } => seq![PC],
        MemoryResult::Return { .. } => seq![PC, LP, BP, SP],
        _ => Seq::empty(),
    }
}

/// The status flags written by a result.
pub open spec fn with_flags(regs: Seq<Word>, zf: bool, of: bool, eps: bool, nan: bool, inf: bool) -> Seq<Word> {
    regs.update(ZF as int, flag(zf)).update(OF as int, flag(of)).update(EPS as int, flag(eps)).update(
        NAN as int,
        flag(nan),
    ).update(INF as int, flag(inf))
}

/// The registers after a result is written.
pub open spec fn written(regs: Seq<Word>, job: MemoryResult) -> Seq<Word> {
    match job {
        MemoryResult::WriteStatus { zf, of, eps, nan, inf } => with_flags(regs, zf, of, eps, nan, inf),
        MemoryResult::WriteRegNoStatus { destination, value } => put(regs, destination, value),
        MemoryResult::WriteReg1 { destination, value, zf, of, eps, nan, inf } => with_flags(
            put(regs, destination, value),
            zf,
            of,
            eps,
            nan,
            inf,
        ),
        MemoryResult::WriteReg2 { destination, value, sp, zf, of, eps, nan, inf } => with_flags(
            put(regs, destination, value).update(SP as int, sp),
            zf,
            of,
            eps,
            nan,
            inf,
        ),
        MemoryResult::JumpSubroutine { address, link, sp, bp } => regs.update(PC as int, address).update(
            LP as int,
            link,
        ).update(SP as int, sp).update(BP as int, bp),
        MemoryResult::Jump { address } => regs.update(PC as int, address),
        MemoryResult::Return { address, bp, sp, lp } => regs.update(PC as int, address).update(LP as int, lp).update(
            BP as int,
            bp,
        ).update(SP as int, sp),
        _ => regs,
    }
}

/// The registers kept in range: the stack and base pointers within a page,
/// the program counter and link pointer aligned to a word.
pub open spec fn normalized(regs: Seq<Word>) -> Seq<Word> {
    regs.update(SP as int, (regs[SP as int] % PAGE_SIZE as Word) as Word).update(
        BP as int,
        (regs[BP as int] % PAGE_SIZE as Word) as Word,
    ).update(PC as int, regs[PC as int] & 0xFFFF_FFFC).update(LP as int, regs[LP as int] & 0xFFFF_FFFC)
}

/// Releasing one lock on each register of a strictly increasing list undoes
/// taking one, where no count was at its limit.
proof fn lemma_release_locked(base: Seq<u8>, regs: Seq<Register>)
    requires
        base.len() == COUNT,
        forall|i: int| 0 <= i < regs.len() ==> #[trigger] regs[i] < COUNT,
        forall|i: int, j: int| 0 <= i < j < regs.len() ==> #[trigger] regs[i] < #[trigger] regs[j],
        forall|i: int| 0 <= i < regs.len() ==> base[#[trigger] regs[i] as int] < u8::MAX,
    ensures
        release_all(locked_all(base, regs), regs) == base,
    decreases regs.len(),
{
    if regs.len() == 0 {
        assert(locked_all(base, regs) =~= base);
    } else {
        let x = regs.last();
        let rest = regs.drop_last();
        let raised = base.update(x as int, (base[x as int] + 1) as u8);
        assert(regs =~= rest.push(x));
        assert(!rest.contains(x)) by {
            if rest.contains(x) {
                let k = choose|k: int| 0 <= k < rest.len() && rest[k] == x;
                assert(regs[k] < regs[regs.len() - 1]);
            }
        }
        assert forall|i: int| 0 <= i < rest.len() implies raised[#[trigger] rest[i] as int] < u8::MAX by {
            assert(rest[i] == regs[i]);
            assert(regs[i] < regs[regs.len() - 1]);
        }
        assert forall|r: int| 0 <= r < COUNT implies #[trigger] locked_all(base, regs)[r] == locked_all(raised, rest)[r] by {
            assert(regs.contains(r as Register) == (rest.contains(r as Register) || r == x));
        }
        assert(locked_all(base, regs) =~= locked_all(raised, rest));
        lemma_release_locked(raised, rest);
        assert(rest == regs.drop_last());
        assert(release_all(locked_all(base, regs), regs) =~= base);
    }
}

/// The writeback of a squashed instruction releases exactly the locks that
/// its decode took, leaving the lock counts as they were, where no count was
/// at its limit.
pub proof fn law_squash_releases_decode_locks(locks: Seq<u8>, wregs: RegisterFlags)
    requires
        locks.len() == COUNT,
        forall|r: int| 0 <= r < COUNT ==> locks[r] < u8::MAX,
    ensures
        release_all(locked_all(locks, regs_from(wregs.0, 0)), released(MemoryResult::Squashed { wregs })) == locks,
{
    lemma_regs_from_sorted(wregs.0, 0);
    let regs = regs_from(wregs.0, 0);
    assert forall|i: int| 0 <= i < regs.len() implies locks[#[trigger] regs[i] as int] < u8::MAX by {
        assert(regs[i] < COUNT);
    }
    lemma_release_locked(locks, regs);
}

/// The registers that a result writing `destination` and the status flags
/// releases are those that an instruction writing them locked.
proof fn lemma_flag_writes(d: Register)
    requires
        d < 16,
    ensures
        regs_from(RegisterFlags::of([d, ZF, OF, EPS, NAN, INF]@).0, 0) == seq![d, ZF, OF, EPS, NAN, INF],
        regs_from(RegisterFlags::of([ZF, OF, EPS, NAN, INF]@).0, 0) == seq![ZF, OF, EPS, NAN, INF],
{
    let full = seq![d, ZF, OF, EPS, NAN, INF];
    let flags = seq![ZF, OF, EPS, NAN, INF];
    assert([d, ZF, OF, EPS, NAN, INF]@ =~= full);
    assert([ZF, OF, EPS, NAN, INF]@ =~= flags);
    assert forall|i: int, j: int| 0 <= i < j < full.len() implies #[trigger] full[i] < #[trigger] full[j] by {}
    assert forall|i: int, j: int| 0 <= i < j < flags.len() implies #[trigger] flags[i] < #[trigger] flags[j] by {}
    lemma_regs_from_mask(full);
    lemma_regs_from_mask(flags);
}

/// The writeback of an integer operation's result releases exactly the
/// registers that its decode locked: the destination with the status flags,
/// or the status flags alone for a comparison or a test. This holds of every
/// result but a halt (a division by zero) and nothing (a sign extension of an
/// unknown width), which release no register.
pub proof fn law_integer_writeback_releases_decode_locks(op: IntegerOp, m: RegMap)
    requires
        op.wf(),
        !(integer_result(op, m) is Halt),
        !(integer_result(op, m) is Nop),
    ensures
        MemoryStage::start(integer_result(op, m)) matches MemoryState::Ready { result } && released(result)
            == regs_from(op.spec_write_regs().0, 0),
{
    match op {
        IntegerOp::Not(UnaryOp(_, d)) | IntegerOp::Sxt(SignExtendOp(_, d)) => lemma_flag_writes(d),
        IntegerOp::Cmp(_) | IntegerOp::Tst(_) => lemma_flag_writes(0),
        IntegerOp::Add(b) | IntegerOp::Sub(b) | IntegerOp::Mul(b) | IntegerOp::Dvu(b) | IntegerOp::Dvs(b)
        | IntegerOp::Mod(b) | IntegerOp::And(b) | IntegerOp::Ior(b) | IntegerOp::Xor(b) | IntegerOp::Bsl(b)
        | IntegerOp::Bsr(b) | IntegerOp::Asr(b) | IntegerOp::Rol(b) | IntegerOp::Ror(b) => lemma_flag_writes(
            b.destination(),
        ),
    }
}

/// An integer operation that goes from decode to writeback leaves the lock
/// counts as it found them: the writeback releases each lock that the decode
/// took. This holds where no count was at its limit, for every result but a
/// halt and nothing.
pub proof fn law_integer_instruction_leaves_locks(op: IntegerOp, m: RegMap, locks: Seq<u8>)
    requires
        op.wf(),
        !(integer_result(op, m) is Halt),
        !(integer_result(op, m) is Nop),
        locks.len() == COUNT,
        forall|r: int| 0 <= r < COUNT ==> locks[r] < u8::MAX,
    ensures
        MemoryStage::start(integer_result(op, m)) matches MemoryState::Ready { result } && release_all(
            locked_all(locks, regs_from(op.spec_write_regs().0, 0)),
            released(result),
        ) == locks,
{
    law_integer_writeback_releases_decode_locks(op, m);
    let regs = regs_from(op.spec_write_regs().0, 0);
    lemma_regs_from_sorted(op.spec_write_regs().0, 0);
    assert forall|i: int| 0 <= i < regs.len() implies locks[#[trigger] regs[i] as int] < u8::MAX by {
        assert(regs[i] < COUNT);
    }
    lemma_release_locked(locks, regs);
}

impl Writeback {
    /// The result waiting to be written.
    pub closed spec fn job_of(&self) -> Option<MemoryResult> {
        self.job
    }

    /// A stage with nothing to write.
    pub fn new() -> (w: Writeback)
        ensures
            w.job_of() is None,
    {
        Writeback { job: None }
    }

    /// The result waiting to be written.
    pub fn get_state(&self) -> (j: Option<MemoryResult>)
        ensures
            j == self.job_of(),
    {
        self.job
    }

    /// Releases one lock on each register of a list, in order.
    fn release(locks: &mut Locks, regs: &Vec<Register>)
        ensures
            final(locks)@ == release_all(old(locks)@, regs@),
    {
        let mut k: usize = 0;
        proof {
            assert(regs@.take(0) =~= Seq::<Register>::empty());
        }
        while k < regs.len()
            invariant
                k <= regs@.len(),
                locks@ == release_all(old(locks)@, regs@.take(k as int)),
            decreases regs@.len() - k,
        {
            if (regs[k] as usize) < COUNT {
                locks.unlock(regs[k]);
            }
            proof {
                assert(regs@.take(k + 1).drop_last() =~= regs@.take(k as int));
            }
            k += 1;
        }
        proof {
            assert(regs@.take(regs@.len() as int) =~= regs@);
        }
    }

    /// Writes a register; a write past the last register is dropped.
    fn put(registers: &mut Registers, destination: Register, value: Word)
        ensures
            final(registers)@ == put(old(registers)@, destination, value),
    {
        if (destination as usize) < COUNT {
            registers.set(destination, value);
        }
    }

    /// Writes the status flags.
    fn set_flags(registers: &mut Registers, zf: bool, of: bool, eps: bool, nan: bool, inf: bool)
        ensures
            final(registers)@ == with_flags(old(registers)@, zf, of, eps, nan, inf),
    {
        registers.set(ZF, if zf { 1 } else { 0 });
        registers.set(OF, if of { 1 } else { 0 });
        registers.set(EPS, if eps { 1 } else { 0 });
        registers.set(NAN, if nan { 1 } else { 0 });
        registers.set(INF, if inf { 1 } else { 0 });
    }

    /// `after` is this stage once a clock has taken it along, with the registers, locks and memory module before and after, and the signal it passes on.
    pub open spec fn stepped<M: MemoryModule>(self, after: Self, clock: Clock, regs: Registers, regs_after: Registers, locks: Locks, locks_after: Locks, mem: M, mem_after: M, out: Clock) -> bool {
        &&& (after.job_of() is None)
        &&& (out == Clock::Ready(clock.count()))
        &&& (match self.job_of() {
            Some(j) => regs_after@ == normalized(written(regs@, j))
                && locks_after@ == release_all(locks@, released(j)),
            None => regs_after@ == normalized(regs@) && locks_after == locks,
        })
    }

    /// Writes the result taken in last to the registers, releases its locks,
    /// and keeps the pointer registers in range. A register number past the
    /// last register (a pop into one) names nothing to write or release.
    pub fn clock<M: MemoryModule>(
        &mut self,
        clock: Clock,
        registers: &mut Registers,
        locks: &mut Locks,
        memory: &mut M,
    ) -> (out: Clock)
        requires
            old(memory).inv(),
        ensures
            final(memory).inv(),
            old(self).stepped(*final(self), clock, *old(registers), *final(registers), *old(locks), *final(locks), *old(memory), *final(memory), out),
    {
        let taken = self.job;
        self.job = None;
        proof {
            registers.lemma_len();
        }
        match taken {
            Some(job) => {
                let list: Vec<Register> = match job {
                    MemoryResult::Squashed { wregs } | MemoryResult::Ignore { wregs } => {
                        proof {
                            lemma_regs_from_sorted(wregs.0, 0);
                        }
                        wregs.to_vec()
                    },
                    MemoryResult::WriteStatus { zf, of, eps, nan, inf } => {
                        Self::set_flags(registers, zf, of, eps, nan, inf);
                        vec![ZF, OF, EPS, NAN, INF]
                    },
                    MemoryResult::WriteRegNoStatus { destination, value } => {
                        Self::put(registers, destination, value);
                        vec![destination]
                    },
                    MemoryResult::WriteReg1 { destination, value, zf, of, eps, nan, inf } => {
                        Self::put(registers, destination, value);
                        Self::set_flags(registers, zf, of, eps, nan, inf);
                        vec![destination, ZF, OF, EPS, NAN, INF]
                    },
                    MemoryResult::WriteReg2 { destination, value, sp, zf, of, eps, nan, inf } => {
                        Self::put(registers, destination, value);
                        registers.set(SP, sp);
                        Self::set_flags(registers, zf, of, eps, nan, inf);
                        vec![destination, SP, ZF, OF, EPS, NAN, INF]
                    },
                    MemoryResult::JumpSubroutine { address, link, sp, bp } => {
                        registers.set(PC, address);
                        registers.set(LP, link);
                        registers.set(SP, sp);
                        registers.set(BP, bp);
                        vec![PC, LP, SP, BP]
                    },
                    MemoryResult::Jump { address } => {
                        registers.set(PC, address);
                        vec![PC]
                    },
                    MemoryResult::Return { address, bp, sp, lp } => {
                        registers.set(PC, address);
                        registers.set(LP, lp);
                        registers.set(BP, bp);
                        registers.set(SP, sp);
                        vec![PC, LP, BP, SP]
                    },
                    _ => Vec::new(),
                };
                proof {
                    assert(list@ =~= released(job));
                }
                Self::release(locks, &list);
            },
            None => {},
        }
        let sp = registers.get(SP);
        registers.set(SP, sp % (PAGE_SIZE as Word));
        let bp = registers.get(BP);
        registers.set(BP, bp % (PAGE_SIZE as Word));
        let pc = registers.get(PC);
        registers.set(PC, pc & 0xFFFF_FFFC);
        let lp = registers.get(LP);
        registers.set(LP, lp & 0xFFFF_FFFC);
        clock.to_ready()
    }

    /// `after` is this stage once it has taken in `input`, whatever it handed
    /// on.
    pub open spec fn took(self, after: Self, input: Status<MemoryResult>) -> bool {
        exists|out: Status<()>| #[trigger] self.passed(after, input, out)
    }

    /// `after` is this stage once it has taken in `input` and handed on `out`.
    pub open spec fn passed(self, after: Self, input: Status<MemoryResult>, out: Status<()>) -> bool {
        &&& (match input {
            Status::Flow(j, b) => after.job_of() == Some(j) && out == Status::Flow((), b),
            Status::Stall(c) => after.job_of() == self.job_of() && out == Status::<()>::Stall(c),
            Status::Ready(n, _) => after.job_of() == self.job_of() && out == Status::<()>::Stall(n),
            Status::Squashed(n) => after.job_of() == self.job_of() && out == Status::<()>::Squashed(n),
            Status::Dry => after.job_of() == self.job_of() && out == Status::<()>::Dry,
        })
    }

    /// Takes in what the memory stage forwards.
    pub fn forward(&mut self, input: Status<MemoryResult>) -> (out: Status<()>)
        ensures
            old(self).passed(*final(self), input, out),
    {
        match input {
            Status::Stall(c) => Status::Stall(c),
            Status::Flow(j, b) => {
                self.job = Some(j);
                Status::Flow((), b)
            },
            Status::Ready(n, _) => Status::Stall(n),
            Status::Squashed(n) => Status::Squashed(n),
            Status::Dry => Status::Dry,
        }
    }
}

impl Default for Writeback {
    fn default() -> (w: Writeback)
        ensures
            w.job_of() is None,
    {
        Writeback::new()
    }
}

/// Each status register holds 1 exactly when its own flag is set, 0 otherwise.
pub open spec fn holds_flags(r: Seq<Word>, zf: bool, of: bool, eps: bool, nan: bool, inf: bool) -> bool {
    &&& r[ZF as int] == (if zf { 1u32 } else { 0u32 })
    &&& r[OF as int] == (if of { 1u32 } else { 0u32 })
    &&& r[EPS as int] == (if eps { 1u32 } else { 0u32 })
    &&& r[NAN as int] == (if nan { 1u32 } else { 0u32 })
    &&& r[INF as int] == (if inf { 1u32 } else { 0u32 })
}

/// After the writeback of a result that sets status flags, each status
/// register takes its own flag; a register write puts the value in its
/// general-purpose destination; a status write leaves every general-purpose
/// register as it was.
pub proof fn law_writeback_sets_each_flag<M: MemoryModule>(
    w: Writeback,
    after: Writeback,
    clock: Clock,
    regs: Registers,
    regs_after: Registers,
    locks: Locks,
    locks_after: Locks,
    mem: M,
    mem_after: M,
    out: Clock,
)
    requires
        w.stepped(after, clock, regs, regs_after, locks, locks_after, mem, mem_after, out),
        regs@.len() == COUNT,
    ensures
        match w.job_of() {
            Some(MemoryResult::WriteStatus { zf, of, eps, nan, inf }) => holds_flags(regs_after@, zf, of, eps, nan, inf)
                && forall|i: int| 0 <= i < 16 ==> regs_after@[i] == regs@[i],
            Some(MemoryResult::WriteReg1 { destination, value, zf, of, eps, nan, inf }) => holds_flags(
                regs_after@,
                zf,
                of,
                eps,
                nan,
                inf,
            ) && (destination < 16 ==> regs_after@[destination as int] == value),
            Some(MemoryResult::WriteReg2 { destination, value, zf, of, eps, nan, inf, .. }) => holds_flags(
                regs_after@,
                zf,
                of,
                eps,
                nan,
                inf,
            ) && (destination < 16 ==> regs_after@[destination as int] == value),
            _ => true,
        },
{
}

/// After the writeback of a jump, call or return, the program counter holds
/// the target and the link pointer the return address, each rounded down to
/// a multiple of four, and the stack and base pointers hold their new values
/// within the stack page.
pub proof fn law_writeback_of_control_transfers<M: MemoryModule>(
    w: Writeback,
    after: Writeback,
    clock: Clock,
    regs: Registers,
    regs_after: Registers,
    locks: Locks,
    locks_after: Locks,
    mem: M,
    mem_after: M,
    out: Clock,
)
    requires
        w.stepped(after, clock, regs, regs_after, locks, locks_after, mem, mem_after, out),
        regs@.len() == COUNT,
    ensures
        match w.job_of() {
            Some(MemoryResult::Jump { address }) => regs_after@[PC as int] == address & 0xFFFF_FFFC,
            Some(MemoryResult::JumpSubroutine { address, link, sp, bp }) => regs_after@[PC as int] == address
                & 0xFFFF_FFFC && regs_after@[LP as int] == link & 0xFFFF_FFFC && regs_after@[SP as int] as int
                == sp as int % 0x1_0000 && regs_after@[BP as int] as int == bp as int % 0x1_0000,
            Some(MemoryResult::Return { address, bp, sp, lp }) => regs_after@[PC as int] == address & 0xFFFF_FFFC
                && regs_after@[LP as int] == lp & 0xFFFF_FFFC && regs_after@[SP as int] as int == sp as int
                % 0x1_0000 && regs_after@[BP as int] as int == bp as int % 0x1_0000,
            _ => true,
        },
{
}

} // verus!
