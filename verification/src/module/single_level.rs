//! A memory hierarchy with one level of cache: a data cache and an
//! instruction cache in front of the main memory.
use crate::cache::model::{law_cache_fill_then_hit, law_cache_read_after_write, wrap, CacheModel};
use crate::cache::sets::step_address;
use crate::cache::{self, shows_slot, Cache, LineReadStatus};
use crate::memory::Memory;
use crate::module::{CacheData, MemoryModule, Status};
use crate::types::{Byte, Short, Word};
use vstd::prelude::*;

verus! {

/// A memory transaction in progress.
#[derive(Debug, Clone, Copy, PartialEq, Eq, Structural)]
pub enum Transaction {
    /// No transaction is in progress.
    Idle,
    /// Reading a byte through the data cache.
    ReadByte(Word),
    /// Reading a short through the data cache.
    ReadShort(Word),
    /// Reading a word through the data cache.
    ReadWord(Word),
    /// Reading an instruction through the instruction cache.
    ReadInstruction(Word),
    /// Writing a byte; the flag marks a volatile write.
    WriteByte(Word, Byte, bool),
    /// Writing a short; the flag marks a volatile write.
    WriteShort(Word, Short, bool),
    /// Writing a word; the flag marks a volatile write.
    WriteWord(Word, Word, bool),
    /// Reading a byte from main memory, bypassing the cache.
    ReadByteV(Word),
    /// Reading a short from main memory, bypassing the cache.
    ReadShortV(Word),
    /// Reading a word from main memory, bypassing the cache.
    ReadWordV(Word),
    /// Reading an instruction word from main memory, for a disabled
    /// instruction cache.
    ReadInstructionV(Word),
    /// Writing the data cache back to main memory.
    FlushCache,
}

impl Transaction {
    /// The transaction keeps the data path busy.
    pub open spec fn data_busy(self) -> bool {
        !(self is Idle || self is ReadInstruction || self is ReadInstructionV)
    }

    /// A transaction is in progress.
    pub open spec fn active(self) -> bool {
        !(self is Idle)
    }

    /// Whether the transaction keeps the data path busy.
    pub fn busy_data(&self) -> (b: bool)
        ensures
            b == self.data_busy(),
    {
        match self {
            Transaction::Idle | Transaction::ReadInstruction(_) | Transaction::ReadInstructionV(_) => false,
            _ => true,
        }
    }

    /// Whether the transaction is an instruction read.
    pub fn busy_instruction(&self) -> (b: bool)
        ensures
            b == (*self is ReadInstruction || *self is ReadInstructionV),
    {
        match self {
            Transaction::ReadInstruction(_) | Transaction::ReadInstructionV(_) => true,
            _ => false,
        }
    }

    /// Whether a transaction is in progress.
    pub fn is_busy(&self) -> (b: bool)
        ensures
            b == self.active(),
    {
        match self {
            Transaction::Idle => false,
            _ => true,
        }
    }
}

/// Adds one, staying at the maximum.
pub open spec fn inc(x: usize) -> usize {
    if x < usize::MAX {
        (x + 1) as usize
    } else {
        x
    }
}

/// The counters of a memory module.
#[derive(Debug, Clone, Copy, PartialEq, Eq, Structural)]
pub struct Stats {
    pub cold_misses: usize,
    pub conflict_misses: usize,
    pub hits: usize,
    pub accesses: usize,
    pub last_access_miss: bool,
    pub evictions: usize,
}

impl Stats {
    /// After a hit: a hit that completes a missed access is not counted
    /// again, it only clears the miss flag.
    pub open spec fn on_hit(self) -> Stats {
        if self.last_access_miss {
            Stats { last_access_miss: false, ..self }
        } else {
            Stats { accesses: inc(self.accesses), hits: inc(self.hits), ..self }
        }
    }

    /// After a miss of the given kind, counted only when no transaction is
    /// in progress.
    pub open spec fn on_miss(self, kind: cache::Status, busy: bool) -> Stats {
        if busy {
            self
        } else if kind == cache::Status::Cold {
            Stats {
                accesses: inc(self.accesses),
                cold_misses: inc(self.cold_misses),
                last_access_miss: true,
                ..self
            }
        } else if kind == cache::Status::Conflict {
            Stats {
                accesses: inc(self.accesses),
                conflict_misses: inc(self.conflict_misses),
                last_access_miss: true,
                ..self
            }
        } else {
            self
        }
    }

    /// After a line fill that may have evicted a line.
    pub open spec fn on_fill(self, s: LineReadStatus) -> Stats {
        if s == LineReadStatus::Evicted {
            Stats { evictions: inc(self.evictions), ..self }
        } else {
            self
        }
    }
}

/// A count of clocks, staying at the maximum.
pub open spec fn sat(x: int) -> int {
    if x <= usize::MAX {
        x
    } else {
        usize::MAX as int
    }
}

/// Whether a cache status is a miss.
pub open spec fn missed(s: cache::Status) -> bool {
    s == cache::Status::Cold || s == cache::Status::Conflict
}

/// `extra` when the status is a miss, zero otherwise.
pub open spec fn if_missed(s: cache::Status, extra: int) -> int {
    if missed(s) {
        extra
    } else {
        0
    }
}

/// What completing a transaction leaves: the two caches, the main memory and
/// the counters.
pub struct Outcome {
    pub data: CacheModel,
    pub instructions: CacheModel,
    pub memory: Seq<Byte>,
    pub stats: Stats,
}

/// A memory module with a single level of cache.
pub struct SingleLevel<D: Cache, I: Cache> {
    data_cache: D,
    instruction_cache: I,
    memory: Memory,
    read_miss_penalty: usize,
    write_miss_penalty: usize,
    volatile_penalty: usize,
    writethrough: bool,
    current_transaction: Transaction,
    clocks: usize,
    stats: Stats,
}

impl<D: Cache, I: Cache> SingleLevel<D, I> {
    /// The data cache's contents.
    pub closed spec fn data_contents(self) -> CacheModel {
        self.data_cache.model()
    }

    /// The instruction cache's contents.
    pub closed spec fn instruction_contents(self) -> CacheModel {
        self.instruction_cache.model()
    }

    /// The main memory.
    pub closed spec fn main_memory(self) -> Memory {
        self.memory
    }

    /// The transaction in progress.
    pub closed spec fn pending(self) -> Transaction {
        self.current_transaction
    }

    /// The clocks until the transaction is due.
    pub closed spec fn wait(self) -> usize {
        self.clocks
    }

    /// The counters.
    pub closed spec fn counters(self) -> Stats {
        self.stats
    }

    /// The clocks a miss of the cache costs on a read.
    pub closed spec fn read_penalty(self) -> usize {
        self.read_miss_penalty
    }

    /// The clocks a miss of the cache costs on a write.
    pub closed spec fn write_penalty(self) -> usize {
        self.write_miss_penalty
    }

    /// The clocks an access to main memory costs.
    pub closed spec fn volatile(self) -> usize {
        self.volatile_penalty
    }

    /// Whether writes that miss go straight to main memory.
    pub closed spec fn write_through(self) -> bool {
        self.writethrough
    }

    /// The module is well formed.
    pub closed spec fn wf(self) -> bool {
        &&& self.data_cache.inv()
        &&& self.instruction_cache.inv()
        &&& self.memory.wf()
    }

    /// `after` starts transaction `t` with `clocks` to wait when `self` has
    /// none in progress, and keeps the current one otherwise.
    pub open spec fn starts(self, after: Self, t: Transaction, clocks: int) -> bool {
        if self.pending().active() {
            after.pending() == self.pending() && after.wait() == self.wait()
        } else {
            after.pending() == t && after.wait() == clocks
        }
    }

    /// `after` differs from `self` only in the data cache and the counters.
    pub open spec fn keeps_rest(self, after: Self) -> bool {
        &&& after.instruction_contents() == self.instruction_contents()
        &&& after.main_memory() == self.main_memory()
        &&& after.read_penalty() == self.read_penalty()
        &&& after.write_penalty() == self.write_penalty()
        &&& after.volatile() == self.volatile()
        &&& after.write_through() == self.write_through()
    }

    /// `after` and `r` are the module and the answer once a read of the
    /// byte at `addr` from main memory took the module from `self`: the first
    /// read starts the transaction, a read once it is due gives the byte at
    /// the address it was started with.
    pub open spec fn volatile_byte_read(self, after: Self, addr: Word, r: Result<Byte, Status>) -> bool {
        &&& self.keeps_rest(after)
        &&& after.data_contents() == self.data_contents()
        &&& after.counters() == self.counters()
        &&& match self.pending() {
            Transaction::ReadByteV(a) => if self.wait() == 0 {
                r == Ok::<Byte, Status>(self.main_memory().byte_at(a as int))
                    && after.pending() == Transaction::Idle && after.wait() == 0
            } else {
                r == Err::<Byte, Status>(Status::Busy(self.wait())) && after.pending()
                    == self.pending() && after.wait() == self.wait()
            },
            _ => self.starts(after, Transaction::ReadByteV(addr), self.volatile() as int)
                && r == Err::<Byte, Status>(Status::Busy(after.wait())),
        }
    }

    /// `after` and `r` are the module and the answer once a read of the
    /// short at `addr` from main memory took the module from `self`: the first
    /// read starts the transaction, a read once it is due gives the short at
    /// the address it was started with.
    pub open spec fn volatile_short_read(self, after: Self, addr: Word, r: Result<Short, Status>) -> bool {
        &&& self.keeps_rest(after)
        &&& after.data_contents() == self.data_contents()
        &&& after.counters() == self.counters()
        &&& match self.pending() {
            Transaction::ReadShortV(a) => if self.wait() == 0 {
                r == Ok::<Short, Status>(self.main_memory().short_at(a as int))
                    && after.pending() == Transaction::Idle && after.wait() == 0
            } else {
                r == Err::<Short, Status>(Status::Busy(self.wait())) && after.pending()
                    == self.pending() && after.wait() == self.wait()
            },
            _ => self.starts(
                after,
                Transaction::ReadShortV(addr),
                sat(self.volatile() + if addr % 2 != 0 { self.volatile() as int } else { 0 }),
            ) && r == Err::<Short, Status>(Status::Busy(after.wait())),
        }
    }

    /// `after` and `r` are the module and the answer once a read of the
    /// word at `addr` from main memory took the module from `self`: the first
    /// read starts the transaction, a read once it is due gives the word at
    /// the address it was started with.
    pub open spec fn volatile_word_read(self, after: Self, addr: Word, r: Result<Word, Status>) -> bool {
        &&& self.keeps_rest(after)
        &&& after.data_contents() == self.data_contents()
        &&& after.counters() == self.counters()
        &&& match self.pending() {
            Transaction::ReadWordV(a) => if self.wait() == 0 {
                r == Ok::<Word, Status>(self.main_memory().word_at(a as int))
                    && after.pending() == Transaction::Idle && after.wait() == 0
            } else {
                r == Err::<Word, Status>(Status::Busy(self.wait())) && after.pending()
                    == self.pending() && after.wait() == self.wait()
            },
            _ => self.starts(
                after,
                Transaction::ReadWordV(addr),
                sat(self.volatile() + if addr % 4 != 0 { 3 * self.volatile() } else { 0 }),
            ) && r == Err::<Word, Status>(Status::Busy(after.wait())),
        }
    }

    /// `after` and `r` are the module and the answer once a write of the
    /// byte `value` to `addr` in main memory took the module from `self`: it
    /// starts unless a transaction is in progress.
    pub open spec fn volatile_byte_write(self, after: Self, addr: Word, value: Byte, r: Status) -> bool {
        &&& after == self || self.starts(
            after,
            Transaction::WriteByte(addr, value, true),
            self.volatile() as int,
        )
        &&& self.pending().active() ==> r == Status::Busy(self.wait()) && after == self
        &&& !self.pending().active() ==> after.pending() == Transaction::WriteByte(addr, value, true)
            && after.wait() == self.volatile() && r == Status::Busy(self.volatile())
        &&& self.keeps_rest(after)
        &&& after.data_contents() == self.data_contents()
        &&& after.counters() == self.counters()
    }

    /// `after` and `r` are the module and the answer once a write of the
    /// short `value` to `addr` in main memory took the module from `self`: it
    /// starts unless a transaction is in progress.
    pub open spec fn volatile_short_write(self, after: Self, addr: Word, value: Short, r: Status) -> bool {
        &&& self.pending().active() ==> r == Status::Busy(self.wait()) && after == self
        &&& !self.pending().active() ==> after.pending() == Transaction::WriteShort(addr, value, true)
            && after.wait() == sat(self.volatile() + (if addr % 2 == 0 { self.volatile() as int } else { 0 }))
            && r == Status::Busy(after.wait())
        &&& self.keeps_rest(after)
        &&& after.data_contents() == self.data_contents()
        &&& after.counters() == self.counters()
    }

    /// `after` and `r` are the module and the answer once a write of the
    /// word `value` to `addr` in main memory took the module from `self`: it
    /// starts unless a transaction is in progress.
    pub open spec fn volatile_word_write(self, after: Self, addr: Word, value: Word, r: Status) -> bool {
        &&& self.pending().active() ==> r == Status::Busy(self.wait()) && after == self
        &&& !self.pending().active() ==> after.pending() == Transaction::WriteWord(addr, value, true)
            && after.wait() == sat(self.volatile() + (if addr % 4 == 0 { 3 * self.volatile() } else { 0 }))
            && r == Status::Busy(after.wait())
        &&& self.keeps_rest(after)
        &&& after.data_contents() == self.data_contents()
        &&& after.counters() == self.counters()
    }

    /// The caches, memory and counters once the pending transaction is done.
    pub open spec fn completion(self) -> Outcome {
        let d = self.data_contents();
        let ins = self.instruction_contents();
        let mem = self.main_memory();
        let st = self.counters();
        let same = Outcome { data: d, instructions: ins, memory: mem@, stats: st };
        match self.pending() {
            Transaction::WriteByte(a, v, volatile) => if volatile {
                Outcome { data: d.invalidate(a as int).0, memory: mem.with_byte(a as int, v), ..same }
            } else if self.write_through() {
                Outcome { memory: mem.with_byte(a as int, v), ..same }
            } else {
                let (d1, m1, s1) = d.write_line(a as int, mem@);
                Outcome { data: d1.write_byte(a as int, v).0, memory: m1, stats: st.on_fill(s1), ..same }
            },
            Transaction::WriteShort(a, v, volatile) => if volatile {
                Outcome { data: d.invalidate(a as int).0, memory: mem.with_short(a as int, v), ..same }
            } else if self.write_through() {
                Outcome { memory: mem.with_short(a as int, v), ..same }
            } else {
                let o = self.fill_two(a as int, 1);
                Outcome { data: o.data.write_short(a as int, v).0, ..o }
            },
            Transaction::WriteWord(a, v, volatile) => if volatile {
                Outcome { data: d.invalidate(a as int).0, memory: mem.with_word(a as int, v), ..same }
            } else if self.write_through() {
                Outcome { memory: mem.with_word(a as int, v), ..same }
            } else {
                let o = self.fill_two(a as int, 3);
                Outcome { data: o.data.write_word(a as int, v).0, ..o }
            },
            Transaction::ReadByte(a) => {
                let (d1, m1, s1) = d.write_line(a as int, mem@);
                Outcome { data: d1, memory: m1, stats: st.on_fill(s1), ..same }
            },
            Transaction::ReadShort(a) => self.fill_two(a as int, 1),
            Transaction::ReadWord(a) => self.fill_two(a as int, 3),
            Transaction::ReadInstruction(a) => {
                let (i1, m1, _) = ins.write_line(a as int, mem@);
                Outcome { instructions: i1, memory: m1, ..same }
            },
            Transaction::FlushCache => {
                let (d1, m1, _) = d.flush(mem@);
                Outcome { data: d1, memory: m1, ..same }
            },
            _ => same,
        }
    }

    /// Brings the line of `a` into the data cache, then the line of the byte
    /// `k` after it when that one misses.
    pub open spec fn fill_two(self, a: int, k: int) -> Outcome {
        let st = self.counters();
        let (d1, m1, s1) = self.data_contents().write_line(a, self.main_memory()@);
        let a1 = wrap(a, k);
        if missed(d1.check(a1)) {
            let (d2, m2, s2) = d1.write_line(a1, m1);
            Outcome { data: d2, instructions: self.instruction_contents(), memory: m2, stats: st.on_fill(s1).on_fill(s2) }
        } else {
            Outcome { data: d1, instructions: self.instruction_contents(), memory: m1, stats: st.on_fill(s1) }
        }
    }
}

impl<D: Cache, I: Cache> SingleLevel<D, I> {
    /// Creates a single-level memory module.
    ///
    /// - `data_cache`: the cache for data
    /// - `instruction_cache`: the cache for instructions
    /// - `memory`: the main memory
    /// - `miss_penalty`: the clocks a cache miss costs
    /// - `volatile_penalty`: the clocks an access to main memory costs
    /// - `writethrough`: whether writes that miss go straight to main memory
    ///
    /// A misaligned access costs one clock more, plus another miss penalty
    /// when its second part misses too.
    pub fn new(
        data_cache: D,
        instruction_cache: I,
        memory: Memory,
        miss_penalty: usize,
        volatile_penalty: usize,
        writethrough: bool,
    ) -> (m: Self)
        requires
            data_cache.inv(),
            instruction_cache.inv(),
            memory.wf(),
        ensures
            m.wf(),
            m.inv(),
            m.data_contents() == data_cache.model(),
            m.instruction_contents() == instruction_cache.model(),
            m.main_memory() == memory,
            m.read_penalty() == miss_penalty,
            m.write_penalty() == if writethrough {
                volatile_penalty
            } else {
                miss_penalty
            },
            m.volatile() == volatile_penalty,
            m.write_through() == writethrough,
            m.pending() == Transaction::Idle,
            m.wait() == 0,
            m.counters() == (Stats {
                cold_misses: 0,
                conflict_misses: 0,
                hits: 0,
                accesses: 0,
                last_access_miss: false,
                evictions: 0,
            }),
    {
        SingleLevel {
            data_cache,
            instruction_cache,
            memory,
            read_miss_penalty: miss_penalty,
            write_miss_penalty: if writethrough {
                volatile_penalty
            } else {
                miss_penalty
            },
            volatile_penalty,
            writethrough,
            current_transaction: Transaction::Idle,
            clocks: 0,
            stats: Stats {
                cold_misses: 0,
                conflict_misses: 0,
                hits: 0,
                accesses: 0,
                last_access_miss: false,
                evictions: 0,
            },
        }
    }

    /// Creates a single-level memory module from boxed caches.
    pub fn new_with_boxed(
        data_cache: Box<D>,
        instruction_cache: Box<I>,
        memory: Memory,
        miss_penalty: usize,
        volatile_penalty: usize,
        writethrough: bool,
    ) -> (m: Self)
        requires
            data_cache.inv(),
            instruction_cache.inv(),
            memory.wf(),
        ensures
            m.wf(),
            m.inv(),
            m.data_contents() == data_cache.model(),
            m.instruction_contents() == instruction_cache.model(),
            m.main_memory() == memory,
            m.pending() == Transaction::Idle,
            m.wait() == 0,
    {
        Self::new(*data_cache, *instruction_cache, memory, miss_penalty, volatile_penalty, writethrough)
    }

    /// The data cache.
    pub fn data_cache(&self) -> (c: &D)
        ensures
            c.model() == self.data_contents(),
    {
        &self.data_cache
    }

    /// The instruction cache.
    pub fn instruction_cache(&self) -> (c: &I)
        ensures
            c.model() == self.instruction_contents(),
    {
        &self.instruction_cache
    }

    /// The counters.
    pub fn stats(&self) -> (s: Stats)
        ensures
            s == self.counters(),
    {
        self.stats
    }

    /// The transaction in progress.
    pub fn transaction(&self) -> (t: Transaction)
        ensures
            t == self.pending(),
    {
        self.current_transaction
    }

    /// Starts a transaction unless one is in progress; gives the wait of the
    /// transaction in progress after that.
    fn set_if_idle(&mut self, transaction: Transaction, clocks: usize) -> (s: Status)
        ensures
            old(self).starts(*final(self), transaction, clocks as int),
            s == Status::Busy(final(self).wait()),
            final(self).data_contents() == old(self).data_contents(),
            old(self).keeps_rest(*final(self)),
            final(self).counters() == old(self).counters(),
            final(self).wf() == old(self).wf(),
    {
        if !self.current_transaction.is_busy() {
            self.clocks = clocks;
            self.current_transaction = transaction;
        }
        Status::Busy(self.clocks)
    }

    /// Counts a hit, unless it completes a missed access.
    fn hit(&mut self)
        ensures
            final(self).counters() == old(self).counters().on_hit(),
            final(self).pending() == old(self).pending(),
            final(self).wait() == old(self).wait(),
            final(self).data_contents() == old(self).data_contents(),
            old(self).keeps_rest(*final(self)),
            final(self).wf() == old(self).wf(),
    {
        if self.stats.last_access_miss {
            self.stats.last_access_miss = false;
        } else {
            self.stats.accesses = self.stats.accesses.saturating_add(1);
            self.stats.hits = self.stats.hits.saturating_add(1);
        }
    }

    /// Counts a miss of the given kind unless a transaction is in progress.
    fn miss(&mut self, kind: cache::Status)
        ensures
            final(self).counters() == old(self).counters().on_miss(kind, old(self).pending().active()),
            final(self).pending() == old(self).pending(),
            final(self).wait() == old(self).wait(),
            final(self).data_contents() == old(self).data_contents(),
            old(self).keeps_rest(*final(self)),
            final(self).wf() == old(self).wf(),
    {
        if !self.current_transaction.is_busy() {
            match kind {
                cache::Status::Cold => {
                    self.stats.accesses = self.stats.accesses.saturating_add(1);
                    self.stats.cold_misses = self.stats.cold_misses.saturating_add(1);
                    self.stats.last_access_miss = true;
                },
                cache::Status::Conflict => {
                    self.stats.accesses = self.stats.accesses.saturating_add(1);
                    self.stats.conflict_misses = self.stats.conflict_misses.saturating_add(1);
                    self.stats.last_access_miss = true;
                },
                _ => {},
            }
        }
    }

    /// Brings a line into the data cache, counting an eviction.
    fn fill_data(&mut self, addr: Word)
        requires
            old(self).wf(),
        ensures
            final(self).wf(),
            final(self).main_memory().page_count() == old(self).main_memory().page_count(),
            ({
                let (d1, m1, s1) = old(self).data_contents().write_line(addr as int, old(self).main_memory()@);
                &&& final(self).data_contents() == d1
                &&& final(self).main_memory()@ == m1
                &&& final(self).counters() == old(self).counters().on_fill(s1)
            }),
            final(self).instruction_contents() == old(self).instruction_contents(),
            final(self).pending() == old(self).pending(),
            final(self).wait() == old(self).wait(),
            final(self).read_penalty() == old(self).read_penalty(),
            final(self).write_penalty() == old(self).write_penalty(),
            final(self).volatile() == old(self).volatile(),
            final(self).write_through() == old(self).write_through(),
    {
        let s = self.data_cache.write_line(addr, &mut self.memory);
        if s.evicted() {
            self.stats.evictions = self.stats.evictions.saturating_add(1);
        }
    }

    /// Brings the line of `addr` into the data cache, then the line of the
    /// byte `k` after it when that one misses.
    fn fill_data_two(&mut self, addr: Word, k: Word)
        requires
            old(self).wf(),
        ensures
            final(self).wf(),
            final(self).main_memory().page_count() == old(self).main_memory().page_count(),
            ({
                let o = old(self).fill_two(addr as int, k as int);
                &&& final(self).data_contents() == o.data
                &&& final(self).main_memory()@ == o.memory
                &&& final(self).counters() == o.stats
            }),
            final(self).instruction_contents() == old(self).instruction_contents(),
            final(self).pending() == old(self).pending(),
            final(self).wait() == old(self).wait(),
            final(self).read_penalty() == old(self).read_penalty(),
            final(self).write_penalty() == old(self).write_penalty(),
            final(self).volatile() == old(self).volatile(),
            final(self).write_through() == old(self).write_through(),
    {
        self.fill_data(addr);
        let next = step_address(addr, k);
        if self.data_cache.check_address(next).is_miss() {
            self.fill_data(next);
        }
    }
}

/// A cache read never reports a hit as a failure.
proof fn lemma_no_failed_hit(m: CacheModel, address: int)
    ensures
        m.read_byte(address).1 != Err::<Byte, cache::Status>(cache::Status::Hit),
        m.read_short(address).1 != Err::<Short, cache::Status>(cache::Status::Hit),
        m.read_word(address).1 != Err::<Word, cache::Status>(cache::Status::Hit),
{
}

impl<D: Cache, I: Cache> MemoryModule for SingleLevel<D, I> {
    closed spec fn inv(&self) -> bool {
        self.wf()
    }

    open spec fn instruction_read(&self, addr: Word, after: Self) -> Result<Word, Status> {
        if self.instruction_contents() is Disabled {
            match self.pending() {
                Transaction::ReadInstructionV(a) => if self.wait() == 0 {
                    Ok(self.main_memory().word_at(a as int))
                } else {
                    Err(Status::Busy(self.wait()))
                },
                _ => Err(Status::Busy(after.wait())),
            }
        } else if self.pending() is ReadInstruction || self.pending() is ReadInstructionV {
            Err(Status::Busy(self.wait()))
        } else {
            match self.instruction_contents().read_word(addr as int).1 {
                Ok(v) => Ok(v),
                Err(_) => Err(Status::Busy(after.wait())),
            }
        }
    }

    open spec fn writeback_answer(&self, after: Self) -> Status {
        if self.pending().active() {
            Status::Busy(self.wait())
        } else {
            Status::Idle
        }
    }

    open spec fn byte_read(&self, addr: Word, volatile: bool, after: Self) -> Result<Byte, Status> {
        if volatile || self.data_contents() is Disabled {
            match self.pending() {
                Transaction::ReadByteV(a) => if self.wait() == 0 {
                    Ok(self.main_memory().byte_at(a as int))
                } else {
                    Err(Status::Busy(self.wait()))
                },
                _ => Err(Status::Busy(after.wait())),
            }
        } else if self.pending().data_busy() {
            Err(Status::Busy(self.wait()))
        } else {
            match self.data_contents().read_byte(addr as int).1 {
                Ok(v) => Ok(v),
                Err(_) => Err(Status::Busy(after.wait())),
            }
        }
    }

    open spec fn short_read(&self, addr: Word, volatile: bool, after: Self) -> Result<Short, Status> {
        if volatile || self.data_contents() is Disabled {
            match self.pending() {
                Transaction::ReadShortV(a) => if self.wait() == 0 {
                    Ok(self.main_memory().short_at(a as int))
                } else {
                    Err(Status::Busy(self.wait()))
                },
                _ => Err(Status::Busy(after.wait())),
            }
        } else if self.pending().data_busy() {
            Err(Status::Busy(self.wait()))
        } else {
            match self.data_contents().read_short(addr as int).1 {
                Ok(v) => Ok(v),
                Err(_) => Err(Status::Busy(after.wait())),
            }
        }
    }

    open spec fn word_read(&self, addr: Word, volatile: bool, after: Self) -> Result<Word, Status> {
        if volatile || self.data_contents() is Disabled {
            match self.pending() {
                Transaction::ReadWordV(a) => if self.wait() == 0 {
                    Ok(self.main_memory().word_at(a as int))
                } else {
                    Err(Status::Busy(self.wait()))
                },
                _ => Err(Status::Busy(after.wait())),
            }
        } else if self.pending().data_busy() {
            Err(Status::Busy(self.wait()))
        } else {
            match self.data_contents().read_word(addr as int).1 {
                Ok(v) => Ok(v),
                Err(_) => Err(Status::Busy(after.wait())),
            }
        }
    }

    open spec fn byte_write(&self, addr: Word, value: Byte, volatile: bool, after: Self) -> Status {
        if volatile || self.data_contents() is Disabled {
            if self.pending().active() {
                Status::Busy(self.wait())
            } else {
                Status::Busy(after.wait())
            }
        } else if self.pending().data_busy() {
            Status::Busy(self.wait())
        } else if self.data_contents().write_byte(addr as int, value).1 == cache::Status::Hit {
            Status::Idle
        } else {
            Status::Busy(after.wait())
        }
    }

    open spec fn short_write(&self, addr: Word, value: Short, volatile: bool, after: Self) -> Status {
        if volatile || self.data_contents() is Disabled {
            if self.pending().active() {
                Status::Busy(self.wait())
            } else {
                Status::Busy(after.wait())
            }
        } else if self.pending().data_busy() {
            Status::Busy(self.wait())
        } else if self.data_contents().write_short(addr as int, value).1 == cache::Status::Hit {
            Status::Idle
        } else {
            Status::Busy(after.wait())
        }
    }

    open spec fn word_write(&self, addr: Word, value: Word, volatile: bool, after: Self) -> Status {
        if volatile || self.data_contents() is Disabled {
            if self.pending().active() {
                Status::Busy(self.wait())
            } else {
                Status::Busy(after.wait())
            }
        } else if self.pending().data_busy() {
            Status::Busy(self.wait())
        } else if self.data_contents().write_word(addr as int, value).1 == cache::Status::Hit {
            Status::Idle
        } else {
            Status::Busy(after.wait())
        }
    }

    /// The count goes down by `amount`, stopping at zero; when it reaches
    /// zero, the pending transaction (other than a volatile read, which its
    /// read collects) is carried out and the module becomes idle; otherwise
    /// nothing else changes.
    open spec fn clocked(&self, amount: usize, after: Self) -> bool {
        &&& after.wait() == if self.wait() >= amount {
            self.wait() - amount
        } else {
            0
        }
        &&& after.main_memory().page_count() == self.main_memory().page_count()
        &&& ({
            let fires = after.wait() == 0 && !(self.pending() is Idle || self.pending() is ReadByteV
                || self.pending() is ReadShortV || self.pending() is ReadWordV || self.pending() is ReadInstructionV);
            let o = self.completion();
            &&& fires ==> after.pending() == Transaction::Idle
                && after.data_contents() == o.data
                && after.instruction_contents() == o.instructions
                && after.main_memory()@ == o.memory
                && after.counters() == o.stats
            &&& !fires ==> after.pending() == self.pending()
                && after.data_contents() == self.data_contents()
                && after.instruction_contents() == self.instruction_contents()
                && after.main_memory() == self.main_memory()
                && after.counters() == self.counters()
        })
    }

    /// Counts the clocks down; when the count reaches zero, the pending
    /// transaction (other than a volatile read, which its read collects)
    /// completes and the module becomes idle.
    fn clock(&mut self, amount: usize)
    {
        self.clocks = self.clocks.saturating_sub(amount);
        if self.clocks == 0 {
            match self.current_transaction {
                Transaction::WriteByte(addr, value, volatile) => {
                    if volatile {
                        self.data_cache.invalidate_line(addr);
                        self.memory.write_byte(addr, value);
                    } else if self.writethrough {
                        self.memory.write_byte(addr, value);
                    } else {
                        self.fill_data(addr);
                        self.data_cache.write_byte(addr, value);
                    }
                },
                Transaction::WriteShort(addr, value, volatile) => {
                    if volatile {
                        self.data_cache.invalidate_line(addr);
                        self.memory.write_short(addr, value);
                    } else if self.writethrough {
                        self.memory.write_short(addr, value);
                    } else {
                        self.fill_data_two(addr, 1);
                        self.data_cache.write_short(addr, value);
                    }
                },
                Transaction::WriteWord(addr, value, volatile) => {
                    if volatile {
                        self.data_cache.invalidate_line(addr);
                        self.memory.write_word(addr, value);
                    } else if self.writethrough {
                        self.memory.write_word(addr, value);
                    } else {
                        self.fill_data_two(addr, 3);
                        self.data_cache.write_word(addr, value);
                    }
                },
                Transaction::ReadByte(addr) => {
                    self.fill_data(addr);
                },
                Transaction::ReadShort(addr) => {
                    self.fill_data_two(addr, 1);
                },
                Transaction::ReadWord(addr) => {
                    self.fill_data_two(addr, 3);
                },
                Transaction::ReadInstruction(addr) => {
                    self.instruction_cache.write_line(addr, &mut self.memory);
                },
                Transaction::FlushCache => {
                    self.data_cache.flush(&mut self.memory);
                },
                _ => {
                    return ;
                },
            }
            self.current_transaction = Transaction::Idle;
        }
    }

    fn wait_time(&self) -> (n: usize)
        ensures
            n == self.wait(),
    {
        self.clocks
    }

    /// A read through the data cache: on a hit the byte, on a miss the
    /// start of a line fill; with the data cache disabled, a read from main
    /// memory.
    fn read_byte(&mut self, addr: Word) -> (r: Result<Byte, Status>)
        ensures
            old(self).keeps_rest(*final(self)),
            !(old(self).data_contents() is Disabled) ==> (old(self).pending().data_busy() ==> r == Err::<Byte, Status>(
                Status::Busy(old(self).wait()),
            ) && *final(self) == *old(self)),
            !(old(self).data_contents() is Disabled) ==> (!old(self).pending().data_busy() ==> {
                let (d1, cr) = old(self).data_contents().read_byte(addr as int);
                &&& final(self).data_contents() == d1
                &&& match cr {
                    Ok(v) => r == Ok::<Byte, Status>(v) && final(self).counters() == old(self).counters().on_hit()
                        && final(self).pending() == old(self).pending() && final(self).wait() == old(self).wait(),
                    Err(e) => {
                        &&& final(self).counters() == old(self).counters().on_miss(e, old(self).pending().active())
                        &&& old(self).starts(
                            *final(self),
                            Transaction::ReadByte(addr),
                            if missed(e) {
                                old(self).read_penalty() as int
                            } else {
                                old(self).volatile() as int
                            },
                        )
                        &&& r == Err::<Byte, Status>(Status::Busy(final(self).wait()))
                    },
                }
            }),
            old(self).data_contents() is Disabled ==> old(self).volatile_byte_read(*final(self), addr, r),
    {
        if self.data_cache.check_address(addr) == cache::Status::Disabled {
            return self.read_byte_volatile(addr);
        }
        if self.current_transaction.busy_data() {
            return Err(Status::Busy(self.clocks));
        }
        proof {
            lemma_no_failed_hit(self.data_cache.model(), addr as int);
        }
        match self.data_cache.get_byte(addr) {
            Ok(v) => {
                self.hit();
                Ok(v)
            },
            Err(e) => {
                self.miss(e);
                let penalty = if e.is_miss() {
                    self.read_miss_penalty
                } else {
                    self.volatile_penalty
                };
                Err(self.set_if_idle(Transaction::ReadByte(addr), penalty))
            },
        }
    }

    /// A read through the data cache: on a hit the short, on a miss the
    /// start of the line fills it needs; with the data cache disabled, a
    /// read from main memory.
    fn read_short(&mut self, addr: Word) -> (r: Result<Short, Status>)
        ensures
            old(self).keeps_rest(*final(self)),
            !(old(self).data_contents() is Disabled) ==> (old(self).pending().data_busy() ==> r == Err::<Short, Status>(
                Status::Busy(old(self).wait()),
            ) && *final(self) == *old(self)),
            !(old(self).data_contents() is Disabled) ==> (!old(self).pending().data_busy() ==> {
                let (d1, cr) = old(self).data_contents().read_short(addr as int);
                let busy = old(self).pending().active();
                &&& final(self).data_contents() == d1
                &&& match cr {
                    Ok(v) => {
                        &&& r == Ok::<Short, Status>(v)
                        &&& final(self).counters() == if addr % 2 != 0 {
                            old(self).counters().on_hit().on_hit()
                        } else {
                            old(self).counters().on_hit()
                        }
                        &&& final(self).pending() == old(self).pending()
                        &&& final(self).wait() == old(self).wait()
                    },
                    Err(e) => {
                        let c = d1.check(wrap(addr as int, 1));
                        let rp = old(self).read_penalty() as int;
                        let vp = old(self).volatile() as int;
                        &&& final(self).counters() == if missed(e) {
                            old(self).counters().on_miss(e, busy).on_miss(c, busy)
                        } else {
                            old(self).counters()
                        }
                        &&& old(self).starts(
                            *final(self),
                            Transaction::ReadShort(addr),
                            sat(if missed(e) {
                                rp + (if addr % 4 != 0 { 1int } else { 0 }) + if_missed(c, rp)
                            } else {
                                vp + (if addr % 2 != 0 { vp } else { 0 })
                            }),
                        )
                        &&& r == Err::<Short, Status>(Status::Busy(final(self).wait()))
                    },
                }
            }),
            old(self).data_contents() is Disabled ==> old(self).volatile_short_read(*final(self), addr, r),
    {
        if self.data_cache.check_address(addr) == cache::Status::Disabled {
            return self.read_short_volatile(addr);
        }
        if self.current_transaction.busy_data() {
            return Err(Status::Busy(self.clocks));
        }
        proof {
            lemma_no_failed_hit(self.data_cache.model(), addr as int);
        }
        match self.data_cache.get_short(addr) {
            Ok(v) => {
                self.hit();
                if addr % 2 != 0 {
                    self.hit();
                }
                Ok(v)
            },
            Err(e) => {
                if e.is_miss() {
                    self.miss(e);
                    let c = self.data_cache.check_address(step_address(addr, 1));
                    self.miss(c);
                    let mut penalty = self.read_miss_penalty;
                    if addr % 4 != 0 {
                        penalty = penalty.saturating_add(1);
                    }
                    if c.is_miss() {
                        penalty = penalty.saturating_add(self.read_miss_penalty);
                    }
                    Err(self.set_if_idle(Transaction::ReadShort(addr), penalty))
                } else {
                    let mut penalty = self.volatile_penalty;
                    if addr % 2 != 0 {
                        penalty = penalty.saturating_add(self.volatile_penalty);
                    }
                    Err(self.set_if_idle(Transaction::ReadShort(addr), penalty))
                }
            },
        }
    }

    /// A read through the data cache: on a hit the word, on a miss the
    /// start of the line fills it needs; with the data cache disabled, a
    /// read from main memory.
    fn read_word(&mut self, addr: Word) -> (r: Result<Word, Status>)
        ensures
            old(self).keeps_rest(*final(self)),
            !(old(self).data_contents() is Disabled) ==> (old(self).pending().data_busy() ==> r == Err::<Word, Status>(
                Status::Busy(old(self).wait()),
            ) && *final(self) == *old(self)),
            !(old(self).data_contents() is Disabled) ==> (!old(self).pending().data_busy() ==> {
                let (d1, cr) = old(self).data_contents().read_word(addr as int);
                let busy = old(self).pending().active();
                &&& final(self).data_contents() == d1
                &&& match cr {
                    Ok(v) => {
                        &&& r == Ok::<Word, Status>(v)
                        &&& final(self).counters() == if addr % 4 != 0 {
                            old(self).counters().on_hit().on_hit()
                        } else {
                            old(self).counters().on_hit()
                        }
                        &&& final(self).pending() == old(self).pending()
                        &&& final(self).wait() == old(self).wait()
                    },
                    Err(e) => {
                        let c = d1.check(wrap(addr as int, 3));
                        let rp = old(self).read_penalty() as int;
                        let vp = old(self).volatile() as int;
                        &&& final(self).counters() == if missed(e) {
                            old(self).counters().on_miss(e, busy).on_miss(c, busy)
                        } else if addr % 4 != 0 {
                            old(self).counters().on_hit()
                        } else {
                            old(self).counters()
                        }
                        &&& old(self).starts(
                            *final(self),
                            Transaction::ReadWord(addr),
                            sat(if missed(e) {
                                rp + (if addr % 4 != 0 { 1int } else { 0 }) + if_missed(c, rp)
                            } else {
                                vp + (if addr % 4 != 0 { vp } else { 0 })
                            }),
                        )
                        &&& r == Err::<Word, Status>(Status::Busy(final(self).wait()))
                    },
                }
            }),
            old(self).data_contents() is Disabled ==> old(self).volatile_word_read(*final(self), addr, r),
    {
        if self.data_cache.check_address(addr) == cache::Status::Disabled {
            return self.read_word_volatile(addr);
        }
        if self.current_transaction.busy_data() {
            return Err(Status::Busy(self.clocks));
        }
        proof {
            lemma_no_failed_hit(self.data_cache.model(), addr as int);
        }
        match self.data_cache.get_word(addr) {
            Ok(v) => {
                self.hit();
                if addr % 4 != 0 {
                    self.hit();
                }
                Ok(v)
            },
            Err(e) => {
                if e.is_miss() {
                    self.miss(e);
                    let c = self.data_cache.check_address(step_address(addr, 3));
                    self.miss(c);
                    let mut penalty = self.read_miss_penalty;
                    if addr % 4 != 0 {
                        penalty = penalty.saturating_add(1);
                    }
                    if c.is_miss() {
                        penalty = penalty.saturating_add(self.read_miss_penalty);
                    }
                    Err(self.set_if_idle(Transaction::ReadWord(addr), penalty))
                } else {
                    let mut penalty = self.volatile_penalty;
                    if addr % 4 != 0 {
                        self.hit();
                        penalty = penalty.saturating_add(self.volatile_penalty);
                    }
                    Err(self.set_if_idle(Transaction::ReadWord(addr), penalty))
                }
            },
        }
    }

    /// A read from main memory: the first call starts it, a call once it is
    /// due gives the byte at the address it was started with.
    fn read_byte_volatile(&mut self, addr: Word) -> (r: Result<Byte, Status>)
        ensures
            old(self).volatile_byte_read(*final(self), addr, r),
    {
        match self.current_transaction {
            Transaction::ReadByteV(a) => {
                if self.clocks == 0 {
                    self.current_transaction = Transaction::Idle;
                    Ok(self.memory.read_byte(a))
                } else {
                    Err(Status::Busy(self.clocks))
                }
            },
            _ => Err(self.set_if_idle(Transaction::ReadByteV(addr), self.volatile_penalty)),
        }
    }

    /// A read from main memory: the first call starts it, a call once it is
    /// due gives the short at the address it was started with.
    fn read_short_volatile(&mut self, addr: Word) -> (r: Result<Short, Status>)
        ensures
            old(self).volatile_short_read(*final(self), addr, r),
    {
        match self.current_transaction {
            Transaction::ReadShortV(a) => {
                if self.clocks == 0 {
                    self.current_transaction = Transaction::Idle;
                    Ok(self.memory.read_short(a))
                } else {
                    Err(Status::Busy(self.clocks))
                }
            },
            _ => {
                let mut penalty = self.volatile_penalty;
                if addr % 2 != 0 {
                    penalty = penalty.saturating_add(self.volatile_penalty);
                }
                Err(self.set_if_idle(Transaction::ReadShortV(addr), penalty))
            },
        }
    }

    /// A read from main memory: the first call starts it, a call once it is
    /// due gives the word at the address it was started with.
    fn read_word_volatile(&mut self, addr: Word) -> (r: Result<Word, Status>)
        ensures
            old(self).volatile_word_read(*final(self), addr, r),
    {
        match self.current_transaction {
            Transaction::ReadWordV(a) => {
                if self.clocks == 0 {
                    self.current_transaction = Transaction::Idle;
                    Ok(self.memory.read_word(a))
                } else {
                    Err(Status::Busy(self.clocks))
                }
            },
            _ => {
                let mut penalty = self.volatile_penalty;
                if addr % 4 != 0 {
                    penalty = penalty.saturating_add(self.volatile_penalty.saturating_add(self.volatile_penalty).saturating_add(self.volatile_penalty));
                }
                Err(self.set_if_idle(Transaction::ReadWordV(addr), penalty))
            },
        }
    }

    /// A read through the instruction cache: on a hit the word, on a miss
    /// the start of a line fill; with the instruction cache disabled, a read
    /// from main memory that a read once it is due collects.
    fn read_instruction(&mut self, addr: Word) -> (r: Result<Word, Status>)
        ensures
            final(self).data_contents() == old(self).data_contents(),
            final(self).main_memory() == old(self).main_memory(),
            old(self).instruction_contents() is Disabled ==> {
                &&& final(self).instruction_contents() == old(self).instruction_contents()
                &&& final(self).counters() == old(self).counters()
                &&& match old(self).pending() {
                    Transaction::ReadInstructionV(a) => if old(self).wait() == 0 {
                        r == Ok::<Word, Status>(old(self).main_memory().word_at(a as int))
                            && final(self).pending() == Transaction::Idle && final(self).wait() == 0
                    } else {
                        r == Err::<Word, Status>(Status::Busy(old(self).wait())) && final(self).pending()
                            == old(self).pending() && final(self).wait() == old(self).wait()
                    },
                    _ => old(self).starts(*final(self), Transaction::ReadInstructionV(addr), old(self).volatile() as int)
                        && r == Err::<Word, Status>(Status::Busy(final(self).wait())),
                }
            },
            !(old(self).instruction_contents() is Disabled) && (old(self).pending() is ReadInstruction
                || old(self).pending() is ReadInstructionV) ==> r == Err::<Word, Status>(
                Status::Busy(old(self).wait()),
            ) && *final(self) == *old(self),
            !(old(self).instruction_contents() is Disabled) && !(old(self).pending() is ReadInstruction
                || old(self).pending() is ReadInstructionV) ==> {
                let (i1, cr) = old(self).instruction_contents().read_word(addr as int);
                &&& final(self).instruction_contents() == i1
                &&& match cr {
                    Ok(v) => r == Ok::<Word, Status>(v) && final(self).counters() == old(self).counters().on_hit()
                        && final(self).pending() == old(self).pending() && final(self).wait() == old(self).wait(),
                    Err(e) => {
                        &&& final(self).counters() == old(self).counters().on_miss(e, old(self).pending().active())
                        &&& old(self).starts(
                            *final(self),
                            Transaction::ReadInstruction(addr),
                            if missed(e) {
                                old(self).read_penalty() as int
                            } else {
                                old(self).volatile() as int
                            },
                        )
                        &&& r == Err::<Word, Status>(Status::Busy(final(self).wait()))
                    },
                }
            },
    {
        if self.instruction_cache.check_address(addr) == cache::Status::Disabled {
            return match self.current_transaction {
                Transaction::ReadInstructionV(a) => {
                    if self.clocks == 0 {
                        self.current_transaction = Transaction::Idle;
                        Ok(self.memory.read_word(a))
                    } else {
                        Err(Status::Busy(self.clocks))
                    }
                },
                _ => Err(self.set_if_idle(Transaction::ReadInstructionV(addr), self.volatile_penalty)),
            };
        }
        if self.current_transaction.busy_instruction() {
            return Err(Status::Busy(self.clocks));
        }
        proof {
            lemma_no_failed_hit(self.instruction_cache.model(), addr as int);
        }
        match self.instruction_cache.get_word(addr) {
            Ok(v) => {
                self.hit();
                Ok(v)
            },
            Err(e) => {
                self.miss(e);
                let penalty = if e.is_miss() {
                    self.read_miss_penalty
                } else {
                    self.volatile_penalty
                };
                Err(self.set_if_idle(Transaction::ReadInstruction(addr), penalty))
            },
        }
    }

    /// A write through the data cache: done at once on a hit, started as a
    /// transaction otherwise.
    /// With the data cache disabled, a write to main memory.
    fn write_byte(&mut self, addr: Word, value: Byte) -> (r: Status)
        ensures
            old(self).keeps_rest(*final(self)),
            !(old(self).data_contents() is Disabled) ==> (old(self).pending().data_busy() ==> r == Status::Busy(old(self).wait()) && *final(self) == *old(self)),
            !(old(self).data_contents() is Disabled) ==> (!old(self).pending().data_busy() ==> {
                let (d1, cs) = old(self).data_contents().write_byte(addr as int, value);
                &&& final(self).data_contents() == d1
                &&& if cs == cache::Status::Hit {
                    r == Status::Idle && final(self).counters() == old(self).counters().on_hit()
                        && final(self).pending() == old(self).pending() && final(self).wait() == old(self).wait()
                } else {
                    &&& final(self).counters() == old(self).counters().on_miss(cs, old(self).pending().active())
                    &&& old(self).starts(
                        *final(self),
                        Transaction::WriteByte(addr, value, false),
                        if missed(cs) {
                            old(self).write_penalty() as int
                        } else {
                            old(self).volatile() as int
                        },
                    )
                    &&& r == Status::Busy(final(self).wait())
                }
            }),
            old(self).data_contents() is Disabled ==> old(self).volatile_byte_write(*final(self), addr, value, r),
    {
        if self.data_cache.check_address(addr) == cache::Status::Disabled {
            return self.write_byte_volatile(addr, value);
        }
        if self.current_transaction.busy_data() {
            return Status::Busy(self.clocks);
        }
        let cs = self.data_cache.write_byte(addr, value);
        if cs.is_hit() {
            self.hit();
            Status::Idle
        } else {
            self.miss(cs);
            let penalty = if cs.is_miss() {
                self.write_miss_penalty
            } else {
                self.volatile_penalty
            };
            self.set_if_idle(Transaction::WriteByte(addr, value, false), penalty)
        }
    }

    /// A write through the data cache: done at once when it hits, started as
    /// a transaction otherwise.
    /// With the data cache disabled, a write to main memory.
    fn write_short(&mut self, addr: Word, value: Short) -> (r: Status)
        ensures
            old(self).keeps_rest(*final(self)),
            !(old(self).data_contents() is Disabled) ==> (old(self).pending().data_busy() ==> r == Status::Busy(old(self).wait()) && *final(self) == *old(self)),
            !(old(self).data_contents() is Disabled) ==> (!old(self).pending().data_busy() ==> {
                let (d1, cs) = old(self).data_contents().write_short(addr as int, value);
                let busy = old(self).pending().active();
                &&& final(self).data_contents() == d1
                &&& if cs == cache::Status::Hit {
                    &&& r == Status::Idle
                    &&& final(self).counters() == if !d1.within_line(addr as int, 2) {
                        old(self).counters().on_hit().on_hit()
                    } else {
                        old(self).counters().on_hit()
                    }
                    &&& final(self).pending() == old(self).pending()
                    &&& final(self).wait() == old(self).wait()
                } else {
                    let c = d1.check(wrap(addr as int, 1));
                    let second = if old(self).write_through() {
                        old(self).volatile() as int
                    } else {
                        old(self).write_penalty() as int
                    };
                    let vp = old(self).volatile() as int;
                    &&& final(self).counters() == if missed(cs) {
                        old(self).counters().on_miss(cs, busy).on_miss(c, busy)
                    } else {
                        old(self).counters()
                    }
                    &&& old(self).starts(
                        *final(self),
                        Transaction::WriteShort(addr, value, false),
                        sat(if missed(cs) {
                            old(self).write_penalty() + (if addr % 2 != 0 { 1int } else { 0 }) + if_missed(c, second)
                        } else {
                            vp + (if addr % 2 != 0 { vp } else { 0 })
                        }),
                    )
                    &&& r == Status::Busy(final(self).wait())
                }
            }),
            old(self).data_contents() is Disabled ==> old(self).volatile_short_write(*final(self), addr, value, r),
    {
        if self.data_cache.check_address(addr) == cache::Status::Disabled {
            return self.write_short_volatile(addr, value);
        }
        if self.current_transaction.busy_data() {
            return Status::Busy(self.clocks);
        }
        let cs = self.data_cache.write_short(addr, value);
        if cs.is_hit() {
            self.hit();
            if !self.data_cache.within_line(addr, 2) {
                self.hit();
            }
            Status::Idle
        } else if cs.is_miss() {
            self.miss(cs);
            let c = self.data_cache.check_address(step_address(addr, 1));
            self.miss(c);
            let mut penalty = self.write_miss_penalty;
            if addr % 2 != 0 {
                penalty = penalty.saturating_add(1);
            }
            if c.is_miss() {
                if self.writethrough {
                    penalty = penalty.saturating_add(self.volatile_penalty);
                } else {
                    penalty = penalty.saturating_add(self.write_miss_penalty);
                }
            }
            self.set_if_idle(Transaction::WriteShort(addr, value, false), penalty)
        } else {
            let mut penalty = self.volatile_penalty;
            if addr % 2 != 0 {
                penalty = penalty.saturating_add(self.volatile_penalty);
            }
            self.set_if_idle(Transaction::WriteShort(addr, value, false), penalty)
        }
    }

    /// A write through the data cache: done at once when it hits, started as
    /// a transaction otherwise.
    /// With the data cache disabled, a write to main memory.
    fn write_word(&mut self, addr: Word, value: Word) -> (r: Status)
        ensures
            old(self).keeps_rest(*final(self)),
            !(old(self).data_contents() is Disabled) ==> (old(self).pending().data_busy() ==> r == Status::Busy(old(self).wait()) && *final(self) == *old(self)),
            !(old(self).data_contents() is Disabled) ==> (!old(self).pending().data_busy() ==> {
                let (d1, cs) = old(self).data_contents().write_word(addr as int, value);
                let busy = old(self).pending().active();
                &&& final(self).data_contents() == d1
                &&& if cs == cache::Status::Hit {
                    &&& r == Status::Idle
                    &&& final(self).counters() == if !d1.within_line(addr as int, 4) {
                        old(self).counters().on_hit().on_hit()
                    } else {
                        old(self).counters().on_hit()
                    }
                    &&& final(self).pending() == old(self).pending()
                    &&& final(self).wait() == old(self).wait()
                } else {
                    let c = d1.check(wrap(addr as int, 3));
                    let second = if old(self).write_through() {
                        old(self).volatile() as int
                    } else {
                        old(self).write_penalty() as int
                    };
                    let vp = old(self).volatile() as int;
                    &&& final(self).counters() == if missed(cs) {
                        old(self).counters().on_miss(cs, busy).on_miss(c, busy)
                    } else {
                        old(self).counters()
                    }
                    &&& old(self).starts(
                        *final(self),
                        Transaction::WriteWord(addr, value, false),
                        sat(if missed(cs) {
                            old(self).write_penalty() + (if addr % 4 != 0 { 1int } else { 0 }) + if_missed(c, second)
                        } else {
                            vp + (if addr % 4 != 0 { 1 + vp } else { 0 })
                        }),
                    )
                    &&& r == Status::Busy(final(self).wait())
                }
            }),
            old(self).data_contents() is Disabled ==> old(self).volatile_word_write(*final(self), addr, value, r),
    {
        if self.data_cache.check_address(addr) == cache::Status::Disabled {
            return self.write_word_volatile(addr, value);
        }
        if self.current_transaction.busy_data() {
            return Status::Busy(self.clocks);
        }
        let cs = self.data_cache.write_word(addr, value);
        if cs.is_hit() {
            self.hit();
            if !self.data_cache.within_line(addr, 4) {
                self.hit();
            }
            Status::Idle
        } else if cs.is_miss() {
            self.miss(cs);
            let c = self.data_cache.check_address(step_address(addr, 3));
            self.miss(c);
            let mut penalty = self.write_miss_penalty;
            if addr % 4 != 0 {
                penalty = penalty.saturating_add(1);
            }
            if c.is_miss() {
                if self.writethrough {
                    penalty = penalty.saturating_add(self.volatile_penalty);
                } else {
                    penalty = penalty.saturating_add(self.write_miss_penalty);
                }
            }
            self.set_if_idle(Transaction::WriteWord(addr, value, false), penalty)
        } else {
            let mut penalty = self.volatile_penalty;
            if addr % 4 != 0 {
                penalty = penalty.saturating_add(1).saturating_add(self.volatile_penalty);
            }
            self.set_if_idle(Transaction::WriteWord(addr, value, false), penalty)
        }
    }

    /// Starts a write to main memory unless a transaction is in progress.
    fn write_byte_volatile(&mut self, addr: Word, value: Byte) -> (r: Status)
        ensures
            old(self).volatile_byte_write(*final(self), addr, value, r),
    {
        if self.current_transaction.is_busy() {
            Status::Busy(self.clocks)
        } else {
            self.set_if_idle(Transaction::WriteByte(addr, value, true), self.volatile_penalty)
        }
    }

    /// Starts a write to main memory unless a transaction is in progress.
    fn write_short_volatile(&mut self, addr: Word, value: Short) -> (r: Status)
        ensures
            old(self).volatile_short_write(*final(self), addr, value, r),
    {
        if self.current_transaction.is_busy() {
            Status::Busy(self.clocks)
        } else {
            let mut penalty = self.volatile_penalty;
            if addr % 2 == 0 {
                penalty = penalty.saturating_add(self.volatile_penalty);
            }
            self.set_if_idle(Transaction::WriteShort(addr, value, true), penalty)
        }
    }

    /// Starts a write to main memory unless a transaction is in progress.
    fn write_word_volatile(&mut self, addr: Word, value: Word) -> (r: Status)
        ensures
            old(self).volatile_word_write(*final(self), addr, value, r),
    {
        if self.current_transaction.is_busy() {
            Status::Busy(self.clocks)
        } else {
            let mut penalty = self.volatile_penalty;
            if addr % 4 == 0 {
                penalty = penalty.saturating_add(self.volatile_penalty.saturating_add(self.volatile_penalty).saturating_add(self.volatile_penalty));
            }
            self.set_if_idle(Transaction::WriteWord(addr, value, true), penalty)
        }
    }

    fn cold_misses(&self) -> (n: usize)
        ensures
            n == self.counters().cold_misses,
    {
        self.stats.cold_misses
    }

    fn conflict_misses(&self) -> (n: usize)
        ensures
            n == self.counters().conflict_misses,
    {
        self.stats.conflict_misses
    }

    fn total_misses(&self) -> (n: usize)
        ensures
            n == if self.counters().cold_misses + self.counters().conflict_misses <= usize::MAX {
                self.counters().cold_misses + self.counters().conflict_misses
            } else {
                usize::MAX as int
            },
    {
        self.stats.cold_misses.saturating_add(self.stats.conflict_misses)
    }

    fn cache_hits(&self) -> (n: usize)
        ensures
            n == self.counters().hits,
    {
        self.stats.hits
    }

    fn accesses(&self) -> (n: usize)
        ensures
            n == self.counters().accesses,
    {
        self.stats.accesses
    }

    fn evictions(&self) -> (n: usize)
        ensures
            n == self.counters().evictions,
    {
        self.stats.evictions
    }

    closed spec fn main_store(&self) -> Memory {
        self.memory
    }

    fn memory(&self) -> (m: &Memory)
        ensures
            *m == self.main_memory(),
    {
        &self.memory
    }

    fn memory_mut(&mut self) -> (m: &mut Memory)
        ensures
            *m == old(self).main_memory(),
            final(self).main_memory() == *final(m),
            final(self).data_contents() == old(self).data_contents(),
            final(self).instruction_contents() == old(self).instruction_contents(),
            final(self).pending() == old(self).pending(),
            final(self).counters() == old(self).counters(),
    {
        &mut self.memory
    }

    /// The lines of the data cache and of the instruction cache, in that order.
    fn cache_state(&self) -> (v: Vec<CacheData>)
        ensures
            v@.len() == 2,
            v@[0].name@ == "data cache"@,
            v@[1].name@ == "instruction cache"@,
            v@[0].lines@.len() == self.data_contents().slot_count(),
            v@[1].lines@.len() == self.instruction_contents().slot_count(),
            forall|i: int|
                0 <= i < v@[0].lines@.len() ==> shows_slot(#[trigger] v@[0].lines@[i], self.data_contents().slot(i)),
            forall|i: int|
                0 <= i < v@[1].lines@.len() ==> shows_slot(
                    #[trigger] v@[1].lines@[i],
                    self.instruction_contents().slot(i),
                ),
    {
        let mut v: Vec<CacheData> = Vec::new();
        v.push(CacheData { name: String::from_str("data cache"), lines: self.data_cache.get_lines() });
        v.push(
            CacheData {
                name: String::from_str("instruction cache"),
                lines: self.instruction_cache.get_lines(),
            },
        );
        v
    }

    /// Writes the data cache back to main memory at once, unless a
    /// transaction is in progress.
    fn immediate_writeback(&mut self) -> (r: Status)
        ensures
            old(self).pending().active() ==> r == Status::Busy(old(self).wait()) && *final(self) == *old(self),
            !old(self).pending().active() ==> {
                let (d1, m1, _) = old(self).data_contents().flush(old(self).main_memory()@);
                &&& r == Status::Idle
                &&& final(self).data_contents() == d1
                &&& final(self).main_memory()@ == m1
                &&& final(self).pending() == old(self).pending()
            },
    {
        if self.current_transaction.is_busy() {
            Status::Busy(self.clocks)
        } else {
            self.data_cache.flush(&mut self.memory);
            Status::Idle
        }
    }

    /// Starts writing the data cache back to main memory when it has dirty
    /// lines and no transaction is in progress.
    fn flush_cache(&mut self) -> (r: Status)
        ensures
            old(self).keeps_rest(*final(self)),
            final(self).data_contents() == old(self).data_contents(),
            final(self).counters() == old(self).counters(),
            old(self).pending().active() ==> r == Status::Busy(old(self).wait()) && *final(self) == *old(self),
            !old(self).pending().active() && old(self).data_contents().dirty_lines() == 0 ==> r == Status::Idle
                && *final(self) == *old(self),
            !old(self).pending().active() && old(self).data_contents().dirty_lines() != 0 ==> r == Status::Busy(
                old(self).read_penalty(),
            ) && final(self).pending() == Transaction::FlushCache && final(self).wait() == old(self).read_penalty(),
    {
        if self.current_transaction.is_busy() {
            Status::Busy(self.clocks)
        } else {
            let count = self.data_cache.dirty_lines();
            if count == 0 {
                Status::Idle
            } else {
                self.clocks = self.read_miss_penalty;
                self.current_transaction = Transaction::FlushCache;
                Status::Busy(self.read_miss_penalty)
            }
        }
    }
}

/// A byte write that waits on a data cache holding lines is carried out when
/// its transaction completes: written through to main memory, or written into
/// the line brought into the data cache, where a read of the address then
/// finds it.
pub proof fn law_byte_write_completes<D: Cache, I: Cache>(s: SingleLevel<D, I>, a: Word, v: Byte)
    requires
        s.inv(),
        s.pending() == Transaction::WriteByte(a, v, false),
        s.data_contents() is Sets,
    ensures
        s.write_through() ==> s.completion().memory == s.main_memory().with_byte(a as int, v),
        !s.write_through() ==> s.completion().data.read_byte(a as int).1 == Ok::<Byte, cache::Status>(v),
{
    s.data_cache.lemma_model_wf();
    if let CacheModel::Sets(m) = s.data_contents() {
        let mem = s.main_memory()@;
        m.lemma_fill_wf(a as int, mem);
        law_cache_fill_then_hit(m, a as int, mem);
        let filled = CacheModel::Sets(m.fill(a as int, mem).0);
        assert(s.data_contents().write_line(a as int, mem).0 == filled);
        law_cache_read_after_write(filled, a as int, v);
    }
}

} // verus!
