//! The memory hierarchy: a main memory behind caches.
//!
//! The [`MemoryModule`] trait allows different memory configurations;
//! [`SingleLevel`] is a hierarchy with a single level of cache.
pub mod single_level;

use crate::cache::LineData;
use crate::memory::Memory;
use crate::types::{Byte, Short, Word};
use vstd::prelude::*;
pub use single_level::{SingleLevel, Stats, Transaction};

verus! {

/// The lines of a named cache, for display.
pub struct CacheData {
    pub name: String,
    pub lines: Vec<Option<LineData>>,
}

/// The state of a memory module.
#[derive(Debug, Clone, Copy, PartialEq, Eq, Structural)]
pub enum Status {
    /// The module is idle, awaiting a new command.
    Idle,
    /// The module is busy; the value is the number of clocks left.
    Busy(usize),
}

/// A memory module containing caches and a main memory.
pub trait MemoryModule: Sized {
    /// The module is well formed.
    spec fn inv(&self) -> bool;

    /// What a read of the byte at `addr` (through the cache, or straight
    /// from main memory if `volatile`) answers when it takes the module from
    /// `self` to `after`.
    spec fn byte_read(&self, addr: Word, volatile: bool, after: Self) -> Result<Byte, Status>;

    /// What a read of the short at `addr` answers when it takes the module
    /// from `self` to `after`.
    spec fn short_read(&self, addr: Word, volatile: bool, after: Self) -> Result<Short, Status>;

    /// What a read of the word at `addr` answers when it takes the module
    /// from `self` to `after`.
    spec fn word_read(&self, addr: Word, volatile: bool, after: Self) -> Result<Word, Status>;

    /// What a write of a byte answers when it takes the module from `self`
    /// to `after`.
    spec fn byte_write(&self, addr: Word, value: Byte, volatile: bool, after: Self) -> Status;

    /// What a write of a short answers when it takes the module from `self`
    /// to `after`.
    spec fn short_write(&self, addr: Word, value: Short, volatile: bool, after: Self) -> Status;

    /// What a write of a word answers when it takes the module from `self`
    /// to `after`.
    spec fn word_write(&self, addr: Word, value: Word, volatile: bool, after: Self) -> Status;

    /// What a read of the instruction word at `addr` answers when it takes
    /// the module from `self` to `after`.
    spec fn instruction_read(&self, addr: Word, after: Self) -> Result<Word, Status>;

    /// What writing the data cache back at once answers when it takes the
    /// module from `self` to `after`.
    spec fn writeback_answer(&self, after: Self) -> Status;

    /// `after` is the module once `amount` clocks have passed from `self`:
    /// the current transaction counted down, and carried out when it fell due.
    spec fn clocked(&self, amount: usize, after: Self) -> bool;

    /// Clocks the module, counting down the current transaction and
    /// completing it when it is due.
    fn clock(&mut self, amount: usize)
        requires
            old(self).inv(),
        ensures
            final(self).inv(),
            old(self).clocked(amount, *final(self)),
    ;

    /// The number of clocks until the current transaction is due.
    fn wait_time(&self) -> usize
        requires
            self.inv(),
    ;

    /// Reads a byte through the data cache.
    fn read_byte(&mut self, addr: Word) -> (r: Result<Byte, Status>)
        requires
            old(self).inv(),
        ensures
            final(self).inv(),
            r == old(self).byte_read(addr, false, *final(self)),
    ;

    /// Reads a short through the data cache.
    fn read_short(&mut self, addr: Word) -> (r: Result<Short, Status>)
        requires
            old(self).inv(),
        ensures
            final(self).inv(),
            r == old(self).short_read(addr, false, *final(self)),
    ;

    /// Reads a word through the data cache.
    fn read_word(&mut self, addr: Word) -> (r: Result<Word, Status>)
        requires
            old(self).inv(),
        ensures
            final(self).inv(),
            r == old(self).word_read(addr, false, *final(self)),
    ;

    /// Reads a byte from main memory, bypassing the cache.
    fn read_byte_volatile(&mut self, addr: Word) -> (r: Result<Byte, Status>)
        requires
            old(self).inv(),
        ensures
            final(self).inv(),
            r == old(self).byte_read(addr, true, *final(self)),
    ;

    /// Reads a short from main memory, bypassing the cache.
    fn read_short_volatile(&mut self, addr: Word) -> (r: Result<Short, Status>)
        requires
            old(self).inv(),
        ensures
            final(self).inv(),
            r == old(self).short_read(addr, true, *final(self)),
    ;

    /// Reads a word from main memory, bypassing the cache.
    fn read_word_volatile(&mut self, addr: Word) -> (r: Result<Word, Status>)
        requires
            old(self).inv(),
        ensures
            final(self).inv(),
            r == old(self).word_read(addr, true, *final(self)),
    ;

    /// Reads an instruction word through the instruction cache.
    fn read_instruction(&mut self, addr: Word) -> (r: Result<Word, Status>)
        requires
            old(self).inv(),
        ensures
            final(self).inv(),
            r == old(self).instruction_read(addr, *final(self)),
    ;

    /// Writes a byte.
    fn write_byte(&mut self, addr: Word, value: Byte) -> (r: Status)
        requires
            old(self).inv(),
        ensures
            final(self).inv(),
            r == old(self).byte_write(addr, value, false, *final(self)),
    ;

    /// Writes a short.
    fn write_short(&mut self, addr: Word, value: Short) -> (r: Status)
        requires
            old(self).inv(),
        ensures
            final(self).inv(),
            r == old(self).short_write(addr, value, false, *final(self)),
    ;

    /// Writes a word.
    fn write_word(&mut self, addr: Word, value: Word) -> (r: Status)
        requires
            old(self).inv(),
        ensures
            final(self).inv(),
            r == old(self).word_write(addr, value, false, *final(self)),
    ;

    /// Writes a byte to main memory, bypassing the cache.
    fn write_byte_volatile(&mut self, addr: Word, value: Byte) -> (r: Status)
        requires
            old(self).inv(),
        ensures
            final(self).inv(),
            r == old(self).byte_write(addr, value, true, *final(self)),
    ;

    /// Writes a short to main memory, bypassing the cache.
    fn write_short_volatile(&mut self, addr: Word, value: Short) -> (r: Status)
        requires
            old(self).inv(),
        ensures
            final(self).inv(),
            r == old(self).short_write(addr, value, true, *final(self)),
    ;

    /// Writes a word to main memory, bypassing the cache.
    fn write_word_volatile(&mut self, addr: Word, value: Word) -> (r: Status)
        requires
            old(self).inv(),
        ensures
            final(self).inv(),
            r == old(self).word_write(addr, value, true, *final(self)),
    ;

    /// The number of cold misses so far.
    fn cold_misses(&self) -> usize;

    /// The number of conflict misses so far.
    fn conflict_misses(&self) -> usize;

    /// The number of cache misses so far.
    fn total_misses(&self) -> usize;

    /// The number of cache hits so far.
    fn cache_hits(&self) -> usize;

    /// The number of memory accesses so far.
    fn accesses(&self) -> usize;

    /// The number of evicted cache lines so far.
    fn evictions(&self) -> usize;

    /// The main memory that the module holds.
    spec fn main_store(&self) -> Memory;

    /// The main memory.
    fn memory(&self) -> (m: &Memory)
        ensures
            *m == self.main_store(),
    ;

    /// The main memory, to change; the module stays well formed if the
    /// memory does.
    fn memory_mut(&mut self) -> (m: &mut Memory)
        ensures
            *m == old(self).main_store(),
            final(self).main_store() == *final(m),
            old(self).inv() && final(m).wf() ==> final(self).inv(),
    ;

    /// The lines of each cache, with the cache's name.
    fn cache_state(&self) -> Vec<CacheData>
        requires
            self.inv(),
    ;

    /// Writes the data cache back to main memory at once. Returns
    /// [`Status::Idle`] on success.
    fn immediate_writeback(&mut self) -> (r: Status)
        requires
            old(self).inv(),
        ensures
            final(self).inv(),
            r == old(self).writeback_answer(*final(self)),
    ;

    /// Starts writing the data cache back to main memory.
    fn flush_cache(&mut self) -> (r: Status)
        requires
            old(self).inv(),
        ensures
            final(self).inv(),
    ;
}

} // verus!
