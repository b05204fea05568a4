//! Caches for use in the memory module.
//!
//! The [`Cache`] trait is the interface of a cache; its contract is stated
//! over [`CacheModel`], the mathematical contents of a cache.
//!
//! - [`NullCache`] always sends memory accesses to main memory.
//! - [`Associative`] is a one-way set-associative (direct-mapped) cache.
//! - [`MultiAssociative`] is an N-way set-associative cache that replaces the
//!   least recently used line of a set.
//! - [`MappedLru`] is a direct-mapped cache.
pub mod model;
pub mod sets;
pub mod null;
pub mod associative;
pub mod mapped_lru;

use crate::memory::Memory;
use crate::types::{Byte, Short, Word};
use vstd::prelude::*;
pub use associative::{Associative, MultiAssociative};
pub use mapped_lru::MappedLru;
pub use model::CacheModel;
pub use null::NullCache;
pub use sets::Line;

verus! {

/// The status of a cache access.
#[derive(Debug, Clone, Copy, PartialEq, Eq, Structural)]
pub enum Status {
    /// The cache got a hit.
    Hit,
    /// The cache is disabled (it is a [`NullCache`]).
    Disabled,
    /// Cold miss: the set still has room for the line.
    Cold,
    /// Conflict miss: the set is full and holds other lines.
    Conflict,
}

/// What bringing a line in from memory did.
#[derive(Debug, Clone, Copy, PartialEq, Eq, Structural)]
pub enum LineReadStatus {
    /// A line was evicted to make room.
    Evicted,
    /// The cache is disabled.
    Disabled,
    /// The line was present already.
    Skipped,
    /// The line went into free room.
    Inserted,
}

impl LineReadStatus {
    /// Whether a line was evicted.
    pub fn evicted(self) -> (b: bool)
        ensures
            b == (self == LineReadStatus::Evicted),
    {
        match self {
            LineReadStatus::Evicted => true,
            _ => false,
        }
    }

    /// Whether the cache is disabled.
    pub fn disabled(self) -> (b: bool)
        ensures
            b == (self == LineReadStatus::Disabled),
    {
        match self {
            LineReadStatus::Disabled => true,
            _ => false,
        }
    }

    /// Whether the line was present already.
    pub fn skipped(self) -> (b: bool)
        ensures
            b == (self == LineReadStatus::Skipped),
    {
        match self {
            LineReadStatus::Skipped => true,
            _ => false,
        }
    }

    /// Whether the line went into free room.
    pub fn inserted(self) -> (b: bool)
        ensures
            b == (self == LineReadStatus::Inserted),
    {
        match self {
            LineReadStatus::Inserted => true,
            _ => false,
        }
    }
}

impl Status {
    /// Whether the access missed: a cold or a conflict miss.
    pub fn is_miss(self) -> (b: bool)
        ensures
            b == (self == Status::Cold || self == Status::Conflict),
    {
        match self {
            Status::Cold | Status::Conflict => true,
            _ => false,
        }
    }

    /// Whether the access hit.
    pub fn is_hit(self) -> (b: bool)
        ensures
            b == (self == Status::Hit),
    {
        match self {
            Status::Hit => true,
            _ => false,
        }
    }
}

/// A line of a cache as shown to a user: where it starts, whether it is
/// dirty, and a copy of its bytes.
pub struct LineData {
    pub base_address: Word,
    pub dirty: bool,
    pub data: Vec<Byte>,
}

/// `line` shows the slot `slot` of a cache.
pub open spec fn shows_slot(line: Option<LineData>, slot: Option<(int, bool, Seq<Byte>)>) -> bool {
    match (line, slot) {
        (None, None) => true,
        (Some(d), Some((base, dirty, data))) => d.base_address == base && d.dirty == dirty
            && d.data@ == data,
        _ => false,
    }
}

impl CacheModel {
    /// The number of line slots of a cache.
    pub open spec fn slot_count(self) -> nat {
        match self {
            CacheModel::Disabled => 0,
            CacheModel::Sets(m) => m.set_count() * m.ways,
        }
    }

    /// Slot `i` of a cache: way `i % ways` of set `i / ways`, with the line's
    /// first address, dirty flag and bytes when it holds a line.
    pub open spec fn slot(self, i: int) -> Option<(int, bool, Seq<Byte>)> {
        match self {
            CacheModel::Disabled => None,
            CacheModel::Sets(m) => {
                let s = i / (m.ways as int);
                let w = i % (m.ways as int);
                if w < m.sets[s].len() {
                    let l = m.sets[s][w];
                    Some((m.base_of(l.tag as int, s), l.dirty, l.data))
                } else {
                    None
                }
            },
        }
    }
}

/// The interface of a cache.
///
/// Every operation is stated exactly over [`CacheModel`], so that a memory
/// module built on any cache can state what it does.
pub trait Cache: Sized {
    /// The contents of the cache.
    spec fn model(&self) -> CacheModel;

    /// The cache is well formed.
    spec fn inv(&self) -> bool;

    /// A well-formed cache has well-formed contents.
    proof fn lemma_model_wf(&self)
        requires
            self.inv(),
        ensures
            self.model().wf(),
    ;

    /// Gets the byte at an address; it may reorder the cache. Gives a value
    /// only on a hit.
    fn get_byte(&mut self, address: Word) -> (r: Result<Byte, Status>)
        requires
            old(self).inv(),
        ensures
            final(self).inv(),
            (final(self).model(), r) == old(self).model().read_byte(address as int),
    ;

    /// Gets the short at an address; it may reorder the cache. Gives a value
    /// only on a hit.
    fn get_short(&mut self, address: Word) -> (r: Result<Short, Status>)
        requires
            old(self).inv(),
        ensures
            final(self).inv(),
            (final(self).model(), r) == old(self).model().read_short(address as int),
    ;

    /// Gets the word at an address; it may reorder the cache. Gives a value
    /// only on a hit.
    fn get_word(&mut self, address: Word) -> (r: Result<Word, Status>)
        requires
            old(self).inv(),
        ensures
            final(self).inv(),
            (final(self).model(), r) == old(self).model().read_word(address as int),
    ;

    /// Sets the byte at an address on a hit.
    fn write_byte(&mut self, address: Word, data: Byte) -> (s: Status)
        requires
            old(self).inv(),
        ensures
            final(self).inv(),
            (final(self).model(), s) == old(self).model().write_byte(address as int, data),
    ;

    /// Sets the short at an address on a hit.
    fn write_short(&mut self, address: Word, data: Short) -> (s: Status)
        requires
            old(self).inv(),
        ensures
            final(self).inv(),
            (final(self).model(), s) == old(self).model().write_short(address as int, data),
    ;

    /// Sets the word at an address on a hit.
    fn write_word(&mut self, address: Word, data: Word) -> (s: Status)
        requires
            old(self).inv(),
        ensures
            final(self).inv(),
            (final(self).model(), s) == old(self).model().write_word(address as int, data),
    ;

    /// The status an access to the address would have, changing nothing.
    fn check_address(&self, address: Word) -> (s: Status)
        requires
            self.inv(),
        ensures
            s == self.model().check(address as int),
    ;

    /// The number of bytes of a line.
    fn line_len(&self) -> (n: usize)
        requires
            self.inv(),
        ensures
            n == self.model().line_len(),
    ;

    /// Whether `length` bytes from the address lie in one line.
    fn within_line(&self, address: Word, length: usize) -> (b: bool)
        requires
            self.inv(),
        ensures
            b == self.model().within_line(address as int, length as int),
    ;

    /// Invalidates the line that holds the address (say, for a volatile
    /// write). Returns whether a line was invalidated.
    fn invalidate_line(&mut self, address: Word) -> (b: bool)
        requires
            old(self).inv(),
        ensures
            final(self).inv(),
            (final(self).model(), b) == old(self).model().invalidate(address as int),
    ;

    /// Brings the line of an address in from main memory, writing an evicted
    /// dirty line back first.
    fn write_line(&mut self, address: Word, memory: &mut Memory) -> (s: LineReadStatus)
        requires
            old(self).inv(),
            old(memory).wf(),
        ensures
            final(self).inv(),
            final(memory).wf(),
            final(memory).page_count() == old(memory).page_count(),
            (final(self).model(), final(memory)@, s) == old(self).model().write_line(
                address as int,
                old(memory)@,
            ),
    ;

    /// Writes every dirty line back to main memory and marks it clean.
    /// Returns the number of lines written back.
    fn flush(&mut self, memory: &mut Memory) -> (n: usize)
        requires
            old(self).inv(),
            old(memory).wf(),
        ensures
            final(self).inv(),
            final(memory).wf(),
            final(memory).page_count() == old(memory).page_count(),
            (final(self).model(), final(memory)@, n as nat) == old(self).model().flush(old(memory)@),
    ;

    /// The number of dirty lines.
    fn dirty_lines(&self) -> (n: usize)
        requires
            self.inv(),
        ensures
            n == self.model().dirty_lines(),
    ;

    /// Every line slot of the cache, with the data of the line it holds.
    fn get_lines(&self) -> (lines: Vec<Option<LineData>>)
        requires
            self.inv(),
        ensures
            lines@.len() == self.model().slot_count(),
            forall|i: int|
                0 <= i < lines@.len() ==> shows_slot(#[trigger] lines@[i], self.model().slot(i)),
    ;

    /// The cached byte at an address, if a line holds it.
    fn byte_at(&self, address: Word) -> (b: Option<Byte>)
        requires
            self.inv(),
        ensures
            b == self.model().peek_byte(address as int),
    ;

    /// The cached short at an address, if lines hold it.
    fn short_at(&self, address: Word) -> (s: Option<Short>)
        requires
            self.inv(),
        ensures
            s == self.model().peek_short(address as int),
    ;

    /// The cached word at an address, if lines hold it.
    fn word_at(&self, address: Word) -> (w: Option<Word>)
        requires
            self.inv(),
        ensures
            w == self.model().peek_word(address as int),
    ;
}

} // verus!
