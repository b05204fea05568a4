//! Set-associative caches.
use crate::cache::model::{CacheModel, SetsModel};
use crate::cache::sets::SetCache;
use crate::cache::{Cache, LineData, LineReadStatus, Status};
use crate::memory::Memory;
use crate::types::{Byte, Short, Word};
use vstd::arithmetic::power2::pow2;
use vstd::prelude::*;

verus! {

/// A one-way set-associative (direct-mapped) cache: each address has one
/// line where it can be held.
///
/// The number of sets and the length of a line are set at runtime.
pub struct Associative {
    core: SetCache,
}

/// An N-way set-associative cache: each set holds up to `ways` lines and
/// replaces its least recently used line.
pub struct MultiAssociative {
    core: SetCache,
}

impl Associative {
    /// Creates an empty cache with lines of `2^off_bits` bytes in
    /// `2^set_bits` sets; the remaining bits of an address are the tag.
    ///
    /// `off_bits` must be between 2 and 32, `set_bits` at most 30, and their
    /// sum at most 32; the line length and the number of sets must fit in a
    /// `usize`.
    pub fn new(off_bits: usize, set_bits: usize) -> (c: Self)
        requires
            2 <= off_bits <= 32,
            set_bits <= 30,
            off_bits + set_bits <= 32,
            pow2(off_bits as nat) <= usize::MAX,
            pow2(set_bits as nat) <= usize::MAX,
        ensures
            c.inv(),
            c.model() == CacheModel::Sets(
                SetsModel {
                    off_bits: off_bits as nat,
                    set_bits: set_bits as nat,
                    ways: 1,
                    sets: Seq::new(pow2(set_bits as nat), |s: int| Seq::empty()),
                },
            ),
    {
        let core = SetCache::new(off_bits, set_bits, 1);
        Associative { core }
    }

    /// The number of bits of an address that pick the tag.
    pub fn tag_bits(&self) -> (n: usize)
        requires
            self.inv(),
        ensures
            self.model() matches CacheModel::Sets(m) && n == 32 - m.off_bits - m.set_bits,
    {
        self.core.tag_bits()
    }

    /// The number of bits of an address that pick the set.
    pub fn set_bits(&self) -> (n: usize)
        ensures
            self.model() matches CacheModel::Sets(m) && n == m.set_bits,
    {
        self.core.set_bits()
    }

    /// The number of bits of an address that pick the offset within a line.
    pub fn off_bits(&self) -> (n: usize)
        ensures
            self.model() matches CacheModel::Sets(m) && n == m.off_bits,
    {
        self.core.off_bits()
    }

    /// Boxes the cache, ready for [`SingleLevel::new_with_boxed`](crate::module::SingleLevel::new_with_boxed).
    pub fn boxed(self) -> (b: Box<Self>)
        ensures
            *b == self,
    {
        Box::new(self)
    }
}

impl MultiAssociative {
    /// Creates an empty cache of `ways`-line sets, with lines of
    /// `2^off_bits` bytes in `2^set_bits` sets; the remaining bits of an
    /// address are the tag.
    ///
    /// `off_bits` must be between 2 and 32, `set_bits` at most 30, their sum
    /// at most 32, and `ways` at least 1; the line length and the number of
    /// line slots must fit in a `usize`.
    pub fn new(off_bits: usize, set_bits: usize, ways: usize) -> (c: Self)
        requires
            2 <= off_bits <= 32,
            set_bits <= 30,
            off_bits + set_bits <= 32,
            ways > 0,
            pow2(off_bits as nat) <= usize::MAX,
            pow2(set_bits as nat) * ways <= usize::MAX,
        ensures
            c.inv(),
            c.model() == CacheModel::Sets(
                SetsModel {
                    off_bits: off_bits as nat,
                    set_bits: set_bits as nat,
                    ways: ways as nat,
                    sets: Seq::new(pow2(set_bits as nat), |s: int| Seq::empty()),
                },
            ),
    {
        let core = SetCache::new(off_bits, set_bits, ways);
        MultiAssociative { core }
    }

    /// The number of lines of a set.
    pub fn ways(&self) -> (n: usize)
        ensures
            self.model() matches CacheModel::Sets(m) && n == m.ways,
    {
        self.core.ways()
    }

    /// The number of bits of an address that pick the tag.
    pub fn tag_bits(&self) -> (n: usize)
        requires
            self.inv(),
        ensures
            self.model() matches CacheModel::Sets(m) && n == 32 - m.off_bits - m.set_bits,
    {
        self.core.tag_bits()
    }

    /// The number of bits of an address that pick the set.
    pub fn set_bits(&self) -> (n: usize)
        ensures
            self.model() matches CacheModel::Sets(m) && n == m.set_bits,
    {
        self.core.set_bits()
    }

    /// The number of bits of an address that pick the offset within a line.
    pub fn off_bits(&self) -> (n: usize)
        ensures
            self.model() matches CacheModel::Sets(m) && n == m.off_bits,
    {
        self.core.off_bits()
    }

    /// Boxes the cache, ready for [`SingleLevel::new_with_boxed`](crate::module::SingleLevel::new_with_boxed).
    pub fn boxed(self) -> (b: Box<Self>)
        ensures
            *b == self,
    {
        Box::new(self)
    }
}

impl Cache for Associative {
    closed spec fn model(&self) -> CacheModel {
        CacheModel::Sets(self.core.model())
    }

    closed spec fn inv(&self) -> bool {
        self.core.inv()
    }

    proof fn lemma_model_wf(&self) {
        self.core.lemma_inv_wf();
    }

    fn get_byte(&mut self, address: Word) -> (r: Result<Byte, Status>) {
        self.core.read_byte(address)
    }

    fn get_short(&mut self, address: Word) -> (r: Result<Short, Status>) {
        self.core.read_short(address)
    }

    fn get_word(&mut self, address: Word) -> (r: Result<Word, Status>) {
        self.core.read_word(address)
    }

    fn write_byte(&mut self, address: Word, data: Byte) -> (s: Status) {
        self.core.write_byte(address, data)
    }

    fn write_short(&mut self, address: Word, data: Short) -> (s: Status) {
        self.core.write_short(address, data)
    }

    fn write_word(&mut self, address: Word, data: Word) -> (s: Status) {
        self.core.write_word(address, data)
    }

    fn check_address(&self, address: Word) -> (s: Status) {
        self.core.check(address)
    }

    fn line_len(&self) -> (n: usize) {
        self.core.line_len()
    }

    fn within_line(&self, address: Word, length: usize) -> (b: bool) {
        self.core.within_line(address, length)
    }

    fn invalidate_line(&mut self, address: Word) -> (b: bool) {
        self.core.invalidate(address)
    }

    fn write_line(&mut self, address: Word, memory: &mut Memory) -> (s: LineReadStatus) {
        self.core.fill(address, memory)
    }

    fn flush(&mut self, memory: &mut Memory) -> (n: usize) {
        self.core.flush(memory)
    }

    fn dirty_lines(&self) -> (n: usize) {
        self.core.dirty_count()
    }

    fn get_lines(&self) -> (lines: Vec<Option<LineData>>) {
        self.core.slots()
    }

    fn byte_at(&self, address: Word) -> (b: Option<Byte>) {
        self.core.peek(address)
    }

    fn short_at(&self, address: Word) -> (s: Option<Short>) {
        self.core.peek_short(address)
    }

    fn word_at(&self, address: Word) -> (w: Option<Word>) {
        self.core.peek_word(address)
    }
}

impl Cache for MultiAssociative {
    closed spec fn model(&self) -> CacheModel {
        CacheModel::Sets(self.core.model())
    }

    closed spec fn inv(&self) -> bool {
        self.core.inv()
    }

    proof fn lemma_model_wf(&self) {
        self.core.lemma_inv_wf();
    }

    fn get_byte(&mut self, address: Word) -> (r: Result<Byte, Status>) {
        self.core.read_byte(address)
    }

    fn get_short(&mut self, address: Word) -> (r: Result<Short, Status>) {
        self.core.read_short(address)
    }

    fn get_word(&mut self, address: Word) -> (r: Result<Word, Status>) {
        self.core.read_word(address)
    }

    fn write_byte(&mut self, address: Word, data: Byte) -> (s: Status) {
        self.core.write_byte(address, data)
    }

    fn write_short(&mut self, address: Word, data: Short) -> (s: Status) {
        self.core.write_short(address, data)
    }

    fn write_word(&mut self, address: Word, data: Word) -> (s: Status) {
        self.core.write_word(address, data)
    }

    fn check_address(&self, address: Word) -> (s: Status) {
        self.core.check(address)
    }

    fn line_len(&self) -> (n: usize) {
        self.core.line_len()
    }

    fn within_line(&self, address: Word, length: usize) -> (b: bool) {
        self.core.within_line(address, length)
    }

    fn invalidate_line(&mut self, address: Word) -> (b: bool) {
        self.core.invalidate(address)
    }

    fn write_line(&mut self, address: Word, memory: &mut Memory) -> (s: LineReadStatus) {
        self.core.fill(address, memory)
    }

    fn flush(&mut self, memory: &mut Memory) -> (n: usize) {
        self.core.flush(memory)
    }

    fn dirty_lines(&self) -> (n: usize) {
        self.core.dirty_count()
    }

    fn get_lines(&self) -> (lines: Vec<Option<LineData>>) {
        self.core.slots()
    }

    fn byte_at(&self, address: Word) -> (b: Option<Byte>) {
        self.core.peek(address)
    }

    fn short_at(&self, address: Word) -> (s: Option<Short>) {
        self.core.peek_short(address)
    }

    fn word_at(&self, address: Word) -> (w: Option<Word>) {
        self.core.peek_word(address)
    }
}

} // verus!
