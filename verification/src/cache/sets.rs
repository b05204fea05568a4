//! The set-associative storage shared by the caches: sets of lines kept in
//! order of use, the most recently used first.
use crate::bytes::{short_to_be_bytes, word_to_be_bytes, short_from_be_bytes, word_from_be_bytes};
use crate::cache::model::{
    clean_lines, lemma_count_dirty_bound, lemma_front_unique, lemma_remove_unique, lemma_removed_tag_gone, unique_tags,
    count_dirty, has_tag, read_line, seq_byte_at, seq_with_byte, tag_index, wrap, write_back, LineModel,
    SetsModel,
};
use crate::cache::{shows_slot, CacheModel, LineData, LineReadStatus, Status};
use crate::memory::Memory;
use crate::types::{Byte, Short, Word};
use vstd::arithmetic::power2::{lemma_pow2_adds, lemma_pow2_pos, pow2};
use vstd::prelude::*;

verus! {

/// A line of data held by a cache.
pub struct Line {
    /// Whether the line was written since it was read from memory.
    pub dirty: bool,
    /// The tag of the line.
    pub tag: Word,
    /// The bytes of the line.
    pub data: Vec<Byte>,
}

impl View for Line {
    type V = LineModel;

    open spec fn view(&self) -> LineModel {
        LineModel { tag: self.tag, dirty: self.dirty, data: self.data@ }
    }
}

/// The view of the lines of a set.
pub open spec fn lines_view(lines: Seq<Line>) -> Seq<LineModel> {
    lines.map_values(|l: Line| l@)
}

/// The storage of a set-associative cache with `ways` lines per set.
pub struct SetCache {
    off_bits: usize,
    set_bits: usize,
    ways: usize,
    line_len: u64,
    set_count: u64,
    sets: Vec<Vec<Line>>,
}

impl SetCache {
    /// The contents of the storage.
    pub closed spec fn model(&self) -> SetsModel {
        SetsModel {
            off_bits: self.off_bits as nat,
            set_bits: self.set_bits as nat,
            ways: self.ways as nat,
            sets: self.sets@.map_values(|s: Vec<Line>| lines_view(s@)),
        }
    }

    /// The sizes of the storage are consistent.
    pub closed spec fn geometry(&self) -> bool {
        &&& 2 <= self.off_bits <= 32
        &&& self.set_bits <= 30
        &&& self.off_bits + self.set_bits <= 32
        &&& self.line_len == pow2(self.off_bits as nat)
        &&& self.set_count == pow2(self.set_bits as nat)
    }

    /// The storage is well formed.
    pub closed spec fn inv(&self) -> bool {
        &&& self.model().wf()
        &&& self.geometry()
        &&& self.line_len == pow2(self.off_bits as nat)
        &&& self.set_count == pow2(self.set_bits as nat)
        &&& pow2(self.off_bits as nat) <= usize::MAX
        &&& pow2(self.set_bits as nat) * self.ways <= usize::MAX
    }

    /// A well-formed cache has well-formed contents.
    pub proof fn lemma_inv_wf(&self)
        requires
            self.inv(),
        ensures
            self.model().wf(),
    {
    }

    /// Creates storage with `2^set_bits` empty sets of `ways` lines of
    /// `2^off_bits` bytes.
    pub fn new(off_bits: usize, set_bits: usize, ways: usize) -> (c: SetCache)
        requires
            2 <= off_bits <= 32,
            set_bits <= 30,
            off_bits + set_bits <= 32,
            ways >= 1,
            pow2(off_bits as nat) <= usize::MAX,
            pow2(set_bits as nat) * ways <= usize::MAX,
        ensures
            c.inv(),
            c.model().off_bits == off_bits,
            c.model().set_bits == set_bits,
            c.model().ways == ways,
            c.model().sets == Seq::new(pow2(set_bits as nat), |s: int| Seq::<LineModel>::empty()),
    {
        proof {
            vstd::bits::lemma_u64_pow2_no_overflow(off_bits as nat);
            vstd::bits::lemma_u64_pow2_no_overflow(set_bits as nat);
            vstd::bits::lemma_u64_shl_is_mul(1, off_bits as u64);
            vstd::bits::lemma_u64_shl_is_mul(1, set_bits as u64);
        }
        let line_len: u64 = 1u64 << (off_bits as u64);
        let set_count: u64 = 1u64 << (set_bits as u64);
        let mut sets: Vec<Vec<Line>> = Vec::new();
        let mut i: u64 = 0;
        while i < set_count
            invariant
                i <= set_count,
                sets@.len() == i,
                forall|s: int| 0 <= s < i ==> (#[trigger] sets@[s])@.len() == 0,
            decreases set_count - i,
        {
            sets.push(Vec::new());
            i += 1;
        }
        let c = SetCache { off_bits, set_bits, ways, line_len, set_count, sets };
        assert(c.model().wf());
        proof {
            assert forall|s: int| 0 <= s < c.model().sets.len() implies #[trigger] c.model().sets[s]
                =~= Seq::<LineModel>::empty() by {}
            assert(c.model().sets =~= Seq::new(pow2(set_bits as nat), |s: int| Seq::<LineModel>::empty()));
        }
        c
    }

    /// The number of bytes of a line.
    pub fn line_len(&self) -> (n: usize)
        requires
            self.inv(),
        ensures
            n == self.model().line_len(),
    {
        self.line_len as usize
    }

    /// The number of bits of an address that pick the offset.
    pub fn off_bits(&self) -> (n: usize)
        ensures
            n == self.model().off_bits,
    {
        self.off_bits
    }

    /// The number of bits of an address that pick the tag.
    pub fn tag_bits(&self) -> (n: usize)
        requires
            self.inv(),
        ensures
            n == 32 - self.model().off_bits - self.model().set_bits,
    {
        32 - (self.off_bits + self.set_bits)
    }

    /// The number of bits of an address that pick the set.
    pub fn set_bits(&self) -> (n: usize)
        ensures
            n == self.model().set_bits,
    {
        self.set_bits
    }

    /// The number of lines of a set.
    pub fn ways(&self) -> (n: usize)
        ensures
            n == self.model().ways,
    {
        self.ways
    }

    /// Splits an address into its tag, set and offset.
    fn split(&self, address: Word) -> (r: (Word, usize, usize))
        requires
            self.inv(),
        ensures
            r.0 == self.model().tag_of(address as int),
            r.1 == self.model().set_of(address as int),
            r.2 == self.model().offset_of(address as int),
            r.1 < self.sets@.len(),
            r.2 < self.model().line_len(),
            r.0 < self.model().tag_count(),
    {
        let m = Ghost(self.model());
        let a = address as u64;
        let ll = self.line_len;
        let sc = self.set_count;
        proof {
            lemma_pow2_pos(self.off_bits as nat);
            lemma_pow2_pos(self.set_bits as nat);
            lemma_pow2_adds(self.off_bits as nat, self.set_bits as nat);
            vstd::bits::lemma_u64_pow2_no_overflow((self.off_bits + self.set_bits) as nat);
            if self.off_bits + self.set_bits == 32 {
                assert(pow2(32) == 0x1_0000_0000) by {
                    vstd::arithmetic::power2::lemma2_to64();
                }
            } else {
                vstd::arithmetic::power2::lemma_pow2_strictly_increases(
                    (self.off_bits + self.set_bits) as nat,
                    32,
                );
                assert(pow2(32) == 0x1_0000_0000) by {
                    vstd::arithmetic::power2::lemma2_to64();
                }
            }
        }
        let span: u64 = ll * sc;
        let off = a % ll;
        let set = (a / ll) % sc;
        let tag = a / span;
        proof {
            assert(pow2(self.set_bits as nat) <= usize::MAX) by (nonlinear_arith)
                requires
                    pow2(self.set_bits as nat) * self.ways <= usize::MAX,
                    self.ways >= 1,
            ;
            assert(tag <= a) by {
                vstd::arithmetic::div_mod::lemma_div_is_ordered_by_denominator(a as int, 1, span as int);
            }
            lemma_pow2_adds((self.off_bits + self.set_bits) as nat, (32 - self.off_bits - self.set_bits) as nat);
            vstd::arithmetic::div_mod::lemma_fundamental_div_mod(a as int, span as int);
            let tc = self.model().tag_count() as int;
            assert(span * tc == 0x1_0000_0000);
            assert((a as int) / (span as int) < tc) by (nonlinear_arith)
                requires
                    a as int == span * ((a as int) / (span as int)) + (a as int) % (span as int),
                    0 <= (a as int) % (span as int) < span,
                    span > 0,
                    a < 0x1_0000_0000,
                    span * tc == 0x1_0000_0000,
            ;
        }
        (tag as Word, set as usize, off as usize)
    }

    /// The position in a set of the line with a tag, if any.
    fn find(&self, set: usize, tag: Word) -> (r: Option<usize>)
        requires
            self.inv(),
            set < self.sets@.len(),
        ensures
            r is Some <==> has_tag(self.model().sets[set as int], tag as int),
            r matches Some(i) ==> i == tag_index(self.model().sets[set as int], tag as int) && i
                < self.sets@[set as int]@.len(),
    {
        let lines = &self.sets[set];
        let ghost lv = self.model().sets[set as int];
        assert(lv.len() == lines@.len());
        let mut i: usize = 0;
        while i < lines.len()
            invariant
                self.inv(),
                set < self.sets@.len(),
                lines == self.sets@[set as int],
                lv == self.model().sets[set as int],
                i <= lines@.len(),
                lv == lines_view(lines@),
                forall|j: int| 0 <= j < i ==> lv[j].tag != tag,
            decreases lines@.len() - i,
        {
            if lines[i].tag == tag {
                proof {
                    assert(lv[i as int].tag == tag);
                    let k = tag_index(lv, tag as int);
                    assert(has_tag(lv, tag as int));
                    assert(self.model().wf());
                    assert(0 <= k < lv.len() && lv[k].tag == tag);
                    if k != i {
                        assert(self.model().sets[set as int][k].tag != self.model().sets[set
                            as int][i as int].tag);
                    }
                }
                return Some(i);
            }
            i += 1;
        }
        None
    }
}

/// Two storages that differ at most in set `s`.
proof fn lemma_replaced(before: SetCache, after: SetCache, s: int)
    requires
        0 <= s < before.sets@.len(),
        after.sets@.len() == before.sets@.len(),
        forall|t: int| 0 <= t < before.sets@.len() && t != s ==> after.sets@[t] == before.sets@[t],
        after.off_bits == before.off_bits,
        after.set_bits == before.set_bits,
        after.ways == before.ways,
        after.line_len == before.line_len,
        after.set_count == before.set_count,
    ensures
        after.model() == before.model().with_set(s, lines_view(after.sets@[s]@)),
{
    assert(after.model().sets =~= before.model().sets.update(s, lines_view(after.sets@[s]@)));
}

/// The address `k` bytes after `address`, wrapping at the top of the address space.
pub fn step_address(address: Word, k: Word) -> (r: Word)
    ensures
        r == wrap(address as int, k as int),
{
    address.wrapping_add(k)
}

impl SetCache {
    /// The kind of miss of an access to set `s`.
    fn miss_status(&self, s: usize) -> (r: Status)
        requires
            self.inv(),
            s < self.sets@.len(),
        ensures
            r == (if self.model().sets[s as int].len() < self.ways {
                Status::Cold
            } else {
                Status::Conflict
            }),
    {
        if self.sets[s].len() < self.ways {
            Status::Cold
        } else {
            Status::Conflict
        }
    }

    /// The status of an access, changing nothing.
    pub fn check(&self, address: Word) -> (r: Status)
        requires
            self.inv(),
        ensures
            r == self.model().lookup(address as int),
    {
        let (tag, s, _) = self.split(address);
        match self.find(s, tag) {
            Some(_) => Status::Hit,
            None => self.miss_status(s),
        }
    }

    /// The cached byte at an address, changing nothing.
    pub fn peek(&self, address: Word) -> (r: Option<Byte>)
        requires
            self.inv(),
        ensures
            r == (if self.model().holds(address as int) {
                Some(self.model().cached_byte(address as int))
            } else {
                None
            }),
    {
        let (tag, s, off) = self.split(address);
        match self.find(s, tag) {
            Some(i) => {
                proof {
                    assert(self.model().sets[s as int][i as int].data.len() == self.model().line_len());
                }
                Some(self.sets[s][i].data[off])
            },
            None => None,
        }
    }

    /// Reads a byte; on a hit its line becomes the most recently used.
    pub fn read_byte(&mut self, address: Word) -> (r: Result<Byte, Status>)
        requires
            old(self).inv(),
        ensures
            final(self).inv(),
            (final(self).model(), r) == old(self).model().read_byte(address as int),
    {
        let (tag, s, off) = self.split(address);
        match self.find(s, tag) {
            Some(i) => {
                let ghost before = *self;
                let ghost lv = before.model().sets[s as int];
                proof {
                    assert(lv[i as int].data.len() == before.model().line_len());
                }
                let mut lines: Vec<Line> = Vec::new();
                std::mem::swap(&mut lines, &mut self.sets[s]);
                let l = lines.remove(i);
                let b = l.data[off];
                lines.insert(0, l);
                std::mem::swap(&mut lines, &mut self.sets[s]);
                proof {
                    lemma_replaced(before, *self, s as int);
                    let nv = lines_view(self.sets@[s as int]@);
                    assert(nv =~= seq![lv[i as int]] + lv.remove(i as int));
                    before.model().lemma_set_unique(s as int);
                    lemma_remove_unique(lv, i as int);
                    lemma_removed_tag_gone(lv, i as int);
                    lemma_front_unique(lv[i as int], lv.remove(i as int));
                    before.model().lemma_with_set_wf(s as int, nv);
                }
                Ok(b)
            },
            None => Err(self.miss_status(s)),
        }
    }

    /// Writes a byte on a hit; its line becomes dirty and the most recently used.
    pub fn write_byte(&mut self, address: Word, value: Byte) -> (r: Status)
        requires
            old(self).inv(),
        ensures
            final(self).inv(),
            (final(self).model(), r) == old(self).model().write_byte(address as int, value),
    {
        let (tag, s, off) = self.split(address);
        match self.find(s, tag) {
            Some(i) => {
                let ghost before = *self;
                let ghost lv = before.model().sets[s as int];
                proof {
                    assert(lv[i as int].data.len() == before.model().line_len());
                    assert(lv[i as int].tag < before.model().tag_count());
                }
                let mut lines: Vec<Line> = Vec::new();
                std::mem::swap(&mut lines, &mut self.sets[s]);
                let mut l = lines.remove(i);
                l.data.set(off, value);
                l.dirty = true;
                let ghost changed = l@;
                lines.insert(0, l);
                std::mem::swap(&mut lines, &mut self.sets[s]);
                proof {
                    lemma_replaced(before, *self, s as int);
                    let nv = lines_view(self.sets@[s as int]@);
                    assert(nv =~= seq![changed] + lv.remove(i as int));
                    before.model().lemma_set_unique(s as int);
                    lemma_remove_unique(lv, i as int);
                    lemma_removed_tag_gone(lv, i as int);
                    lemma_front_unique(changed, lv.remove(i as int));
                    before.model().lemma_with_set_wf(s as int, nv);
                }
                Status::Hit
            },
            None => self.miss_status(s),
        }
    }

    /// Removes the line that holds an address, without writing it back.
    pub fn invalidate(&mut self, address: Word) -> (r: bool)
        requires
            old(self).inv(),
        ensures
            final(self).inv(),
            (final(self).model(), r) == old(self).model().invalidate(address as int),
    {
        let (tag, s, _) = self.split(address);
        match self.find(s, tag) {
            Some(i) => {
                let ghost before = *self;
                let ghost lv = before.model().sets[s as int];
                let mut lines: Vec<Line> = Vec::new();
                std::mem::swap(&mut lines, &mut self.sets[s]);
                let _gone = lines.remove(i);
                std::mem::swap(&mut lines, &mut self.sets[s]);
                proof {
                    lemma_replaced(before, *self, s as int);
                    let nv = lines_view(self.sets@[s as int]@);
                    assert(nv =~= lv.remove(i as int));
                    before.model().lemma_set_unique(s as int);
                    lemma_remove_unique(lv, i as int);
                    before.model().lemma_with_set_wf(s as int, nv);
                }
                true
            },
            None => false,
        }
    }
}

impl SetCache {
    /// Reads a big-endian short byte by byte; the first miss ends the read.
    pub fn read_short(&mut self, address: Word) -> (r: Result<Short, Status>)
        requires
            old(self).inv(),
        ensures
            final(self).inv(),
            (CacheModel::Sets(final(self).model()), r) == CacheModel::Sets(old(self).model()).read_short(
                address as int,
            ),
    {
        match self.read_byte(address) {
            Err(e) => Err(e),
            Ok(b0) => match self.read_byte(step_address(address, 1)) {
                Err(e) => Err(e),
                Ok(b1) => Ok(short_from_be_bytes(b0, b1)),
            },
        }
    }

    /// Reads a big-endian word byte by byte; the first miss ends the read.
    pub fn read_word(&mut self, address: Word) -> (r: Result<Word, Status>)
        requires
            old(self).inv(),
        ensures
            final(self).inv(),
            (CacheModel::Sets(final(self).model()), r) == CacheModel::Sets(old(self).model()).read_word(
                address as int,
            ),
    {
        match self.read_byte(address) {
            Err(e) => Err(e),
            Ok(b0) => match self.read_byte(step_address(address, 1)) {
                Err(e) => Err(e),
                Ok(b1) => match self.read_byte(step_address(address, 2)) {
                    Err(e) => Err(e),
                    Ok(b2) => match self.read_byte(step_address(address, 3)) {
                        Err(e) => Err(e),
                        Ok(b3) => Ok(word_from_be_bytes(b0, b1, b2, b3)),
                    },
                },
            },
        }
    }

    /// Writes a big-endian short when lines hold both of its bytes.
    pub fn write_short(&mut self, address: Word, value: Short) -> (r: Status)
        requires
            old(self).inv(),
        ensures
            final(self).inv(),
            (CacheModel::Sets(final(self).model()), r) == CacheModel::Sets(old(self).model()).write_short(
                address as int,
                value,
            ),
    {
        let a1 = step_address(address, 1);
        let s0 = self.check(address);
        if !s0.is_hit() {
            return s0;
        }
        let s1 = self.check(a1);
        if !s1.is_hit() {
            return s1;
        }
        let b = short_to_be_bytes(value);
        let ghost m0 = self.model();
        self.write_byte(address, b[0]);
        proof {
            m0.lemma_put_keeps_holds(address as int, b[0], a1 as int);
        }
        self.write_byte(a1, b[1]);
        Status::Hit
    }

    /// Writes a big-endian word when lines hold all four of its bytes.
    pub fn write_word(&mut self, address: Word, value: Word) -> (r: Status)
        requires
            old(self).inv(),
        ensures
            final(self).inv(),
            (CacheModel::Sets(final(self).model()), r) == CacheModel::Sets(old(self).model()).write_word(
                address as int,
                value,
            ),
    {
        let a1 = step_address(address, 1);
        let a2 = step_address(address, 2);
        let a3 = step_address(address, 3);
        let s0 = self.check(address);
        if !s0.is_hit() {
            return s0;
        }
        let s1 = self.check(a1);
        if !s1.is_hit() {
            return s1;
        }
        let s2 = self.check(a2);
        if !s2.is_hit() {
            return s2;
        }
        let s3 = self.check(a3);
        if !s3.is_hit() {
            return s3;
        }
        let b = word_to_be_bytes(value);
        let ghost m0 = self.model();
        self.write_byte(address, b[0]);
        let ghost m1 = self.model();
        proof {
            m0.lemma_put_keeps_holds(address as int, b[0], a1 as int);
            m0.lemma_put_keeps_holds(address as int, b[0], a2 as int);
            m0.lemma_put_keeps_holds(address as int, b[0], a3 as int);
        }
        self.write_byte(a1, b[1]);
        let ghost m2 = self.model();
        proof {
            m1.lemma_put_keeps_holds(a1 as int, b[1], a2 as int);
            m1.lemma_put_keeps_holds(a1 as int, b[1], a3 as int);
        }
        self.write_byte(a2, b[2]);
        proof {
            m2.lemma_put_keeps_holds(a2 as int, b[2], a3 as int);
        }
        self.write_byte(a3, b[3]);
        Status::Hit
    }

    /// The first address of the line with a tag in set `s`.
    fn base_address(&self, tag: Word, s: usize) -> (r: Word)
        requires
            self.geometry(),
            tag < self.model().tag_count(),
            s < self.model().set_count(),
        ensures
            r == self.model().base_of(tag as int, s as int),
            r + self.model().line_len() <= 0x1_0000_0000,
    {
        let ghost m = self.model();
        proof {
            lemma_pow2_pos(self.off_bits as nat);
            lemma_pow2_adds(self.off_bits as nat, self.set_bits as nat);
            lemma_pow2_adds((self.off_bits + self.set_bits) as nat, (32 - self.off_bits - self.set_bits) as nat);
            assert(pow2(32) == 0x1_0000_0000) by {
                vstd::arithmetic::power2::lemma2_to64();
            }
            let ll = m.line_len() as int;
            let sc = m.set_count() as int;
            let tc = m.tag_count() as int;
            let sp = m.span() as int;
            assert(sp == ll * sc);
            assert(sp * tc == 0x1_0000_0000);
            lemma_pow2_pos((32 - self.off_bits - self.set_bits) as nat);
            assert(sp <= 0x1_0000_0000) by (nonlinear_arith)
                requires
                    sp * tc == 0x1_0000_0000,
                    tc >= 1,
                    sp >= 0,
            ;
            assert(self.line_len * self.set_count == sp);
            assert(tag * sp + s * ll + ll <= 0x1_0000_0000) by (nonlinear_arith)
                requires
                    0 <= tag < tc,
                    0 <= s < sc,
                    ll > 0,
                    sp == ll * sc,
                    sp * tc == 0x1_0000_0000,
            ;
        }
        let span: u64 = self.line_len * self.set_count;
        let r: u64 = (tag as u64) * span + (s as u64) * self.line_len;
        r as Word
    }

    /// Writes `data` to memory byte by byte from `base` on.
    fn write_back_line(memory: &mut Memory, base: Word, data: &Vec<Byte>)
        requires
            old(memory).wf(),
            base + data@.len() <= 0x1_0000_0000,
        ensures
            final(memory).wf(),
            final(memory).page_count() == old(memory).page_count(),
            final(memory)@ == write_back(old(memory)@, base as int, data@),
    {
        let mut k: usize = 0;
        proof {
            assert(data@.take(0) =~= Seq::<Byte>::empty());
        }
        while k < data.len()
            invariant
                memory.wf(),
                memory.page_count() == old(memory).page_count(),
                base + data@.len() <= 0x1_0000_0000,
                k <= data@.len(),
                memory@ == write_back(old(memory)@, base as int, data@.take(k as int)),
            decreases data@.len() - k,
        {
            let ghost before = *memory;
            proof {
                before.lemma_shape();
            }
            memory.write_byte(base + k as Word, data[k]);
            proof {
                assert(data@.take(k + 1).drop_last() =~= data@.take(k as int));
                assert(data@.take(k + 1).last() == data@[k as int]);
            }
            k += 1;
        }
        proof {
            assert(data@.take(data@.len() as int) =~= data@);
        }
    }

    /// Brings the line of an address in from memory, evicting the least
    /// recently used line of a full set (written back first when dirty).
    pub fn fill(&mut self, address: Word, memory: &mut Memory) -> (r: LineReadStatus)
        requires
            old(self).inv(),
            old(memory).wf(),
        ensures
            final(self).inv(),
            final(memory).wf(),
            final(memory).page_count() == old(memory).page_count(),
            (final(self).model(), final(memory)@, r) == old(self).model().fill(address as int, old(memory)@),
    {
        let (tag, s, _) = self.split(address);
        if self.find(s, tag).is_some() {
            return LineReadStatus::Skipped;
        }
        let ghost before = *self;
        let ghost lv = before.model().sets[s as int];
        let mut lines: Vec<Line> = Vec::new();
        std::mem::swap(&mut lines, &mut self.sets[s]);
        let full = lines.len() >= self.ways;
        if full {
            let victim = lines.pop().unwrap();
            proof {
                assert(victim@ == lv.last());
                assert(lv.last() == before.model().sets[s as int][lv.len() - 1]);
            }
            if victim.dirty {
                let vbase = self.base_address(victim.tag, s);
                Self::write_back_line(memory, vbase, &victim.data);
            }
        }
        let ghost mem1 = memory@;
        let base = self.base_address(tag, s);
        let data = memory.read_words(base, self.line_len as usize);
        proof {
            memory.lemma_shape();
            assert(data@ =~= read_line(mem1, base as int, before.model().line_len()));
        }
        let fresh = Line { dirty: false, tag, data };
        let ghost fv = fresh@;
        lines.insert(0, fresh);
        std::mem::swap(&mut lines, &mut self.sets[s]);
        proof {
            lemma_replaced(before, *self, s as int);
            let kept = if full { lv.drop_last() } else { lv };
            let nv = lines_view(self.sets@[s as int]@);
            assert(nv =~= seq![fv] + kept);
            before.model().lemma_set_unique(s as int);
            if full {
                assert(lv.drop_last() =~= lv.remove(lv.len() - 1));
                lemma_remove_unique(lv, lv.len() - 1);
            }
            if has_tag(kept, tag as int) {
                let k = choose|k: int| 0 <= k < kept.len() && kept[k].tag == tag;
                assert(lv[k] == kept[k]);
            }
            lemma_front_unique(fv, kept);
            before.model().lemma_with_set_wf(s as int, nv);
        }
        if full {
            LineReadStatus::Evicted
        } else {
            LineReadStatus::Inserted
        }
    }
}

/// A copy of a line's bytes.
fn copy_bytes(v: &Vec<Byte>) -> (r: Vec<Byte>)
    ensures
        r@ == v@,
{
    let mut r: Vec<Byte> = Vec::new();
    let mut k: usize = 0;
    while k < v.len()
        invariant
            k <= v@.len(),
            r@ == v@.take(k as int),
        decreases v@.len() - k,
    {
        r.push(v[k]);
        k += 1;
        assert(r@ =~= v@.take(k as int));
    }
    assert(v@.take(v@.len() as int) =~= v@);
    r
}

impl SetCache {
    /// Writes every dirty line back to memory, set by set and in order of
    /// use within a set, and marks it clean. Returns how many were written.
    pub fn flush(&mut self, memory: &mut Memory) -> (n: usize)
        requires
            old(self).inv(),
            old(memory).wf(),
        ensures
            final(self).inv(),
            final(memory).wf(),
            final(memory).page_count() == old(memory).page_count(),
            final(self).model() == old(self).model().cleaned(),
            final(memory)@ == old(self).model().flush_sets(old(memory)@, old(self).model().sets.len()),
            n == old(self).model().dirty_count(),
    {
        let ghost m0 = self.model();
        let ghost mem0 = memory@;
        let ghost start = *self;
        let n_sets = self.sets.len();
        let mut count: usize = 0;
        let mut s: usize = 0;
        while s < n_sets
            invariant
                start.inv(),
                m0 == start.model(),
                self.geometry(),
                self.off_bits == start.off_bits,
                self.set_bits == start.set_bits,
                self.ways == start.ways,
                self.line_len == start.line_len,
                self.set_count == start.set_count,
                n_sets == m0.sets.len(),
                self.sets@.len() == n_sets,
                s <= n_sets,
                forall|t: int| 0 <= t < s ==> #[trigger] self.model().sets[t] == clean_lines(m0.sets[t]),
                forall|t: int| s <= t < n_sets ==> #[trigger] self.model().sets[t] == m0.sets[t],
                memory.wf(),
                memory.page_count() == old(memory).page_count(),
                memory@ == m0.flush_sets(mem0, s as nat),
                count == m0.dirty_in(s as nat),
            decreases n_sets - s,
        {
            let ghost before = *self;
            let ghost lv = m0.sets[s as int];
            let ghost mem_s = memory@;
            let ghost count_s = count;
            proof {
                m0.lemma_dirty_in_bound(s as nat);
                assert(lv.len() <= m0.ways);
                assert(s * m0.ways + m0.ways <= m0.set_count() * m0.ways) by (nonlinear_arith)
                    requires
                        s < m0.set_count(),
                ;
                assert(before.model().sets[s as int] == lv);
            }
            let mut lines: Vec<Line> = Vec::new();
            std::mem::swap(&mut lines, &mut self.sets[s]);
            proof {
                assert(lines_view(lines@) == lv);
                assert(lv.take(0) =~= Seq::<LineModel>::empty());
                assert(clean_lines(lv.take(0)) + lv.skip(0) =~= lv);
            }
            let mut j: usize = 0;
            while j < lines.len()
                invariant
                    start.inv(),
                    m0 == start.model(),
                    self.geometry(),
                    self.off_bits == start.off_bits,
                    self.set_bits == start.set_bits,
                    self.line_len == start.line_len,
                    self.set_count == start.set_count,
                    s < n_sets,
                    n_sets == m0.sets.len(),
                    lv == m0.sets[s as int],
                    lines@.len() == lv.len(),
                    j <= lv.len(),
                    lines_view(lines@) == clean_lines(lv.take(j as int)) + lv.skip(j as int),
                    memory.wf(),
                    memory.page_count() == old(memory).page_count(),
                    memory@ == m0.flush_lines(mem_s, s as int, lv.take(j as int)),
                    count == count_s + count_dirty(lv.take(j as int)),
                    count_s <= s * m0.ways,
                    lv.len() <= m0.ways,
                    s * m0.ways + m0.ways <= usize::MAX,
                decreases lv.len() - j,
            {
                proof {
                    assert(lines_view(lines@)[j as int] == lv[j as int]);
                    assert(lv[j as int] == m0.sets[s as int][j as int]);
                    lemma_count_dirty_bound(lv.take(j as int));
                    assert(lv.take(j + 1).drop_last() =~= lv.take(j as int));
                    assert(lv.take(j + 1).last() == lv[j as int]);
                }
                let ghost pre = lines@;
                if lines[j].dirty {
                    let base = self.base_address(lines[j].tag, s);
                    Self::write_back_line(memory, base, &lines[j].data);
                    let mut l = lines.remove(j);
                    l.dirty = false;
                    lines.insert(j, l);
                    count += 1;
                    proof {
                        assert(lines@ =~= pre.update(j as int, l));
                    }
                }
                proof {
                    let target = clean_lines(lv.take(j + 1)) + lv.skip(j + 1);
                    let before_view = clean_lines(lv.take(j as int)) + lv.skip(j as int);
                    assert(lines_view(pre) == before_view);
                    assert forall|k: int| 0 <= k < lv.len() implies lines_view(lines@)[k]
                        == target[k] by {
                        if k < j {
                            assert(lines@[k] == pre[k]);
                            assert(before_view[k] == target[k]);
                        } else if k > j {
                            assert(lines@[k] == pre[k]);
                            assert(before_view[k] == target[k]);
                        } else {
                            assert(target[k] == LineModel { tag: lv[k].tag, dirty: false, data: lv[k].data });
                        }
                    }
                    assert(lines_view(lines@) =~= target);
                }
                j += 1;
            }
            std::mem::swap(&mut lines, &mut self.sets[s]);
            proof {
                assert(lv.take(lv.len() as int) =~= lv);
                assert(lines_view(self.sets@[s as int]@) =~= clean_lines(lv));
                lemma_replaced(before, *self, s as int);
            }
            s += 1;
        }
        proof {
            assert(self.model().sets =~= m0.cleaned().sets);
            m0.lemma_cleaned_wf();
        }
        count
    }

    /// The number of dirty lines.
    pub fn dirty_count(&self) -> (n: usize)
        requires
            self.inv(),
        ensures
            n == self.model().dirty_count(),
    {
        let ghost m = self.model();
        let n_sets = self.sets.len();
        let mut count: usize = 0;
        let mut s: usize = 0;
        while s < n_sets
            invariant
                self.inv(),
                m == self.model(),
                n_sets == m.sets.len(),
                s <= n_sets,
                count == m.dirty_in(s as nat),
            decreases n_sets - s,
        {
            let lines = &self.sets[s];
            let ghost lv = m.sets[s as int];
            proof {
                m.lemma_dirty_in_bound(s as nat);
                assert(lv.len() <= m.ways);
                assert(s * m.ways + m.ways <= m.set_count() * m.ways) by (nonlinear_arith)
                    requires
                        s < m.set_count(),
                ;
                assert(lv.take(0) =~= Seq::<LineModel>::empty());
            }
            let ghost count_s = count;
            let mut j: usize = 0;
            while j < lines.len()
                invariant
                    lines_view(lines@) == lv,
                    j <= lv.len(),
                    lv.len() <= m.ways,
                    count == count_s + count_dirty(lv.take(j as int)),
                    count_s <= s * m.ways,
                    s * m.ways + m.ways <= usize::MAX,
                decreases lv.len() - j,
            {
                proof {
                    lemma_count_dirty_bound(lv.take(j as int));
                    assert(lv.take(j + 1).drop_last() =~= lv.take(j as int));
                    assert(lv.take(j + 1).last() == lv[j as int]);
                    assert(lines_view(lines@)[j as int] == lv[j as int]);
                }
                if lines[j].dirty {
                    count += 1;
                }
                j += 1;
            }
            proof {
                assert(lv.take(lv.len() as int) =~= lv);
            }
            s += 1;
        }
        count
    }

    /// Every line slot: way `i % ways` of set `i / ways` at position `i`.
    pub fn slots(&self) -> (out: Vec<Option<LineData>>)
        requires
            self.inv(),
        ensures
            out@.len() == CacheModel::Sets(self.model()).slot_count(),
            forall|i: int|
                0 <= i < out@.len() ==> shows_slot(
                    #[trigger] out@[i],
                    CacheModel::Sets(self.model()).slot(i),
                ),
    {
        let ghost m = self.model();
        let ghost cm = CacheModel::Sets(m);
        let n_sets = self.sets.len();
        let ways = self.ways;
        let mut out: Vec<Option<LineData>> = Vec::new();
        let mut s: usize = 0;
        while s < n_sets
            invariant
                self.inv(),
                m == self.model(),
                cm == CacheModel::Sets(m),
                n_sets == m.sets.len(),
                ways == m.ways,
                s <= n_sets,
                out@.len() == s * ways,
                forall|i: int| 0 <= i < out@.len() ==> shows_slot(#[trigger] out@[i], cm.slot(i)),
            decreases n_sets - s,
        {
            let lines = &self.sets[s];
            proof {
                assert(s * ways + ways <= m.set_count() * ways) by (nonlinear_arith)
                    requires
                        s < m.set_count(),
                ;
            }
            let mut w: usize = 0;
            while w < ways
                invariant
                    self.inv(),
                    m == self.model(),
                    cm == CacheModel::Sets(m),
                    n_sets == m.sets.len(),
                    ways == m.ways,
                    s < n_sets,
                    lines == self.sets@[s as int],
                    w <= ways,
                    out@.len() == s * ways + w,
                    s * ways + ways <= m.set_count() * ways,
                    forall|i: int| 0 <= i < out@.len() ==> shows_slot(#[trigger] out@[i], cm.slot(i)),
                decreases ways - w,
            {
                proof {
                    vstd::arithmetic::div_mod::lemma_fundamental_div_mod_converse(
                        s * ways + w,
                        ways as int,
                        s as int,
                        w as int,
                    );
                }
                if w < lines.len() {
                    proof {
                        assert(m.sets[s as int][w as int] == lines@[w as int]@);
                        assert(lines@[w as int].tag < m.tag_count());
                    }
                    let base = self.base_address(lines[w].tag, s);
                    let data = copy_bytes(&lines[w].data);
                    out.push(Some(LineData { base_address: base, dirty: lines[w].dirty, data }));
                } else {
                    out.push(None);
                }
                w += 1;
            }
            proof {
                assert(s * ways + ways == (s + 1) * ways) by (nonlinear_arith);
            }
            s += 1;
        }
        out
    }
}

impl SetCache {
    /// Whether `length` bytes from an address lie in one line.
    pub fn within_line(&self, address: Word, length: usize) -> (b: bool)
        requires
            self.inv(),
        ensures
            b == CacheModel::Sets(self.model()).within_line(address as int, length as int),
    {
        let (_, _, off) = self.split(address);
        (length as u64) <= self.line_len - (off as u64)
    }

    /// The cached short at an address, changing nothing.
    pub fn peek_short(&self, address: Word) -> (r: Option<Short>)
        requires
            self.inv(),
        ensures
            r == CacheModel::Sets(self.model()).peek_short(address as int),
    {
        match self.peek(address) {
            None => None,
            Some(b0) => match self.peek(step_address(address, 1)) {
                None => None,
                Some(b1) => Some(short_from_be_bytes(b0, b1)),
            },
        }
    }

    /// The cached word at an address, changing nothing.
    pub fn peek_word(&self, address: Word) -> (r: Option<Word>)
        requires
            self.inv(),
        ensures
            r == CacheModel::Sets(self.model()).peek_word(address as int),
    {
        match self.peek(address) {
            None => None,
            Some(b0) => match self.peek(step_address(address, 1)) {
                None => None,
                Some(b1) => match self.peek(step_address(address, 2)) {
                    None => None,
                    Some(b2) => match self.peek(step_address(address, 3)) {
                        None => None,
                        Some(b3) => Some(word_from_be_bytes(b0, b1, b2, b3)),
                    },
                },
            },
        }
    }
}

} // verus!
