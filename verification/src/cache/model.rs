//! The mathematical model of a cache: what each operation gives back and how
//! it changes the cache and the main memory.
use crate::bytes::{short_bytes, short_of, word_bytes, word_of};
use crate::cache::{LineReadStatus, Status};
use crate::types::{Byte, Short, Word};
use vstd::arithmetic::power2::{lemma_pow2_pos, pow2};
use vstd::prelude::*;

verus! {

/// The number of distinct addresses.
pub open spec fn address_space() -> int {
    0x1_0000_0000
}

/// The address `k` bytes after `address`, wrapping at the top of the address space.
pub open spec fn wrap(address: int, k: int) -> int {
    (address + k) % address_space()
}

/// The contents of a memory after writing a byte to an address.
pub open spec fn seq_with_byte(mem: Seq<Byte>, address: int, value: Byte) -> Seq<Byte> {
    mem.update(address % (mem.len() as int), value)
}

/// The byte that a read of a memory with these contents gives.
pub open spec fn seq_byte_at(mem: Seq<Byte>, address: int) -> Byte {
    mem[address % (mem.len() as int)]
}

/// The contents of a memory after writing `data` byte by byte from `base` on.
pub open spec fn write_back(mem: Seq<Byte>, base: int, data: Seq<Byte>) -> Seq<Byte>
    decreases data.len(),
{
    if data.len() == 0 {
        mem
    } else {
        seq_with_byte(write_back(mem, base, data.drop_last()), base + data.len() - 1, data.last())
    }
}

/// The `n` bytes that a memory holds from `base` on.
pub open spec fn read_line(mem: Seq<Byte>, base: int, n: nat) -> Seq<Byte> {
    Seq::new(n, |k: int| seq_byte_at(mem, base + k))
}

/// A line of a set-associative cache.
pub struct LineModel {
    pub tag: Word,
    pub dirty: bool,
    pub data: Seq<Byte>,
}

/// Whether some line of a set holds a tag.
pub open spec fn has_tag(lines: Seq<LineModel>, tag: int) -> bool {
    exists|i: int| 0 <= i < lines.len() && lines[i].tag == tag
}

/// The position of the line of a set that holds a tag.
pub open spec fn tag_index(lines: Seq<LineModel>, tag: int) -> int {
    choose|i: int| 0 <= i < lines.len() && lines[i].tag == tag
}

/// The number of dirty lines of a set.
pub open spec fn count_dirty(lines: Seq<LineModel>) -> nat
    decreases lines.len(),
{
    if lines.len() == 0 {
        0
    } else {
        count_dirty(lines.drop_last()) + if lines.last().dirty {
            1nat
        } else {
            0nat
        }
    }
}

/// The lines of a set with their dirty flags cleared.
pub open spec fn clean_lines(lines: Seq<LineModel>) -> Seq<LineModel> {
    lines.map_values(|l: LineModel| LineModel { tag: l.tag, dirty: false, data: l.data })
}

/// The contents of a set-associative cache: `sets[s]` holds the lines of set
/// `s`, the most recently used first.
pub struct SetsModel {
    pub off_bits: nat,
    pub set_bits: nat,
    pub ways: nat,
    pub sets: Seq<Seq<LineModel>>,
}

impl SetsModel {
    /// The number of bytes of a line.
    pub open spec fn line_len(self) -> nat {
        pow2(self.off_bits)
    }

    /// The number of sets.
    pub open spec fn set_count(self) -> nat {
        pow2(self.set_bits)
    }

    /// The number of addresses that one tag covers.
    pub open spec fn span(self) -> nat {
        pow2(self.off_bits + self.set_bits)
    }

    /// The number of distinct tags.
    pub open spec fn tag_count(self) -> nat {
        pow2((32 - self.off_bits - self.set_bits) as nat)
    }

    /// The offset of an address within its line.
    pub open spec fn offset_of(self, address: int) -> int {
        address % (self.line_len() as int)
    }

    /// The set of an address.
    pub open spec fn set_of(self, address: int) -> int {
        (address / (self.line_len() as int)) % (self.set_count() as int)
    }

    /// The tag of an address.
    pub open spec fn tag_of(self, address: int) -> int {
        address / (self.span() as int)
    }

    /// The first address of the line with a tag in a set.
    pub open spec fn base_of(self, tag: int, set: int) -> int {
        tag * (self.span() as int) + set * (self.line_len() as int)
    }

    /// The cache is well formed: its geometry is one that can be built, each
    /// set holds at most `ways` full lines, and no tag occurs twice in a set.
    pub open spec fn wf(self) -> bool {
        &&& 2 <= self.off_bits <= 32
        &&& self.set_bits <= 30
        &&& self.off_bits + self.set_bits <= 32
        &&& self.ways >= 1
        &&& self.sets.len() == self.set_count()
        &&& forall|s: int| 0 <= s < self.sets.len() ==> #[trigger] self.sets[s].len() <= self.ways
        &&& forall|s: int, i: int|
            0 <= s < self.sets.len() && 0 <= i < self.sets[s].len() ==> {
                &&& (#[trigger] self.sets[s][i]).data.len() == self.line_len()
                &&& self.sets[s][i].tag < self.tag_count()
            }
        &&& forall|s: int, i: int, j: int|
            0 <= s < self.sets.len() && 0 <= i < self.sets[s].len() && 0 <= j < self.sets[s].len()
                && i != j ==> #[trigger] self.sets[s][i].tag != #[trigger] self.sets[s][j].tag
    }

    /// The cache with the lines of set `s` replaced.
    pub open spec fn with_set(self, s: int, lines: Seq<LineModel>) -> SetsModel {
        SetsModel { sets: self.sets.update(s, lines), ..self }
    }

    /// The lines of the set of an address.
    pub open spec fn lines_of(self, address: int) -> Seq<LineModel> {
        self.sets[self.set_of(address)]
    }

    /// Whether a line holds an address.
    pub open spec fn holds(self, address: int) -> bool {
        has_tag(self.lines_of(address), self.tag_of(address))
    }

    /// The status of an access: a hit when a line holds the address, a cold
    /// miss while the set has room, a conflict miss when it is full.
    pub open spec fn lookup(self, address: int) -> Status {
        if self.holds(address) {
            Status::Hit
        } else if self.lines_of(address).len() < self.ways {
            Status::Cold
        } else {
            Status::Conflict
        }
    }

    /// The position in its set of the line that holds an address.
    pub open spec fn line_index(self, address: int) -> int {
        tag_index(self.lines_of(address), self.tag_of(address))
    }

    /// The cached byte at an address.
    pub open spec fn cached_byte(self, address: int) -> Byte {
        self.lines_of(address)[self.line_index(address)].data[self.offset_of(address)]
    }

    /// The cache after the line that holds an address became the most recently used.
    pub open spec fn touch(self, address: int) -> SetsModel {
        let lines = self.lines_of(address);
        let i = self.line_index(address);
        self.with_set(self.set_of(address), seq![lines[i]] + lines.remove(i))
    }

    /// The cache after a byte was stored in the line that holds an address,
    /// which becomes dirty and the most recently used.
    pub open spec fn put_byte(self, address: int, value: Byte) -> SetsModel {
        let lines = self.lines_of(address);
        let i = self.line_index(address);
        let l = lines[i];
        let changed = LineModel {
            tag: l.tag,
            dirty: true,
            data: l.data.update(self.offset_of(address), value),
        };
        self.with_set(self.set_of(address), seq![changed] + lines.remove(i))
    }

    /// A read of a byte: the cached byte on a hit, which makes its line the
    /// most recently used; the kind of miss otherwise.
    pub open spec fn read_byte(self, address: int) -> (SetsModel, Result<Byte, Status>) {
        if self.holds(address) {
            (self.touch(address), Ok(self.cached_byte(address)))
        } else {
            (self, Err(self.lookup(address)))
        }
    }

    /// A write of a byte: on a hit the byte is stored; otherwise nothing changes.
    pub open spec fn write_byte(self, address: int, value: Byte) -> (SetsModel, Status) {
        if self.holds(address) {
            (self.put_byte(address, value), Status::Hit)
        } else {
            (self, self.lookup(address))
        }
    }

    /// Removes the line that holds an address, if any, without writing it back.
    pub open spec fn invalidate(self, address: int) -> (SetsModel, bool) {
        if self.holds(address) {
            let lines = self.lines_of(address);
            (self.with_set(self.set_of(address), lines.remove(self.line_index(address))), true)
        } else {
            (self, false)
        }
    }

    /// Brings the line of an address in from memory.
    ///
    /// Nothing happens when a line holds the address already. Otherwise, when
    /// the set is full its least recently used line leaves, written back to
    /// memory first when dirty; the new line, read from memory after that, is
    /// the most recently used.
    pub open spec fn fill(self, address: int, mem: Seq<Byte>) -> (SetsModel, Seq<Byte>, LineReadStatus) {
        if self.holds(address) {
            (self, mem, LineReadStatus::Skipped)
        } else {
            let s = self.set_of(address);
            let lines = self.sets[s];
            let full = lines.len() >= self.ways;
            let victim = lines.last();
            let mem1 = if full && victim.dirty {
                write_back(mem, self.base_of(victim.tag as int, s), victim.data)
            } else {
                mem
            };
            let kept = if full {
                lines.drop_last()
            } else {
                lines
            };
            let tag = self.tag_of(address);
            let fresh = LineModel {
                tag: tag as Word,
                dirty: false,
                data: read_line(mem1, self.base_of(tag, s), self.line_len()),
            };
            (
                self.with_set(s, seq![fresh] + kept),
                mem1,
                if full {
                    LineReadStatus::Evicted
                } else {
                    LineReadStatus::Inserted
                },
            )
        }
    }

    /// Writes the dirty lines of set `s` back to memory, in order.
    pub open spec fn flush_lines(self, mem: Seq<Byte>, s: int, lines: Seq<LineModel>) -> Seq<Byte>
        decreases lines.len(),
    {
        if lines.len() == 0 {
            mem
        } else {
            let m = self.flush_lines(mem, s, lines.drop_last());
            let l = lines.last();
            if l.dirty {
                write_back(m, self.base_of(l.tag as int, s), l.data)
            } else {
                m
            }
        }
    }

    /// Writes the dirty lines of the first `n` sets back to memory, in order.
    pub open spec fn flush_sets(self, mem: Seq<Byte>, n: nat) -> Seq<Byte>
        decreases n,
    {
        if n == 0 {
            mem
        } else {
            let m = self.flush_sets(mem, (n - 1) as nat);
            self.flush_lines(m, n - 1, self.sets[n - 1])
        }
    }

    /// The number of dirty lines of the first `n` sets.
    pub open spec fn dirty_in(self, n: nat) -> nat
        decreases n,
    {
        if n == 0 {
            0
        } else {
            self.dirty_in((n - 1) as nat) + count_dirty(self.sets[n - 1])
        }
    }

    /// The number of dirty lines.
    pub open spec fn dirty_count(self) -> nat {
        self.dirty_in(self.sets.len())
    }

    /// The cache with every line clean.
    pub open spec fn cleaned(self) -> SetsModel {
        SetsModel { sets: self.sets.map_values(|lines: Seq<LineModel>| clean_lines(lines)), ..self }
    }
}

/// No tag occurs twice among a set's lines.
pub open spec fn unique_tags(lines: Seq<LineModel>) -> bool {
    forall|i: int, j: int|
        0 <= i < lines.len() && 0 <= j < lines.len() && i != j ==> #[trigger] lines[i].tag
            != #[trigger] lines[j].tag
}

/// Removing a line keeps the tags unique.
pub proof fn lemma_remove_unique(lines: Seq<LineModel>, i: int)
    requires
        unique_tags(lines),
        0 <= i < lines.len(),
    ensures
        unique_tags(lines.remove(i)),
{
    let r = lines.remove(i);
    assert forall|a: int, b: int| 0 <= a < r.len() && 0 <= b < r.len() && a != b implies #[trigger] r[a].tag
        != #[trigger] r[b].tag by {
        let a1 = if a < i { a } else { a + 1 };
        let b1 = if b < i { b } else { b + 1 };
        assert(r[a] == lines[a1] && r[b] == lines[b1]);
    }
}

/// Putting a line whose tag is new in front keeps the tags unique.
pub proof fn lemma_front_unique(l: LineModel, rest: Seq<LineModel>)
    requires
        unique_tags(rest),
        !has_tag(rest, l.tag as int),
    ensures
        unique_tags(seq![l] + rest),
{
    let n = seq![l] + rest;
    assert forall|a: int, b: int| 0 <= a < n.len() && 0 <= b < n.len() && a != b implies #[trigger] n[a].tag
        != #[trigger] n[b].tag by {
        if a == 0 {
            assert(n[b] == rest[b - 1]);
        } else if b == 0 {
            assert(n[a] == rest[a - 1]);
        } else {
            assert(n[a] == rest[a - 1] && n[b] == rest[b - 1]);
        }
    }
}

/// A line taken out of a set no longer has its tag among the rest.
pub proof fn lemma_removed_tag_gone(lines: Seq<LineModel>, i: int)
    requires
        unique_tags(lines),
        0 <= i < lines.len(),
    ensures
        !has_tag(lines.remove(i), lines[i].tag as int),
{
    let r = lines.remove(i);
    if has_tag(r, lines[i].tag as int) {
        let k = choose|k: int| 0 <= k < r.len() && r[k].tag == lines[i].tag;
        let k1 = if k < i { k } else { k + 1 };
        assert(r[k] == lines[k1]);
    }
}

impl SetsModel {
    /// The lines of set `s` have unique tags.
    pub proof fn lemma_set_unique(self, s: int)
        requires
            self.wf(),
            0 <= s < self.sets.len(),
        ensures
            unique_tags(self.sets[s]),
    {
        assert forall|i: int, j: int|
            0 <= i < self.sets[s].len() && 0 <= j < self.sets[s].len() && i != j implies #[trigger] self.sets[s][i].tag
            != #[trigger] self.sets[s][j].tag by {
        }
    }

    /// Storing a byte on a hit changes which addresses the cache holds in no way.
    pub proof fn lemma_put_keeps_holds(self, a: int, v: Byte, x: int)
        requires
            self.wf(),
            self.holds(a),
        ensures
            self.put_byte(a, v).holds(x) == self.holds(x),
    {
        let m2 = self.put_byte(a, v);
        let s = self.set_of(a);
        let lines = self.sets[s];
        let i = self.line_index(a);
        let t = self.tag_of(x);
        lemma_pow2_pos(self.line_len_exp());
        lemma_pow2_pos(self.set_bits);
        assert(0 <= self.set_of(x) < self.sets.len());
        assert(0 <= s < self.sets.len());
        if self.set_of(x) == s {
            let l2 = m2.sets[s];
            assert(l2 == seq![l2[0]] + lines.remove(i));
            if has_tag(lines, t) {
                let k = choose|k: int| 0 <= k < lines.len() && lines[k].tag == t;
                if k == i {
                    assert(l2[0].tag == t);
                } else if k < i {
                    assert(l2[k + 1] == lines[k]);
                } else {
                    assert(l2[k] == lines[k]);
                }
            }
            if has_tag(l2, t) {
                let k = choose|k: int| 0 <= k < l2.len() && l2[k].tag == t;
                if k == 0 {
                    assert(lines[i].tag == t);
                } else if k - 1 < i {
                    assert(l2[k] == lines[k - 1]);
                } else {
                    assert(l2[k] == lines[k]);
                }
            }
        } else {
            assert(m2.sets[self.set_of(x)] == self.sets[self.set_of(x)]);
        }
    }

    /// The exponent of the line length.
    pub open spec fn line_len_exp(self) -> nat {
        self.off_bits
    }

    /// Replacing a set with lines of the right shape keeps the cache well formed.
    pub proof fn lemma_with_set_wf(self, s: int, lines: Seq<LineModel>)
        requires
            self.wf(),
            0 <= s < self.sets.len(),
            lines.len() <= self.ways,
            unique_tags(lines),
            forall|i: int|
                0 <= i < lines.len() ==> (#[trigger] lines[i]).data.len() == self.line_len()
                    && lines[i].tag < self.tag_count(),
        ensures
            self.with_set(s, lines).wf(),
    {
        let m = self.with_set(s, lines);
        assert forall|t: int, i: int, j: int|
            0 <= t < m.sets.len() && 0 <= i < m.sets[t].len() && 0 <= j < m.sets[t].len() && i
                != j implies #[trigger] m.sets[t][i].tag != #[trigger] m.sets[t][j].tag by {
            if t != s {
                assert(m.sets[t] == self.sets[t]);
            }
        }
        assert forall|t: int, i: int| 0 <= t < m.sets.len() && 0 <= i < m.sets[t].len() implies {
            &&& (#[trigger] m.sets[t][i]).data.len() == m.line_len()
            &&& m.sets[t][i].tag < m.tag_count()
        } by {
            if t != s {
                assert(m.sets[t] == self.sets[t]);
            }
        }
        assert forall|t: int| 0 <= t < m.sets.len() implies #[trigger] m.sets[t].len() <= m.ways by {
            if t != s {
                assert(m.sets[t] == self.sets[t]);
            }
        }
    }
}

impl SetsModel {
    /// The tag of an address in the address space is one the cache can hold.
    pub proof fn lemma_tag_bound(self, address: int)
        requires
            self.wf(),
            0 <= address < address_space(),
        ensures
            0 <= self.tag_of(address) < self.tag_count(),
            self.tag_of(address) <= address,
    {
        let e = self.off_bits + self.set_bits;
        lemma_pow2_pos(e);
        vstd::arithmetic::div_mod::lemma_div_is_ordered_by_denominator(address, 1, pow2(e) as int);
        vstd::arithmetic::power2::lemma_pow2_adds(e, (32 - e) as nat);
        vstd::arithmetic::power2::lemma2_to64();
        assert(pow2(e) * pow2((32 - e) as nat) == 0x1_0000_0000);
        vstd::arithmetic::div_mod::lemma_multiply_divide_lt(address, pow2(e) as int, pow2((32 - e) as nat) as int);
        vstd::arithmetic::div_mod::lemma_div_pos_is_pos(address, pow2(e) as int);
    }

    /// Bringing a line in keeps the cache well formed.
    pub proof fn lemma_fill_wf(self, address: int, mem: Seq<Byte>)
        requires
            self.wf(),
            0 <= address < address_space(),
        ensures
            self.fill(address, mem).0.wf(),
    {
        if !self.holds(address) {
            lemma_pow2_pos(self.off_bits);
            lemma_pow2_pos(self.set_bits);
            let s = self.set_of(address);
            assert(0 <= s < self.sets.len());
            self.lemma_tag_bound(address);
            let lv = self.sets[s];
            let full = lv.len() >= self.ways;
            let kept = if full { lv.drop_last() } else { lv };
            let tag = self.tag_of(address);
            let mem1 = self.fill(address, mem).1;
            let fresh = LineModel {
                tag: tag as Word,
                dirty: false,
                data: read_line(
                    if full && lv.last().dirty {
                        write_back(mem, self.base_of(lv.last().tag as int, s), lv.last().data)
                    } else {
                        mem
                    },
                    self.base_of(tag, s),
                    self.line_len(),
                ),
            };
            self.lemma_set_unique(s);
            if full {
                assert(lv.drop_last() =~= lv.remove(lv.len() - 1));
                lemma_remove_unique(lv, lv.len() - 1);
            }
            if has_tag(kept, tag) {
                let k = choose|k: int| 0 <= k < kept.len() && kept[k].tag == tag;
                assert(lv[k] == kept[k]);
            }
            lemma_front_unique(fresh, kept);
            let nv = seq![fresh] + kept;
            assert forall|i: int| 0 <= i < nv.len() implies (#[trigger] nv[i]).data.len() == self.line_len()
                && nv[i].tag < self.tag_count() by {
                if i > 0 {
                    assert(nv[i] == kept[i - 1]);
                    assert(kept[i - 1] == lv[i - 1]);
                }
            }
            self.lemma_with_set_wf(s, nv);
            assert(self.fill(address, mem).0 == self.with_set(s, nv));
        }
    }
}

/// A set never has more dirty lines than lines.
pub proof fn lemma_count_dirty_bound(lines: Seq<LineModel>)
    ensures
        count_dirty(lines) <= lines.len(),
    decreases lines.len(),
{
    if lines.len() > 0 {
        lemma_count_dirty_bound(lines.drop_last());
    }
}

/// A set with every line clean has no dirty line.
pub proof fn lemma_clean_none_dirty(lines: Seq<LineModel>)
    ensures
        count_dirty(clean_lines(lines)) == 0,
    decreases lines.len(),
{
    if lines.len() > 0 {
        assert(clean_lines(lines).drop_last() =~= clean_lines(lines.drop_last()));
        lemma_clean_none_dirty(lines.drop_last());
    }
}

impl SetsModel {
    /// The first `n` sets hold at most `n * ways` dirty lines.
    pub proof fn lemma_dirty_in_bound(self, n: nat)
        requires
            self.wf(),
            n <= self.sets.len(),
        ensures
            self.dirty_in(n) <= n * self.ways,
        decreases n,
    {
        if n > 0 {
            self.lemma_dirty_in_bound((n - 1) as nat);
            lemma_count_dirty_bound(self.sets[n - 1]);
            assert(self.sets[n - 1].len() <= self.ways);
            assert((n - 1) * self.ways + self.ways == n * self.ways) by (nonlinear_arith);
        }
    }

    /// Cleaning every line keeps the cache well formed.
    pub proof fn lemma_cleaned_wf(self)
        requires
            self.wf(),
        ensures
            self.cleaned().wf(),
    {
        let c = self.cleaned();
        assert forall|s: int| 0 <= s < c.sets.len() implies #[trigger] c.sets[s] == clean_lines(
            self.sets[s],
        ) by {}
        assert forall|s: int, i: int, j: int|
            0 <= s < c.sets.len() && 0 <= i < c.sets[s].len() && 0 <= j < c.sets[s].len() && i
                != j implies #[trigger] c.sets[s][i].tag != #[trigger] c.sets[s][j].tag by {
            assert(c.sets[s][i].tag == self.sets[s][i].tag);
            assert(c.sets[s][j].tag == self.sets[s][j].tag);
        }
        assert forall|s: int, i: int| 0 <= s < c.sets.len() && 0 <= i < c.sets[s].len() implies {
            &&& (#[trigger] c.sets[s][i]).data.len() == c.line_len()
            &&& c.sets[s][i].tag < c.tag_count()
        } by {
            assert(c.sets[s][i].tag == self.sets[s][i].tag);
            assert(c.sets[s][i].data == self.sets[s][i].data);
        }
    }

    /// A cache with every line clean has no dirty line.
    pub proof fn lemma_cleaned_none_dirty(self, n: nat)
        requires
            n <= self.sets.len(),
        ensures
            self.cleaned().dirty_in(n) == 0,
        decreases n,
    {
        if n > 0 {
            self.lemma_cleaned_none_dirty((n - 1) as nat);
            lemma_clean_none_dirty(self.sets[n - 1]);
        }
    }
}

/// The contents of a cache.
pub enum CacheModel {
    /// A disabled cache, which holds nothing.
    Disabled,
    /// A set-associative cache.
    Sets(SetsModel),
}

impl CacheModel {
    /// The model is well formed.
    pub open spec fn wf(self) -> bool {
        match self {
            CacheModel::Disabled => true,
            CacheModel::Sets(m) => m.wf(),
        }
    }

    /// The status of an access to an address, without changing anything.
    pub open spec fn check(self, address: int) -> Status {
        match self {
            CacheModel::Disabled => Status::Disabled,
            CacheModel::Sets(m) => m.lookup(address),
        }
    }

    /// A read of the byte at `address + k` (wrapping); a disabled cache
    /// answers that it is disabled.
    pub open spec fn step(self, address: int, k: int) -> (CacheModel, Result<Byte, Status>) {
        match self {
            CacheModel::Disabled => (self, Err(Status::Disabled)),
            CacheModel::Sets(m) => {
                let (m1, r) = m.read_byte(wrap(address, k));
                (CacheModel::Sets(m1), r)
            },
        }
    }

    /// A read of a byte.
    pub open spec fn read_byte(self, address: int) -> (CacheModel, Result<Byte, Status>) {
        self.step(address, 0)
    }

    /// A read of a big-endian short: its bytes are read one after the other
    /// and the first miss ends the read.
    pub open spec fn read_short(self, address: int) -> (CacheModel, Result<Short, Status>) {
        match self {
            CacheModel::Disabled => (self, Err(Status::Disabled)),
            CacheModel::Sets(m) => {
                let (m1, r0) = m.read_byte(address);
                match r0 {
                    Err(e) => (CacheModel::Sets(m1), Err(e)),
                    Ok(b0) => {
                        let (m2, r1) = m1.read_byte(wrap(address, 1));
                        match r1 {
                            Err(e) => (CacheModel::Sets(m2), Err(e)),
                            Ok(b1) => (CacheModel::Sets(m2), Ok(short_of(b0, b1))),
                        }
                    },
                }
            },
        }
    }

    /// A read of a big-endian word: its bytes are read one after the other
    /// and the first miss ends the read.
    pub open spec fn read_word(self, address: int) -> (CacheModel, Result<Word, Status>) {
        match self {
            CacheModel::Disabled => (self, Err(Status::Disabled)),
            CacheModel::Sets(m) => {
                let (m1, r0) = m.read_byte(address);
                match r0 {
                    Err(e) => (CacheModel::Sets(m1), Err(e)),
                    Ok(b0) => {
                        let (m2, r1) = m1.read_byte(wrap(address, 1));
                        match r1 {
                            Err(e) => (CacheModel::Sets(m2), Err(e)),
                            Ok(b1) => {
                                let (m3, r2) = m2.read_byte(wrap(address, 2));
                                match r2 {
                                    Err(e) => (CacheModel::Sets(m3), Err(e)),
                                    Ok(b2) => {
                                        let (m4, r3) = m3.read_byte(wrap(address, 3));
                                        match r3 {
                                            Err(e) => (CacheModel::Sets(m4), Err(e)),
                                            Ok(b3) => (CacheModel::Sets(m4), Ok(word_of(b0, b1, b2, b3))),
                                        }
                                    },
                                }
                            },
                        }
                    },
                }
            },
        }
    }

    /// A write of a byte; a disabled cache holds no line, so every write
    /// misses.
    pub open spec fn write_byte(self, address: int, value: Byte) -> (CacheModel, Status) {
        match self {
            CacheModel::Disabled => (self, Status::Cold),
            CacheModel::Sets(m) => {
                let (m1, s) = m.write_byte(address, value);
                (CacheModel::Sets(m1), s)
            },
        }
    }

    /// A write of a big-endian short: it happens only when lines hold both of
    /// its bytes; otherwise the status of the first byte that misses.
    pub open spec fn write_short(self, address: int, value: Short) -> (CacheModel, Status) {
        match self {
            CacheModel::Disabled => (self, Status::Cold),
            CacheModel::Sets(m) => {
                let a1 = wrap(address, 1);
                if m.holds(address) && m.holds(a1) {
                    let b = short_bytes(value);
                    (CacheModel::Sets(m.put_byte(address, b[0]).put_byte(a1, b[1])), Status::Hit)
                } else if !m.holds(address) {
                    (self, m.lookup(address))
                } else {
                    (self, m.lookup(a1))
                }
            },
        }
    }

    /// A write of a big-endian word: it happens only when lines hold all four
    /// of its bytes; otherwise the status of the first byte that misses.
    pub open spec fn write_word(self, address: int, value: Word) -> (CacheModel, Status) {
        match self {
            CacheModel::Disabled => (self, Status::Cold),
            CacheModel::Sets(m) => {
                let a1 = wrap(address, 1);
                let a2 = wrap(address, 2);
                let a3 = wrap(address, 3);
                if m.holds(address) && m.holds(a1) && m.holds(a2) && m.holds(a3) {
                    let b = word_bytes(value);
                    (
                        CacheModel::Sets(
                            m.put_byte(address, b[0]).put_byte(a1, b[1]).put_byte(a2, b[2]).put_byte(
                                a3,
                                b[3],
                            ),
                        ),
                        Status::Hit,
                    )
                } else if !m.holds(address) {
                    (self, m.lookup(address))
                } else if !m.holds(a1) {
                    (self, m.lookup(a1))
                } else if !m.holds(a2) {
                    (self, m.lookup(a2))
                } else {
                    (self, m.lookup(a3))
                }
            },
        }
    }

    /// Removes the line that holds an address.
    pub open spec fn invalidate(self, address: int) -> (CacheModel, bool) {
        match self {
            CacheModel::Disabled => (self, false),
            CacheModel::Sets(m) => {
                let (m1, b) = m.invalidate(address);
                (CacheModel::Sets(m1), b)
            },
        }
    }

    /// Brings the line of an address in from memory; a disabled cache skips
    /// the fill.
    pub open spec fn write_line(self, address: int, mem: Seq<Byte>) -> (CacheModel, Seq<Byte>, LineReadStatus) {
        match self {
            CacheModel::Disabled => (self, mem, LineReadStatus::Skipped),
            CacheModel::Sets(m) => {
                let (m1, mem1, st) = m.fill(address, mem);
                (CacheModel::Sets(m1), mem1, st)
            },
        }
    }

    /// The number of dirty lines.
    pub open spec fn dirty_lines(self) -> nat {
        match self {
            CacheModel::Disabled => 0,
            CacheModel::Sets(m) => m.dirty_count(),
        }
    }

    /// Writes every dirty line back to memory and marks it clean.
    pub open spec fn flush(self, mem: Seq<Byte>) -> (CacheModel, Seq<Byte>, nat) {
        match self {
            CacheModel::Disabled => (self, mem, 0),
            CacheModel::Sets(m) => (
                CacheModel::Sets(m.cleaned()),
                m.flush_sets(mem, m.sets.len()),
                m.dirty_count(),
            ),
        }
    }

    /// The number of bytes of a line; zero for a disabled cache.
    pub open spec fn line_len(self) -> nat {
        match self {
            CacheModel::Disabled => 0,
            CacheModel::Sets(m) => m.line_len(),
        }
    }

    /// Whether `length` bytes from an address lie in one line.
    pub open spec fn within_line(self, address: int, length: int) -> bool {
        match self {
            CacheModel::Disabled => false,
            CacheModel::Sets(m) => m.offset_of(address) + length <= m.line_len(),
        }
    }

    /// The cached byte at an address, without changing anything.
    pub open spec fn peek_byte(self, address: int) -> Option<Byte> {
        match self {
            CacheModel::Sets(m) if m.holds(address) => Some(m.cached_byte(address)),
            _ => None,
        }
    }

    /// The cached big-endian short at an address, without changing anything.
    pub open spec fn peek_short(self, address: int) -> Option<Short> {
        match self {
            CacheModel::Sets(m) if m.holds(address) && m.holds(wrap(address, 1)) => Some(
                short_of(m.cached_byte(address), m.cached_byte(wrap(address, 1))),
            ),
            _ => None,
        }
    }

    /// The cached big-endian word at an address, without changing anything.
    pub open spec fn peek_word(self, address: int) -> Option<Word> {
        match self {
            CacheModel::Sets(m) if m.holds(address) && m.holds(wrap(address, 1)) && m.holds(
                wrap(address, 2),
            ) && m.holds(wrap(address, 3)) => Some(
                word_of(
                    m.cached_byte(address),
                    m.cached_byte(wrap(address, 1)),
                    m.cached_byte(wrap(address, 2)),
                    m.cached_byte(wrap(address, 3)),
                ),
            ),
            _ => None,
        }
    }
}

/// A read of a byte gives back the byte that a write to the same address
/// stored in the cache.
pub proof fn law_cache_read_after_write(m: CacheModel, address: int, value: Byte)
    requires
        m.wf(),
        0 <= address < address_space(),
        m.write_byte(address, value).1 == Status::Hit,
    ensures
        m.write_byte(address, value).0.read_byte(address).1 == Ok::<Byte, Status>(value),
{
    vstd::arithmetic::div_mod::lemma_small_mod(address as nat, address_space() as nat);
    assert(wrap(address, 0) == address);
    if let CacheModel::Sets(sm) = m {
        let m2 = sm.put_byte(address, value);
        sm.lemma_put_keeps_holds(address, value, address);
        let s = sm.set_of(address);
        let lines = sm.sets[s];
        let i = sm.line_index(address);
        lemma_pow2_pos(sm.off_bits);
        lemma_pow2_pos(sm.set_bits);
        assert(0 <= s < sm.sets.len());
        sm.lemma_set_unique(s);
        let l2 = m2.sets[s];
        assert(l2 == seq![l2[0]] + lines.remove(i));
        lemma_remove_unique(lines, i);
        lemma_removed_tag_gone(lines, i);
        lemma_front_unique(l2[0], lines.remove(i));
        let k = tag_index(l2, sm.tag_of(address));
        assert(l2[0].tag == sm.tag_of(address));
        assert(has_tag(l2, sm.tag_of(address)));
        if k != 0 {
            assert(l2[k].tag != l2[0].tag);
        }
        assert(m2.offset_of(address) == sm.offset_of(address));
        assert(m2.set_of(address) == s);
        assert(m2.lines_of(address) == l2);
        assert(k == 0);
        assert(has_tag(lines, sm.tag_of(address)));
        assert(0 <= i < lines.len() && lines[i].tag == sm.tag_of(address));
        assert(lines[i].data.len() == sm.line_len());
        vstd::arithmetic::div_mod::lemma_mod_bound(address, sm.line_len() as int);
        assert(l2[0].data[sm.offset_of(address)] == value);
        assert(m2.cached_byte(address) == value);
    }
}

/// Once the line of an address has been brought in, the cache holds the address.
pub proof fn law_cache_fill_then_hit(m: SetsModel, address: int, mem: Seq<Byte>)
    requires
        m.wf(),
        0 <= address < address_space(),
    ensures
        m.fill(address, mem).0.lookup(address) == Status::Hit,
{
    if !m.holds(address) {
        let m1 = m.fill(address, mem).0;
        lemma_pow2_pos(m.off_bits);
        lemma_pow2_pos(m.set_bits);
        let s = m.set_of(address);
        assert(0 <= s < m.sets.len());
        assert(0 <= m.tag_of(address) < 0x1_0000_0000) by {
            lemma_pow2_pos(m.off_bits + m.set_bits);
            vstd::arithmetic::div_mod::lemma_div_pos_is_pos(address, m.span() as int);
            vstd::arithmetic::div_mod::lemma_div_is_ordered_by_denominator(address, 1, m.span() as int);
        }
        assert(m1.sets[s][0].tag == m.tag_of(address) as Word);
        assert(has_tag(m1.sets[s], m.tag_of(address)));
    }
}

/// A flush writes back exactly the dirty lines and leaves none dirty.
pub proof fn law_cache_flush_cleans(m: CacheModel, mem: Seq<Byte>)
    requires
        m.wf(),
    ensures
        m.flush(mem).2 == m.dirty_lines(),
        m.flush(mem).0.dirty_lines() == 0,
{
    if let CacheModel::Sets(sm) = m {
        sm.lemma_cleaned_none_dirty(sm.sets.len());
    }
}

} // verus!
