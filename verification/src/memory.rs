//! The main memory: a set of pages, each allocated when it is first written.
use crate::bytes::{
    short_bytes, short_from_be_bytes, short_of, short_to_be_bytes, word_bytes, word_from_be_bytes,
    word_of, word_to_be_bytes,
};
use crate::pages::PAGE_SIZE;
use crate::types::{Byte, Short, Word};
use vstd::prelude::*;

verus! {

/// Memory that only allocates a page when it is first written to.
///
/// The number of pages is fixed at construction; addresses wrap around the
/// end of the memory.
pub struct Memory {
    pages: Vec<Option<Vec<Byte>>>,
}

/// The byte of a page at an offset, zero for an unallocated page.
pub open spec fn page_byte(page: Option<Vec<Byte>>, offset: int) -> Byte {
    match page {
        Some(p) => p@[offset],
        None => 0,
    }
}

impl Memory {
    /// The memory is well formed: it has a page, its bytes can be counted
    /// in a `usize`, and every allocated page holds a full page of bytes.
    pub closed spec fn wf(self) -> bool {
        &&& self.pages@.len() > 0
        &&& self.pages@.len() * PAGE_SIZE <= usize::MAX
        &&& forall|i: int| 0 <= i < self.pages@.len() ==> (#[trigger] self.pages@[i] matches Some(
            p,
        ) ==> p@.len() == PAGE_SIZE)
    }

    /// The number of pages.
    pub closed spec fn page_count(self) -> nat {
        self.pages@.len()
    }

    /// The number of bytes of the memory.
    pub open spec fn size(self) -> nat {
        self.page_count() * (PAGE_SIZE as nat)
    }

    /// Which pages have been allocated.
    pub closed spec fn allocated(self) -> Seq<bool> {
        self.pages@.map_values(|p: Option<Vec<Byte>>| p is Some)
    }

    /// The byte at index `i` of the memory.
    pub closed spec fn byte(self, i: int) -> Byte {
        page_byte(self.pages@[i / PAGE_SIZE as int], i % PAGE_SIZE as int)
    }

    /// The index in the memory that an address stands for.
    pub open spec fn index_of(self, address: int) -> int {
        address % (self.size() as int)
    }

    /// The index `k` bytes after index `i`, wrapping around the end.
    pub open spec fn after(self, i: int, k: int) -> int {
        (i + k) % (self.size() as int)
    }

    /// The page that holds an index.
    pub open spec fn page_of(i: int) -> int {
        i / PAGE_SIZE as int
    }

    /// The byte that a read of an address gives.
    pub open spec fn byte_at(self, address: int) -> Byte {
        self@[self.index_of(address)]
    }

    /// The big-endian short that a read of an address gives.
    pub open spec fn short_at(self, address: int) -> Short {
        let i = self.index_of(address);
        short_of(self@[i], self@[self.after(i, 1)])
    }

    /// The big-endian word that a read of an address gives.
    pub open spec fn word_at(self, address: int) -> Word {
        let i = self.index_of(address);
        word_of(self@[i], self@[self.after(i, 1)], self@[self.after(i, 2)], self@[self.after(i, 3)])
    }

    /// The contents after writing a byte to an address.
    pub open spec fn with_byte(self, address: int, value: Byte) -> Seq<Byte> {
        self@.update(self.index_of(address), value)
    }

    /// The contents after writing a big-endian short to an address.
    pub open spec fn with_short(self, address: int, value: Short) -> Seq<Byte> {
        let i = self.index_of(address);
        self@.update(i, short_bytes(value)[0]).update(self.after(i, 1), short_bytes(value)[1])
    }

    /// The contents after writing a big-endian word to an address.
    pub open spec fn with_word(self, address: int, value: Word) -> Seq<Byte> {
        let i = self.index_of(address);
        self@.update(i, word_bytes(value)[0]).update(self.after(i, 1), word_bytes(value)[1]).update(
            self.after(i, 2),
            word_bytes(value)[2],
        ).update(self.after(i, 3), word_bytes(value)[3])
    }
}

impl View for Memory {
    type V = Seq<Byte>;

    closed spec fn view(&self) -> Seq<Byte> {
        Seq::new(self.size(), |i: int| self.byte(i))
    }
}

impl Memory {
    /// The memory holds `size` bytes and has a page flag for each page.
    pub proof fn lemma_shape(&self)
        ensures
            self@.len() == self.size(),
            self.allocated().len() == self.page_count(),
            self.wf() ==> self.page_count() > 0 && self.size() <= usize::MAX,
    {
    }

    /// A short read gives the byte at the address followed by the byte after
    /// it, across a page boundary too, for any address before the last byte.
    pub proof fn law_short_is_two_bytes(&self, a: int)
        requires
            0 <= a,
            a + 1 < self.size(),
        ensures
            self.short_at(a) == short_of(self.byte_at(a), self.byte_at(a + 1)),
    {
        vstd::arithmetic::div_mod::lemma_small_mod(a as nat, self.size());
        vstd::arithmetic::div_mod::lemma_small_mod((a + 1) as nat, self.size());
    }

    /// A word read gives the four bytes from the address on, across a page
    /// boundary too, for any address at least four bytes before the end.
    pub proof fn law_word_is_four_bytes(&self, a: int)
        requires
            0 <= a,
            a + 3 < self.size(),
        ensures
            self.word_at(a) == word_of(self.byte_at(a), self.byte_at(a + 1), self.byte_at(a + 2), self.byte_at(a + 3)),
    {
        vstd::arithmetic::div_mod::lemma_small_mod(a as nat, self.size());
        vstd::arithmetic::div_mod::lemma_small_mod((a + 1) as nat, self.size());
        vstd::arithmetic::div_mod::lemma_small_mod((a + 2) as nat, self.size());
        vstd::arithmetic::div_mod::lemma_small_mod((a + 3) as nat, self.size());
    }

    /// A page that is not allocated reads zero throughout.
    pub proof fn law_unallocated_page_reads_zero(&self, p: int, j: int)
        requires
            0 <= p < self.page_count(),
            0 <= j < PAGE_SIZE,
            !self.allocated()[p],
        ensures
            self@[p * PAGE_SIZE + j] == 0,
    {
        vstd::arithmetic::div_mod::lemma_fundamental_div_mod_converse(p * PAGE_SIZE + j, PAGE_SIZE as int, p, j);
    }

    /// The number of pages, which is never zero.
    pub fn count_pages(&self) -> (n: usize)
        requires
            self.wf(),
        ensures
            n == self.page_count(),
            n > 0,
    {
        self.pages.len()
    }

    /// Creates a memory of `count` pages, none of them allocated.
    ///
    /// Addresses are 32 bits wide, so pages past the first 65536 are never
    /// reached.
    pub fn new(count: usize) -> (m: Memory)
        requires
            count > 0,
            count * PAGE_SIZE <= usize::MAX,
        ensures
            m.wf(),
            m.page_count() == count,
            m@ == Seq::new((count * PAGE_SIZE) as nat, |i: int| 0u8),
            m.allocated() == Seq::new(count as nat, |i: int| false),
    {
        let mut pages: Vec<Option<Vec<Byte>>> = Vec::new();
        let mut i: usize = 0;
        while i < count
            invariant
                i <= count,
                pages@.len() == i,
                forall|j: int| 0 <= j < i ==> pages@[j] is None,
            decreases count - i,
        {
            pages.push(None);
            i += 1;
        }
        let m = Memory { pages };
        assert(m@ =~= Seq::new((count * PAGE_SIZE) as nat, |i: int| 0u8));
        assert(m.allocated() =~= Seq::new(count as nat, |i: int| false));
        m
    }

    /// The highest address, counting the page id into the upper short.
    pub fn max_address(&self) -> (r: Word)
        requires
            self.wf(),
        ensures
            r == ((self.page_count() as int * 0x1_0000) - 1) % 0x1_0000_0000,
    {
        let count = self.pages.len();
        let low = (count % 0x1_0000) as Word;
        let product = low * 0x1_0000;
        proof {
            let q = count as int / 0x1_0000;
            vstd::arithmetic::div_mod::lemma_fundamental_div_mod(count as int, 0x1_0000);
            assert(count as int * 0x1_0000 - 1 == 0x1_0000_0000 * q + (low as int * 0x1_0000 - 1));
            vstd::arithmetic::div_mod::lemma_mod_multiples_vanish(q, low as int * 0x1_0000 - 1, 0x1_0000_0000);
            if low > 0 {
                vstd::arithmetic::div_mod::lemma_small_mod((low as int * 0x1_0000 - 1) as nat, 0x1_0000_0000);
            } else {
                assert((-1int) % 0x1_0000_0000 == 0xFFFF_FFFF);
            }
        }
        product.wrapping_sub(1)
    }

    /// The index in the memory that an address stands for.
    fn index(&self, address: Word) -> (i: usize)
        requires
            self.wf(),
        ensures
            i == self.index_of(address as int),
            i < self.size(),
    {
        let count = self.pages.len();
        if count >= 0x1_0000 {
            proof {
                assert(address < self.size());
                vstd::arithmetic::div_mod::lemma_small_mod(address as nat, self.size());
            }
            address as usize
        } else {
            let size = count * PAGE_SIZE;
            assert(size == self.size());
            (address as usize) % size
        }
    }

    /// The index one byte after `i`, wrapping around the end.
    fn next(&self, i: usize) -> (j: usize)
        requires
            self.wf(),
            i < self.size(),
        ensures
            j == self.after(i as int, 1),
            j < self.size(),
    {
        let count = self.pages.len();
        if i / PAGE_SIZE + 1 >= count && i % PAGE_SIZE == PAGE_SIZE - 1 {
            proof {
                vstd::arithmetic::div_mod::lemma_fundamental_div_mod(i as int, 0x1_0000);
                assert(i + 1 == self.size());
                vstd::arithmetic::div_mod::lemma_mod_self_0(self.size() as int);
            }
            0
        } else {
            proof {
                vstd::arithmetic::div_mod::lemma_fundamental_div_mod(i as int, 0x1_0000);
                vstd::arithmetic::div_mod::lemma_mod_bound(i as int, 0x1_0000);
                assert(i + 1 < self.size());
                vstd::arithmetic::div_mod::lemma_small_mod((i + 1) as nat, self.size());
            }
            i + 1
        }
    }

    /// The byte at an index.
    fn load(&self, i: usize) -> (b: Byte)
        requires
            self.wf(),
            i < self.size(),
        ensures
            b == self@[i as int],
    {
        proof {
            vstd::arithmetic::div_mod::lemma_fundamental_div_mod(i as int, 0x1_0000);
            vstd::arithmetic::div_mod::lemma_mod_bound(i as int, 0x1_0000);
            assert(i / PAGE_SIZE < self.page_count());
        }
        match &self.pages[i / PAGE_SIZE] {
            Some(page) => page[i % PAGE_SIZE],
            None => 0,
        }
    }

    /// Sets the byte at an index, allocating its page if needed.
    fn set_byte(&mut self, i: usize, value: Byte)
        requires
            old(self).wf(),
            i < old(self).size(),
        ensures
            final(self).wf(),
            final(self).page_count() == old(self).page_count(),
            final(self)@ == old(self)@.update(i as int, value),
            final(self).allocated() == old(self).allocated().update(Self::page_of(i as int), true),
    {
        proof {
            vstd::arithmetic::div_mod::lemma_fundamental_div_mod(i as int, 0x1_0000);
            vstd::arithmetic::div_mod::lemma_mod_bound(i as int, 0x1_0000);
            assert(i / PAGE_SIZE < self.page_count());
        }
        let p = i / PAGE_SIZE;
        let b = i % PAGE_SIZE;
        let ghost before = *self;
        let mut slot: Option<Vec<Byte>> = None;
        std::mem::swap(&mut slot, &mut self.pages[p]);
        let mut page = match slot {
            Some(pg) => pg,
            None => {
                let mut fresh: Vec<Byte> = Vec::new();
                let mut k: usize = 0;
                while k < PAGE_SIZE
                    invariant
                        k <= PAGE_SIZE,
                        fresh@.len() == k,
                        forall|j: int| 0 <= j < k ==> fresh@[j] == 0,
                    decreases PAGE_SIZE - k,
                {
                    fresh.push(0);
                    k += 1;
                }
                fresh
            },
        };
        page.set(b, value);
        self.pages.set(p, Some(page));
        proof {
            assert forall|j: int| 0 <= j < self.size() implies #[trigger] self.byte(j) == (
            if j == i {
                value
            } else {
                before.byte(j)
            }) by {
                vstd::arithmetic::div_mod::lemma_fundamental_div_mod(i as int, 0x1_0000);
                vstd::arithmetic::div_mod::lemma_fundamental_div_mod(j, 0x1_0000);
            }
            assert(self@ =~= before@.update(i as int, value));
            assert(self.allocated() =~= before.allocated().update(Self::page_of(i as int), true));
        }
    }

    /// Reads the byte at an address.
    pub fn read_byte(&self, address: Word) -> (b: Byte)
        requires
            self.wf(),
        ensures
            b == self.byte_at(address as int),
    {
        let i = self.index(address);
        self.load(i)
    }

    /// Reads the big-endian short at an address.
    pub fn read_short(&self, address: Word) -> (s: Short)
        requires
            self.wf(),
        ensures
            s == self.short_at(address as int),
    {
        let i = self.index(address);
        let j = self.next(i);
        short_from_be_bytes(self.load(i), self.load(j))
    }

    /// Reads the big-endian word at an address.
    pub fn read_word(&self, address: Word) -> (w: Word)
        requires
            self.wf(),
        ensures
            w == self.word_at(address as int),
    {
        let i0 = self.index(address);
        let i1 = self.next(i0);
        let i2 = self.next(i1);
        let i3 = self.next(i2);
        proof {
            self.lemma_after_chain(i0 as int);
        }
        word_from_be_bytes(self.load(i0), self.load(i1), self.load(i2), self.load(i3))
    }

    proof fn lemma_after_chain(&self, i: int)
        requires
            0 <= i < self.size(),
        ensures
            self.after(self.after(i, 1), 1) == self.after(i, 2),
            self.after(self.after(self.after(i, 1), 1), 1) == self.after(i, 3),
    {
        let n = self.size() as int;
        assert(n >= 0x1_0000);
        vstd::arithmetic::div_mod::lemma_small_mod(1, n as nat);
        vstd::arithmetic::div_mod::lemma_add_mod_noop(i + 1, 1, n);
        vstd::arithmetic::div_mod::lemma_add_mod_noop(i + 2, 1, n);
    }

    /// Writes a byte to an address, allocating its page if needed.
    pub fn write_byte(&mut self, address: Word, value: Byte)
        requires
            old(self).wf(),
        ensures
            final(self).wf(),
            final(self).page_count() == old(self).page_count(),
            ({
                let i = old(self).index_of(address as int);
                &&& final(self)@ == old(self).with_byte(address as int, value)
                &&& final(self).allocated() == old(self).allocated().update(Self::page_of(i), true)
            }),
    {
        let i = self.index(address);
        self.set_byte(i, value);
    }

    /// Writes a big-endian short to an address, allocating the pages it touches.
    pub fn write_short(&mut self, address: Word, value: Short)
        requires
            old(self).wf(),
        ensures
            final(self).wf(),
            final(self).page_count() == old(self).page_count(),
            ({
                let i0 = old(self).index_of(address as int);
                let i1 = old(self).after(i0, 1);
                &&& final(self)@ == old(self).with_short(address as int, value)
                &&& final(self).allocated() == old(self).allocated().update(
                    Self::page_of(i0),
                    true,
                ).update(Self::page_of(i1), true)
            }),
    {
        let v = short_to_be_bytes(value);
        let i0 = self.index(address);
        let i1 = self.next(i0);
        self.set_byte(i0, v[0]);
        self.set_byte(i1, v[1]);
    }

    /// Writes a big-endian word to an address, allocating the pages it touches.
    pub fn write_word(&mut self, address: Word, value: Word)
        requires
            old(self).wf(),
        ensures
            final(self).wf(),
            final(self).page_count() == old(self).page_count(),
            ({
                let i0 = old(self).index_of(address as int);
                let i1 = old(self).after(i0, 1);
                let i2 = old(self).after(i0, 2);
                let i3 = old(self).after(i0, 3);
                &&& final(self)@ == old(self).with_word(address as int, value)
                &&& final(self).allocated() == old(self).allocated().update(
                    Self::page_of(i0),
                    true,
                ).update(Self::page_of(i1), true).update(Self::page_of(i2), true).update(
                    Self::page_of(i3),
                    true,
                )
            }),
    {
        let v = word_to_be_bytes(value);
        let i0 = self.index(address);
        let i1 = self.next(i0);
        let i2 = self.next(i1);
        let i3 = self.next(i2);
        proof {
            self.lemma_after_chain(i0 as int);
        }
        self.set_byte(i0, v[0]);
        self.set_byte(i1, v[1]);
        self.set_byte(i2, v[2]);
        self.set_byte(i3, v[3]);
    }

    /// Reads `amount` consecutive bytes starting at an address.
    pub fn read_words(&self, address: Word, amount: usize) -> (data: Vec<Byte>)
        requires
            self.wf(),
            address as int + amount as int <= 0x1_0000_0000,
        ensures
            data@.len() == amount,
            forall|k: int| 0 <= k < amount ==> #[trigger] data@[k] == self.byte_at(address as int + k),
    {
        let mut data: Vec<Byte> = Vec::new();
        let mut k: usize = 0;
        while k < amount
            invariant
                k <= amount,
                self.wf(),
                address as int + amount as int <= 0x1_0000_0000,
                data@.len() == k,
                forall|j: int| 0 <= j < k ==> #[trigger] data@[j] == self.byte_at(address as int + j),
            decreases amount - k,
        {
            let b = self.read_byte(address + k as Word);
            data.push(b);
            k += 1;
        }
        data
    }

    /// Fills a buffer with the consecutive bytes starting at an address.
    pub fn read_words_to(&self, address: Word, to: &mut [Byte])
        requires
            self.wf(),
            address as int + old(to)@.len() <= 0x1_0000_0000,
        ensures
            final(to)@.len() == old(to)@.len(),
            forall|k: int| 0 <= k < old(to)@.len() ==> #[trigger] final(to)@[k] == self.byte_at(address as int + k),
    {
        let n = to.len();
        let mut k: usize = 0;
        while k < n
            invariant
                k <= n,
                self.wf(),
                n == to@.len(),
                n == old(to)@.len(),
                address as int + n as int <= 0x1_0000_0000,
                forall|j: int| 0 <= j < k ==> #[trigger] to@[j] == self.byte_at(address as int + j),
            decreases n - k,
        {
            let b = self.read_byte(address + k as Word);
            to[k] = b;
            k += 1;
        }
    }

    /// Releases every page: the memory reads as zeros again.
    pub fn erase(&mut self)
        requires
            old(self).wf(),
        ensures
            final(self).wf(),
            final(self).page_count() == old(self).page_count(),
            final(self)@ == Seq::new(old(self).size(), |i: int| 0u8),
            final(self).allocated() == Seq::new(old(self).page_count(), |i: int| false),
    {
        let n = self.pages.len();
        let mut i: usize = 0;
        while i < n
            invariant
                i <= n,
                n == self.pages@.len(),
                n == old(self).pages@.len(),
                forall|j: int| 0 <= j < i ==> self.pages@[j] is None,
                forall|j: int| i <= j < n ==> self.pages@[j] == old(self).pages@[j],
            decreases n - i,
        {
            self.pages.set(i, None);
            i += 1;
        }
        proof {
            assert(self@ =~= Seq::new(old(self).size(), |i: int| 0u8));
            assert(self.allocated() =~= Seq::new(old(self).page_count(), |i: int| false));
        }
    }

    /// Which pages are allocated, in page order.
    pub fn page_flags(&self) -> (flags: Vec<bool>)
        requires
            self.wf(),
        ensures
            flags@ == self.allocated(),
    {
        let n = self.pages.len();
        let mut flags: Vec<bool> = Vec::new();
        let mut i: usize = 0;
        while i < n
            invariant
                i <= n,
                n == self.pages@.len(),
                flags@.len() == i,
                forall|j: int| 0 <= j < i ==> flags@[j] == self.allocated()[j],
            decreases n - i,
        {
            flags.push(self.pages[i].is_some());
            i += 1;
        }
        assert(flags@ =~= self.allocated());
        flags
    }
}


/// The text of a flag as Rust prints a `bool`.
pub open spec fn bool_text(b: bool) -> Seq<char> {
    if b {
        "true"@
    } else {
        "false"@
    }
}

/// The page flags written as a comma-separated list.
pub open spec fn flags_text(flags: Seq<bool>) -> Seq<char>
    decreases flags.len(),
{
    if flags.len() == 0 {
        Seq::empty()
    } else if flags.len() == 1 {
        bool_text(flags[0])
    } else {
        flags_text(flags.drop_last()) + ", "@ + bool_text(flags.last())
    }
}

/// The debug description of a memory with these page flags.
pub open spec fn memory_debug_text(flags: Seq<bool>) -> Seq<char> {
    "Memory { pages: ["@ + flags_text(flags) + "] }"@
}

impl Memory {
    /// The bytes of page `p`, if it is allocated.
    pub open spec fn page_view(self, p: int) -> Option<Seq<Byte>> {
        if self.allocated()[p] {
            Some(self@.subrange(p * PAGE_SIZE as int, (p + 1) * PAGE_SIZE as int))
        } else {
            None
        }
    }

    /// A copy of a page's bytes.
    fn copy_page(&self, p: usize) -> (data: Vec<Byte>)
        requires
            self.wf(),
            p < self.page_count(),
            self.allocated()[p as int],
        ensures
            data@ == self@.subrange(p * PAGE_SIZE as int, (p + 1) * PAGE_SIZE as int),
    {
        let mut data: Vec<Byte> = Vec::new();
        match &self.pages[p] {
            Some(page) => {
                let mut k: usize = 0;
                while k < PAGE_SIZE
                    invariant
                        self.wf(),
                        p < self.page_count(),
                        self.pages@[p as int] == Some(*page),
                        page@.len() == PAGE_SIZE,
                        k <= PAGE_SIZE,
                        data@.len() == k,
                        forall|j: int| 0 <= j < k ==> data@[j] == page@[j],
                    decreases PAGE_SIZE - k,
                {
                    data.push(page[k]);
                    k += 1;
                }
                proof {
                    assert forall|j: int| 0 <= j < PAGE_SIZE implies data@[j] == self@[p * PAGE_SIZE
                        + j] by {
                        let i = p * 0x1_0000 + j;
                        vstd::arithmetic::div_mod::lemma_fundamental_div_mod_converse(
                            i,
                            0x1_0000,
                            p as int,
                            j,
                        );
                        assert(i < self.size());
                    }
                    assert(data@ =~= self@.subrange(p * PAGE_SIZE as int, (p + 1) * PAGE_SIZE as int));
                }
            },
            None => {},
        }
        data
    }

    /// Replaces the page that holds an address with a copy of `data`, which
    /// allocates it.
    pub fn set_page(&mut self, address: Word, data: &[Byte])
        requires
            old(self).wf(),
            data@.len() == PAGE_SIZE,
        ensures
            final(self).wf(),
            final(self).page_count() == old(self).page_count(),
            ({
                let p = Self::page_of(old(self).index_of(address as int));
                &&& final(self).allocated() == old(self).allocated().update(p, true)
                &&& forall|i: int| 0 <= i < old(self).size() ==> #[trigger] final(self)@[i] == if Self::page_of(i) == p {
                    data@[i % PAGE_SIZE as int]
                } else {
                    old(self)@[i]
                }
            }),
    {
        let i = self.index(address);
        let p = i / PAGE_SIZE;
        proof {
            vstd::arithmetic::div_mod::lemma_fundamental_div_mod(i as int, 0x1_0000);
            vstd::arithmetic::div_mod::lemma_mod_bound(i as int, 0x1_0000);
            assert(p < self.page_count());
        }
        let mut page: Vec<Byte> = Vec::new();
        let mut k: usize = 0;
        while k < PAGE_SIZE
            invariant
                k <= PAGE_SIZE,
                data@.len() == PAGE_SIZE,
                page@ == data@.take(k as int),
            decreases PAGE_SIZE - k,
        {
            page.push(data[k]);
            k += 1;
            assert(page@ =~= data@.take(k as int));
        }
        assert(data@.take(PAGE_SIZE as int) =~= data@);
        let ghost before = *self;
        self.pages.set(p, Some(page));
        proof {
            assert forall|j: int| 0 <= j < before.size() implies #[trigger] self@[j] == if Self::page_of(j) == p {
                data@[j % PAGE_SIZE as int]
            } else {
                before@[j]
            } by {
                vstd::arithmetic::div_mod::lemma_fundamental_div_mod(j, 0x1_0000);
                vstd::arithmetic::div_mod::lemma_mod_bound(j, 0x1_0000);
                assert(j / 0x1_0000 < self.page_count());
            }
            assert(self.allocated() =~= before.allocated().update(p as int, true));
        }
    }

    /// The pages in order, each with a copy of its bytes if it is allocated.
    pub fn pages(&self) -> (pages: Vec<Option<Vec<Byte>>>)
        requires
            self.wf(),
        ensures
            pages@.len() == self.page_count(),
            forall|p: int| 0 <= p < self.page_count() ==> match #[trigger] pages@[p] {
                Some(d) => self.page_view(p) == Some(d@),
                None => self.page_view(p) is None,
            },
    {
        let n = self.pages.len();
        let mut out: Vec<Option<Vec<Byte>>> = Vec::new();
        let mut p: usize = 0;
        while p < n
            invariant
                self.wf(),
                n == self.page_count(),
                p <= n,
                out@.len() == p,
                forall|q: int| 0 <= q < p ==> match #[trigger] out@[q] {
                    Some(d) => self.page_view(q) == Some(d@),
                    None => self.page_view(q) is None,
                },
            decreases n - p,
        {
            if self.pages[p].is_some() {
                let d = self.copy_page(p);
                out.push(Some(d));
            } else {
                out.push(None);
            }
            p += 1;
        }
        out
    }

    /// The allocated pages in order, each with its page number and a copy of its bytes.
    pub fn allocated_pages(&self) -> (pages: Vec<(usize, Vec<Byte>)>)
        requires
            self.wf(),
        ensures
            forall|i: int| 0 <= i < pages@.len() ==> {
                let (p, d) = #[trigger] pages@[i];
                p < self.page_count() && self.page_view(p as int) == Some(d@)
            },
            forall|i: int, j: int| 0 <= i < j < pages@.len() ==> pages@[i].0 < pages@[j].0,
            forall|p: int| 0 <= p < self.page_count() && self.allocated()[p] ==> exists|i: int|
                0 <= i < pages@.len() && #[trigger] pages@[i].0 == p,
    {
        let n = self.pages.len();
        let mut out: Vec<(usize, Vec<Byte>)> = Vec::new();
        let mut p: usize = 0;
        while p < n
            invariant
                self.wf(),
                n == self.page_count(),
                p <= n,
                forall|i: int| 0 <= i < out@.len() ==> {
                    let (q, d) = #[trigger] out@[i];
                    q < p && self.page_view(q as int) == Some(d@)
                },
                forall|i: int, j: int| 0 <= i < j < out@.len() ==> out@[i].0 < out@[j].0,
                forall|q: int| 0 <= q < p && self.allocated()[q] ==> exists|i: int|
                    0 <= i < out@.len() && #[trigger] out@[i].0 == q,
            decreases n - p,
        {
            let ghost before = out@;
            if self.pages[p].is_some() {
                let d = self.copy_page(p);
                out.push((p, d));
            }
            proof {
                assert forall|q: int| 0 <= q < p + 1 && self.allocated()[q] implies exists|i: int|
                    0 <= i < out@.len() && #[trigger] out@[i].0 == q by {
                    if q < p {
                        let i = choose|i: int| 0 <= i < before.len() && #[trigger] before[i].0 == q;
                        assert(out@[i] == before[i]);
                    } else {
                        assert(out@[out@.len() - 1].0 == q);
                    }
                }
            }
            p += 1;
        }
        out
    }

    /// A description of the memory naming which pages are allocated, as in
    /// `Memory { pages: [true, false] }`.
    pub fn debug_string(&self) -> (s: String)
        requires
            self.wf(),
        ensures
            s@ == memory_debug_text(self.allocated()),
    {
        let flags = self.page_flags();
        let mut s = String::new();
        s.append("Memory { pages: [");
        let mut i: usize = 0;
        while i < flags.len()
            invariant
                i <= flags@.len(),
                s@ == "Memory { pages: ["@ + flags_text(flags@.take(i as int)),
            decreases flags@.len() - i,
        {
            if i > 0 {
                s.append(", ");
            }
            if flags[i] {
                s.append("true");
            } else {
                s.append("false");
            }
            proof {
                let t = flags@.take(i + 1);
                assert(t.drop_last() =~= flags@.take(i as int));
                assert(t.last() == flags@[i as int]);
                if i == 0 {
                    assert(flags@.take(0) =~= Seq::<bool>::empty());
                    assert(flags_text(Seq::<bool>::empty()) =~= Seq::<char>::empty());
                }
            }
            i += 1;
        }
        s.append("] }");
        proof {
            assert(flags@.take(flags@.len() as int) =~= flags@);
        }
        s
    }
}

/// A number below twice the modulus wraps at most once.
proof fn lemma_wrap_small(x: int, n: int)
    requires
        n > 0,
        0 <= x < 2 * n,
    ensures
        x % n == if x < n {
            x
        } else {
            x - n
        },
{
    if x < n {
        vstd::arithmetic::div_mod::lemma_fundamental_div_mod_converse(x, n, 0, x);
    } else {
        vstd::arithmetic::div_mod::lemma_fundamental_div_mod_converse(x, n, 1, x - n);
    }
}

/// Consecutive byte indices of a memory are distinct: a memory holds at least
/// one page, far more than four bytes.
proof fn lemma_after_distinct(m: Memory, i: int)
    requires
        m.wf(),
        0 <= i < m.size(),
    ensures
        i != m.after(i, 1),
        i != m.after(i, 2),
        i != m.after(i, 3),
        m.after(i, 1) != m.after(i, 2),
        m.after(i, 1) != m.after(i, 3),
        m.after(i, 2) != m.after(i, 3),
        0 <= m.after(i, 1) < m.size(),
        0 <= m.after(i, 2) < m.size(),
        0 <= m.after(i, 3) < m.size(),
{
    let n = m.size() as int;
    assert(n >= 0x1_0000);
    lemma_wrap_small(i + 1, n);
    lemma_wrap_small(i + 2, n);
    lemma_wrap_small(i + 3, n);
}

proof fn lemma_index_in_range(m: Memory, address: int)
    requires
        m.wf(),
    ensures
        0 <= m.index_of(address) < m.size(),
{
    assert(m.size() > 0);
    vstd::arithmetic::div_mod::lemma_mod_bound(address, m.size() as int);
}

/// A read of a byte gives back the byte last written to that address.
pub proof fn law_byte_read_after_write(before: Memory, after: Memory, address: int, value: Byte)
    requires
        before.wf(),
        after.page_count() == before.page_count(),
        after@ == before.with_byte(address, value),
    ensures
        after.byte_at(address) == value,
{
    lemma_index_in_range(before, address);
}

/// A read of a short gives back the short last written to that address.
pub proof fn law_short_read_after_write(before: Memory, after: Memory, address: int, value: Short)
    requires
        before.wf(),
        after.page_count() == before.page_count(),
        after@ == before.with_short(address, value),
    ensures
        after.short_at(address) == value,
{
    lemma_index_in_range(before, address);
    lemma_after_distinct(before, before.index_of(address));
    crate::bytes::lemma_short_roundtrip(value);
}

/// A read of a word gives back the word last written to that address.
pub proof fn law_word_read_after_write(before: Memory, after: Memory, address: int, value: Word)
    requires
        before.wf(),
        after.page_count() == before.page_count(),
        after@ == before.with_word(address, value),
    ensures
        after.word_at(address) == value,
{
    lemma_index_in_range(before, address);
    lemma_after_distinct(before, before.index_of(address));
    crate::bytes::lemma_word_roundtrip(value);
}

/// A write of a word leaves every byte outside the four it covers unchanged.
pub proof fn law_word_write_frame(before: Memory, after: Memory, address: int, value: Word, other: int)
    requires
        before.wf(),
        after.page_count() == before.page_count(),
        after@ == before.with_word(address, value),
        ({
            let i = before.index_of(address);
            let j = before.index_of(other);
            j != i && j != before.after(i, 1) && j != before.after(i, 2) && j != before.after(i, 3)
        }),
    ensures
        after.byte_at(other) == before.byte_at(other),
{
    lemma_index_in_range(before, address);
    lemma_index_in_range(before, other);
    lemma_after_distinct(before, before.index_of(address));
}

} // verus!
