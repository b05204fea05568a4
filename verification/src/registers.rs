//! Register identifiers, their names, and sets of registers encoded as bit flags.
use crate::types::{Register, Word};
use vstd::prelude::*;

verus! {

/// The sixteen general-purpose registers.
pub const V: [Register; 16] = [
    0x00, 0x01, 0x02, 0x03, 0x04, 0x05, 0x06, 0x07, 0x08, 0x09, 0x0A, 0x0B, 0x0C, 0x0D, 0x0E, 0x0F,
];

/// Stack pointer
pub const SP: Register = 0x10;
/// Stack base pointer
pub const BP: Register = 0x11;
/// Link pointer
pub const LP: Register = 0x12;
/// Program counter
pub const PC: Register = 0x13;
/// Zero flag
pub const ZF: Register = 0x14;
/// Overflow flag
pub const OF: Register = 0x15;
/// Epsilon-equality flag
pub const EPS: Register = 0x16;
/// Not-a-number flag
pub const NAN: Register = 0x17;
/// Infinity flag
pub const INF: Register = 0x18;

/// The number of registers in the architecture.
pub const COUNT: usize = 25;

/// The name of a register, for every valid register id.
pub open spec fn register_name(reg: Register) -> Seq<char> {
    if reg == 0x00 { "V0"@ }
    else if reg == 0x01 { "V1"@ }
    else if reg == 0x02 { "V2"@ }
    else if reg == 0x03 { "V3"@ }
    else if reg == 0x04 { "V4"@ }
    else if reg == 0x05 { "V5"@ }
    else if reg == 0x06 { "V6"@ }
    else if reg == 0x07 { "V7"@ }
    else if reg == 0x08 { "V8"@ }
    else if reg == 0x09 { "V9"@ }
    else if reg == 0x0A { "VA"@ }
    else if reg == 0x0B { "VB"@ }
    else if reg == 0x0C { "VC"@ }
    else if reg == 0x0D { "VD"@ }
    else if reg == 0x0E { "VE"@ }
    else if reg == 0x0F { "VF"@ }
    else if reg == 0x10 { "SP"@ }
    else if reg == 0x11 { "BP"@ }
    else if reg == 0x12 { "LP"@ }
    else if reg == 0x13 { "PC"@ }
    else if reg == 0x14 { "ZF"@ }
    else if reg == 0x15 { "OF"@ }
    else if reg == 0x16 { "EPS"@ }
    else if reg == 0x17 { "NAN"@ }
    else { "INF"@ }
}

/// Returns the name of a register, or `None` if the id names no register.
pub fn get_name(reg: Register) -> (name: Option<&'static str>)
    ensures
        name is Some <==> reg < COUNT,
        name matches Some(s) ==> s@ == register_name(reg),
{
    match reg {
        0x00 => Some("V0"),
        0x01 => Some("V1"),
        0x02 => Some("V2"),
        0x03 => Some("V3"),
        0x04 => Some("V4"),
        0x05 => Some("V5"),
        0x06 => Some("V6"),
        0x07 => Some("V7"),
        0x08 => Some("V8"),
        0x09 => Some("V9"),
        0x0A => Some("VA"),
        0x0B => Some("VB"),
        0x0C => Some("VC"),
        0x0D => Some("VD"),
        0x0E => Some("VE"),
        0x0F => Some("VF"),
        0x10 => Some("SP"),
        0x11 => Some("BP"),
        0x12 => Some("LP"),
        0x13 => Some("PC"),
        0x14 => Some("ZF"),
        0x15 => Some("OF"),
        0x16 => Some("EPS"),
        0x17 => Some("NAN"),
        0x18 => Some("INF"),
        _ => None,
    }
}

/// What `str::to_uppercase` returns for a string.
pub uninterp spec fn uppercase(s: Seq<char>) -> Seq<char>;

/// A string of ASCII characters with each lower-case letter made upper-case.
pub open spec fn ascii_upper(s: Seq<char>) -> Seq<char> {
    s.map_values(|c: char| if 'a' <= c && c <= 'z' { ((c as u32) - 32) as char } else { c })
}

/// Calls `str::to_uppercase`. Claims that the result is a function of the
/// characters of the argument, named `uppercase`, and, as the Unicode case
/// mapping has it for ASCII, that an ASCII string comes back with its
/// letters `a` to `z` made `A` to `Z` and nothing else changed; the mapping
/// of other characters is left unstated.
#[verifier::external_body]
fn to_uppercase(s: &str) -> (r: String)
    ensures
        r@ == uppercase(s@),
        (forall|i: int| 0 <= i < s@.len() ==> (#[trigger] s@[i] as u32) < 128) ==> r@ == ascii_upper(s@),
{
    s.to_uppercase()
}

/// Whether the characters of `a` and `b` are the same.
fn chars_equal(a: &str, b: &str) -> (r: bool)
    ensures
        r == (a@ == b@),
{
    let n = a.unicode_len();
    if n != b.unicode_len() {
        return false;
    }
    let mut i: usize = 0;
    while i < n
        invariant
            n == a@.len(),
            a@.len() == b@.len(),
            i <= n,
            forall|j: int| 0 <= j < i ==> a@[j] == b@[j],
        decreases n - i,
    {
        if a.get_char(i) != b.get_char(i) {
            return false;
        }
        i += 1;
    }
    assert(a@ =~= b@);
    true
}

/// Looks up a register by its name as written in capitals: the first
/// register with that name.
pub fn lookup_upper(target: &str) -> (id: Option<Register>)
    ensures
        match id {
            Some(r) => r < COUNT && register_name(r) == target@ && forall|q: Register| q < r ==> register_name(q)
                != target@,
            None => forall|q: Register| q < COUNT ==> register_name(q) != target@,
        },
        forall|q: Register| q < COUNT && register_name(q) == target@ ==> id == Some(q),
{
    let mut reg: Register = 0;
    while reg < 25
        invariant
            reg <= 25,
            forall|q: Register| q < reg ==> register_name(q) != target@,
        decreases 25 - reg,
    {
        let n = get_name(reg);
        match n {
            Some(s) => {
                if chars_equal(s, target) {
                    proof {
                        assert forall|q: Register| q < COUNT && register_name(q) == target@ implies q == reg by {
                            if q != reg {
                                lemma_names_distinct(q, reg);
                            }
                        }
                    }
                    return Some(reg);
                }
            },
            None => {},
        }
        reg += 1;
    }
    None
}

/// Looks up a register by its name, ignoring case.
pub fn get_id(name: &str) -> (id: Option<Register>)
    ensures
        match id {
            Some(r) => r < COUNT && register_name(r) == uppercase(name@)
                && forall|q: Register| q < r ==> register_name(q) != uppercase(name@),
            None => forall|q: Register| q < COUNT ==> register_name(q) != uppercase(name@),
        },
        forall|q: Register| q < COUNT && register_name(q) == uppercase(name@) ==> id == Some(q),
        (forall|i: int| 0 <= i < name@.len() ==> (#[trigger] name@[i] as u32) < 128) ==> uppercase(name@)
            == ascii_upper(name@),
{
    let target = to_uppercase(name);
    lookup_upper(target.as_str())
}

/// The flag bit that stands for a register in a [`RegisterFlags`] word.
pub open spec fn reg_bit(reg: Register) -> Word {
    if reg < 25 {
        1u32 << (reg as u32)
    } else {
        0
    }
}

/// Whether bit `reg` of `word` is set.
pub open spec fn flag_set(word: Word, reg: u32) -> bool {
    (word & (1u32 << reg)) != 0
}

/// The flag word holding exactly the valid registers of a sequence.
pub open spec fn regs_mask(regs: Seq<Register>) -> Word
    decreases regs.len(),
{
    if regs.len() == 0 {
        0
    } else {
        regs_mask(regs.drop_last()) | reg_bit(regs.last())
    }
}

/// The registers flagged in `word`, in increasing order, starting from `from`.
pub open spec fn regs_from(word: Word, from: int) -> Seq<Register>
    decreases 25 - from,
{
    if from >= 25 || from < 0 {
        Seq::empty()
    } else if flag_set(word, from as u32) {
        seq![from as Register] + regs_from(word, from + 1)
    } else {
        regs_from(word, from + 1)
    }
}

/// The registers of `regs_from(word, from)` lie between `from` and the last
/// register, in strictly increasing order.
pub proof fn lemma_regs_from_sorted(word: Word, from: int)
    ensures
        forall|i: int| 0 <= i < regs_from(word, from).len() ==> from <= #[trigger] regs_from(word, from)[i] < COUNT,
        forall|i: int, j: int|
            0 <= i < j < regs_from(word, from).len() ==> #[trigger] regs_from(word, from)[i] < #[trigger] regs_from(word, from)[j],
    decreases 25 - from,
{
    if 0 <= from < 25 {
        lemma_regs_from_sorted(word, from + 1);
        let rest = regs_from(word, from + 1);
        if flag_set(word, from as u32) {
            let s = seq![from as Register] + rest;
            assert(regs_from(word, from) == s);
            assert forall|i: int| 0 <= i < s.len() implies from <= #[trigger] s[i] < COUNT by {
                if i > 0 {
                    assert(s[i] == rest[i - 1]);
                }
            }
            assert forall|i: int, j: int| 0 <= i < j < s.len() implies #[trigger] s[i] < #[trigger] s[j] by {
                assert(s[j] == rest[j - 1]);
                if i > 0 {
                    assert(s[i] == rest[i - 1]);
                }
            }
        }
    }
}

/// The registers flagged in `word` from `from` on are those at or above
/// `from`, below the last register, whose flag is set.
pub proof fn lemma_regs_from_contains(word: Word, from: int, k: Register)
    requires
        0 <= from,
    ensures
        regs_from(word, from).contains(k) == (from <= k < 25 && flag_set(word, k as u32)),
    decreases 25 - from,
{
    if from < 25 {
        lemma_regs_from_contains(word, from + 1, k);
        let rest = regs_from(word, from + 1);
        if flag_set(word, from as u32) {
            let s = seq![from as Register] + rest;
            assert(regs_from(word, from) == s);
            if s.contains(k) {
                let j = choose|j: int| 0 <= j < s.len() && s[j] == k;
                if j > 0 {
                    assert(rest[j - 1] == k);
                }
            }
            if rest.contains(k) {
                let j = choose|j: int| 0 <= j < rest.len() && rest[j] == k;
                assert(s[j + 1] == k);
            }
            if k == from {
                assert(s[0] == k);
            }
        }
    }
}

/// Two strictly increasing lists of registers that hold the same registers
/// are equal.
pub proof fn lemma_sorted_eq(a: Seq<Register>, b: Seq<Register>)
    requires
        forall|i: int, j: int| 0 <= i < j < a.len() ==> #[trigger] a[i] < #[trigger] a[j],
        forall|i: int, j: int| 0 <= i < j < b.len() ==> #[trigger] b[i] < #[trigger] b[j],
        forall|x: Register| a.contains(x) == b.contains(x),
    ensures
        a == b,
    decreases a.len(),
{
    if a.len() == 0 {
        if b.len() > 0 {
            assert(b.contains(b[0]));
        }
        assert(a =~= b);
    } else {
        assert(a.contains(a[0]));
        let j = choose|j: int| 0 <= j < b.len() && b[j] == a[0];
        assert(b.contains(b[0]));
        let i = choose|i: int| 0 <= i < a.len() && a[i] == b[0];
        if i > 0 {
            assert(a[0] < a[i]);
        }
        if j > 0 {
            assert(b[0] < b[j]);
        }
        let a1 = a.drop_first();
        let b1 = b.drop_first();
        assert forall|x: Register| a1.contains(x) == b1.contains(x) by {
            if a1.contains(x) {
                let k = choose|k: int| 0 <= k < a1.len() && a1[k] == x;
                assert(a[k + 1] == x);
                assert(a[0] < a[k + 1]);
                assert(b.contains(x));
                let l = choose|l: int| 0 <= l < b.len() && b[l] == x;
                assert(l != 0);
                assert(b1[l - 1] == x);
            }
            if b1.contains(x) {
                let k = choose|k: int| 0 <= k < b1.len() && b1[k] == x;
                assert(b[k + 1] == x);
                assert(b[0] < b[k + 1]);
                assert(a.contains(x));
                let l = choose|l: int| 0 <= l < a.len() && a[l] == x;
                assert(l != 0);
                assert(a1[l - 1] == x);
            }
        }
        assert forall|p: int, q: int| 0 <= p < q < a1.len() implies #[trigger] a1[p] < #[trigger] a1[q] by {
            assert(a[p + 1] < a[q + 1]);
        }
        assert forall|p: int, q: int| 0 <= p < q < b1.len() implies #[trigger] b1[p] < #[trigger] b1[q] by {
            assert(b[p + 1] < b[q + 1]);
        }
        lemma_sorted_eq(a1, b1);
        assert(a[0] == b[0]);
        assert(a.len() == b.len());
        assert forall|k: int| 0 <= k < a.len() implies a[k] == b[k] by {
            if k > 0 {
                assert(a[k] == a1[k - 1]);
                assert(b[k] == b1[k - 1]);
            }
        }
        assert(a =~= b);
    }
}

/// Reading back the flags of a strictly increasing list of valid registers
/// gives the list.
pub proof fn lemma_regs_from_mask(regs: Seq<Register>)
    requires
        forall|i: int| 0 <= i < regs.len() ==> #[trigger] regs[i] < COUNT,
        forall|i: int, j: int| 0 <= i < j < regs.len() ==> #[trigger] regs[i] < #[trigger] regs[j],
    ensures
        regs_from(regs_mask(regs), 0) == regs,
{
    let w = regs_mask(regs);
    lemma_regs_from_sorted(w, 0);
    assert forall|x: Register| regs_from(w, 0).contains(x) == regs.contains(x) by {
        lemma_regs_from_contains(w, 0, x);
        if x < 32 {
            lemma_regs_mask_contains(regs, x as u32);
        }
        if regs.contains(x) {
            let k = choose|k: int| 0 <= k < regs.len() && regs[k] == x;
            assert(regs[k] < COUNT);
        }
    }
    lemma_sorted_eq(regs_from(w, 0), regs);
}

proof fn lemma_bit_or(a: u32, b: u32, r: u32) by (bit_vector)
    requires
        b < 32,
        r < 32,
    ensures
        flag_set(a | (1u32 << b), r) == (flag_set(a, r) || r == b),
{
}

proof fn lemma_or_zero(x: u32) by (bit_vector)
    ensures
        x | 0 == x,
{
}

proof fn lemma_zero_flags(r: u32) by (bit_vector)
    requires
        r < 32,
    ensures
        !flag_set(0, r),
{
}

/// A register is flagged in `regs_mask(regs)` exactly when it is a valid
/// register that occurs in `regs`.
pub proof fn lemma_regs_mask_contains(regs: Seq<Register>, r: u32)
    requires
        r < 32,
    ensures
        flag_set(regs_mask(regs), r) == (r < 25 && regs.contains(r as Register)),
    decreases regs.len(),
{
    if regs.len() == 0 {
        lemma_zero_flags(r);
    } else {
        let init = regs.drop_last();
        let last = regs.last();
        lemma_regs_mask_contains(init, r);
        if last < 25 {
            lemma_bit_or(regs_mask(init), last as u32, r);
        } else {
            lemma_or_zero(regs_mask(init));
        }
        assert(regs =~= init.push(last));
        if init.contains(r as Register) {
            let k = choose|k: int| 0 <= k < init.len() && init[k] == r as Register;
            assert(regs[k] == r as Register);
        }
        if regs.contains(r as Register) && r as Register != last {
            let k = choose|k: int| 0 <= k < regs.len() && regs[k] == r as Register;
            assert(k < init.len());
            assert(init[k] == r as Register);
        }
        if last == r as Register {
            assert(regs[regs.len() - 1] == r as Register);
        }
    }
}

/// An iterator over the registers flagged in a [`RegisterFlags`] word.
#[derive(Debug, Clone, Copy)]
pub struct RegFlagIterator(pub Word, pub Register);

impl RegFlagIterator {
    /// The registers that the iterator has yet to produce.
    pub open spec fn remaining(self) -> Seq<Register> {
        regs_from(self.0, self.1 as int)
    }

    /// Produces the next flagged register, if any.
    pub fn next(&mut self) -> (r: Option<Register>)
        ensures
            final(self).0 == old(self).0,
            match r {
                Some(x) => old(self).remaining() == seq![x] + final(self).remaining(),
                None => old(self).remaining() == Seq::<Register>::empty()
                    && final(self).remaining() == Seq::<Register>::empty(),
            },
    {
        loop
            invariant
                self.0 == old(self).0,
                old(self).remaining() == self.remaining(),
            decreases 256 - self.1,
        {
            if self.1 >= 25 {
                return None;
            } else if self.0 & (1u32 << self.1 as u32) != 0 {
                let temp = self.1;
                self.1 = self.1 + 1;
                return Some(temp);
            } else {
                self.1 = self.1 + 1;
            }
        }
    }

    /// Collects the remaining registers, in increasing order.
    pub fn to_vec(self) -> (v: Vec<Register>)
        ensures
            v@ == self.remaining(),
    {
        let mut it = self;
        let mut v: Vec<Register> = Vec::new();
        loop
            invariant
                v@ + it.remaining() == self.remaining(),
            decreases it.remaining().len(),
        {
            let ghost before = it.remaining();
            match it.next() {
                Some(x) => {
                    v.push(x);
                    assert(v@ + it.remaining() =~= self.remaining());
                },
                None => {
                    assert(v@ =~= self.remaining());
                    return v;
                },
            }
        }
    }
}

/// A set of registers, one flag bit per register.
#[derive(Debug, Clone, Copy, PartialEq, Eq, Structural)]
pub struct RegisterFlags(pub Word);

impl Default for RegisterFlags {
    fn default() -> (r: Self)
        ensures
            r.0 == 0,
    {
        RegisterFlags(0)
    }
}

impl RegisterFlags {
    /// The flags holding exactly the valid registers among `regs`.
    pub open spec fn of(regs: Seq<Register>) -> RegisterFlags {
        RegisterFlags(regs_mask(regs))
    }

    /// Whether the register is in the set.
    pub open spec fn contains(self, reg: Register) -> bool {
        reg < 32 && flag_set(self.0, reg as u32)
    }

    /// Builds the flags of the valid registers in a slice; ids that name no
    /// register are left out.
    pub fn from_slice(regs: &[Register]) -> (r: RegisterFlags)
        ensures
            r == RegisterFlags::of(regs@),
    {
        let mut flags: Word = 0;
        let mut i: usize = 0;
        while i < regs.len()
            invariant
                i <= regs@.len(),
                flags == regs_mask(regs@.subrange(0, i as int)),
            decreases regs@.len() - i,
        {
            assert(regs@.subrange(0, i + 1).drop_last() =~= regs@.subrange(0, i as int));
            if regs[i] < 25 {
                flags = flags | (1u32 << regs[i] as u32);
            } else {
                proof {
                    lemma_or_zero(flags);
                }
            }
            i += 1;
        }
        assert(regs@.subrange(0, regs@.len() as int) =~= regs@);
        RegisterFlags(flags)
    }

    /// Whether the register's flag is set.
    pub fn has_register(self, reg_id: Register) -> (r: bool)
        requires
            reg_id < 32,
        ensures
            r == self.contains(reg_id),
    {
        self.0 & (1u32 << reg_id as u32) != 0
    }

    /// An iterator over the flagged registers, in increasing order.
    pub fn registers(self) -> (it: RegFlagIterator)
        ensures
            it.0 == self.0,
            it.1 == 0,
    {
        RegFlagIterator(self.0, 0)
    }

    /// The flagged registers, in increasing order.
    pub fn to_vec(self) -> (v: Vec<Register>)
        ensures
            v@ == regs_from(self.0, 0),
    {
        self.registers().to_vec()
    }

    /// The number of flagged registers.
    pub fn count(&self) -> (n: usize)
        ensures
            n == regs_from(self.0, 0).len(),
            n == set_bits_from(self.0 & 0x01FF_FFFF, 0),
    {
        proof {
            law_count_is_set_bits(self.0);
        }
        self.to_vec().len()
    }

    /// Adds a register to the set.
    pub fn bitor_register(self, rhs: Register) -> (r: RegisterFlags)
        requires
            rhs < COUNT,
        ensures
            r.0 == self.0 | (1u32 << rhs as u32),
    {
        RegisterFlags(self.0 | (1u32 << rhs as u32))
    }

    /// The union of two sets.
    pub fn bitor(self, rhs: RegisterFlags) -> (r: RegisterFlags)
        ensures
            r.0 == self.0 | rhs.0,
    {
        RegisterFlags(self.0 | rhs.0)
    }
}

/// The number of bits of `word` set from bit `i` up to the top bit.
pub open spec fn set_bits_from(word: Word, i: int) -> nat
    decreases 32 - i,
{
    if i < 0 || i >= 32 {
        0
    } else {
        (if flag_set(word, i as u32) { 1nat } else { 0nat }) + set_bits_from(word, i + 1)
    }
}

/// A bit of a word masked to its register flags is set exactly when it is a
/// register's bit and set in the word.
proof fn lemma_register_mask_bit(w: u32, i: u32)
    by (bit_vector)
    requires
        i < 32,
    ensures
        ((w & 0x01FF_FFFFu32) & (1u32 << i) != 0) == (i < 25 && (w & (1u32 << i)) != 0),
{
}

proof fn lemma_count_from(w: Word, i: int)
    requires
        0 <= i <= 32,
    ensures
        regs_from(w, i).len() == set_bits_from(w & 0x01FF_FFFF, i),
    decreases 32 - i,
{
    if i < 32 {
        lemma_count_from(w, i + 1);
        lemma_register_mask_bit(w, i as u32);
    }
}

/// The registers flagged in a word are as many as the bits set in its low
/// 25 bits, one for each register.
pub proof fn law_count_is_set_bits(w: Word)
    ensures
        regs_from(w, 0).len() == set_bits_from(w & 0x01FF_FFFF, 0),
{
    lemma_count_from(w, 0);
}

/// The registers below `k` whose flag is set in `word`, in increasing order.
pub open spec fn flagged_below(word: Word, k: int) -> Seq<Register>
    decreases k,
{
    if k <= 0 {
        Seq::empty()
    } else if flag_set(word, (k - 1) as u32) {
        flagged_below(word, k - 1).push((k - 1) as Register)
    } else {
        flagged_below(word, k - 1)
    }
}

/// The names of registers, separated by commas.
pub open spec fn names_joined(regs: Seq<Register>) -> Seq<char>
    decreases regs.len(),
{
    if regs.len() == 0 {
        Seq::empty()
    } else if regs.len() == 1 {
        register_name(regs[0])
    } else {
        names_joined(regs.drop_last()) + ", "@ + register_name(regs.last())
    }
}

impl RegisterFlags {
    /// The flags as text: the general-purpose registers and the stack, base
    /// and link pointers that are set, by name, in braces.
    pub open spec fn shown(self) -> Seq<char> {
        "{"@ + names_joined(flagged_below(self.0, 19)) + "}"@
    }

    /// Writes the flags as text.
    pub fn fmt(&self, f: &mut String)
        ensures
            final(f)@ == old(f)@ + self.shown(),
    {
        f.append("{");
        let ghost start = f@;
        let mut k: u8 = 0;
        let mut first = true;
        while k < 19
            invariant
                k <= 19,
                first == (flagged_below(self.0, k as int).len() == 0),
                f@ == start + names_joined(flagged_below(self.0, k as int)),
            decreases 19 - k,
        {
            let ghost before = flagged_below(self.0, k as int);
            if self.has_register(k) {
                if !first {
                    f.append(", ");
                }
                match get_name(k) {
                    Some(n) => f.append(n),
                    None => {},
                }
                proof {
                    let now = before.push(k as Register);
                    assert(flagged_below(self.0, k + 1) == now);
                    assert(now.drop_last() =~= before);
                    assert(now.last() == k);
                }
                first = false;
            }
            k += 1;
        }
        f.append("}");
    }
}

/// Every register has a name of its own.
pub proof fn lemma_names_distinct(p: Register, q: Register)
    requires
        p < COUNT,
        q < COUNT,
        p != q,
    ensures
        register_name(p) != register_name(q),
{
    reveal_strlit("V0");
    reveal_strlit("V1");
    reveal_strlit("V2");
    reveal_strlit("V3");
    reveal_strlit("V4");
    reveal_strlit("V5");
    reveal_strlit("V6");
    reveal_strlit("V7");
    reveal_strlit("V8");
    reveal_strlit("V9");
    reveal_strlit("VA");
    reveal_strlit("VB");
    reveal_strlit("VC");
    reveal_strlit("VD");
    reveal_strlit("VE");
    reveal_strlit("VF");
    reveal_strlit("SP");
    reveal_strlit("BP");
    reveal_strlit("LP");
    reveal_strlit("PC");
    reveal_strlit("ZF");
    reveal_strlit("OF");
    reveal_strlit("EPS");
    reveal_strlit("NAN");
    reveal_strlit("INF");
    let (a, b) = (register_name(p), register_name(q));
    assert(a.len() != b.len() || a[0] != b[0] || a[1] != b[1] || a[2] != b[2]);
}

} // verus!
