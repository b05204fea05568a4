//! A small map from registers to the values that the decode stage read.
use crate::types::{Register, Word};
use vstd::prelude::*;

verus! {

/// A register and its value.
#[derive(Debug, Clone, Copy, PartialEq, Eq, Structural)]
pub struct RegMapPair {
    register: Register,
    value: Word,
}

impl RegMapPair {
    /// Pairs a register with a value.
    pub fn new(register: Register, value: Word) -> (p: Self)
        ensures
            p.reg() == register,
            p.val() == value,
    {
        RegMapPair { register, value }
    }

    /// The register.
    pub closed spec fn reg(self) -> Register {
        self.register
    }

    /// The value.
    pub closed spec fn val(self) -> Word {
        self.value
    }

    /// The register.
    pub fn register(&self) -> (r: Register)
        ensures
            r == self.reg(),
    {
        self.register
    }

    /// The value.
    pub fn value(&self) -> (v: Word)
        ensures
            v == self.val(),
    {
        self.value
    }
}

/// A map from registers to values, kept in increasing order of register.
#[derive(Debug)]
pub struct RegMap(Vec<RegMapPair>);

impl RegMap {
    /// The entries, in increasing order of register.
    pub closed spec fn entries(self) -> Seq<(Register, Word)> {
        self.0@.map_values(|p: RegMapPair| (p.register, p.value))
    }

    /// The registers increase strictly along the entries.
    pub open spec fn wf(self) -> bool {
        forall|i: int, j: int|
            0 <= i < j < self.entries().len() ==> #[trigger] self.entries()[i].0
                < #[trigger] self.entries()[j].0
    }

    /// Whether the map holds a register.
    pub open spec fn has(self, r: Register) -> bool {
        exists|i: int| 0 <= i < self.entries().len() && self.entries()[i].0 == r
    }

    /// The value the map holds for a register.
    pub open spec fn value_of(self, r: Register) -> Word {
        self.entries()[choose|i: int| 0 <= i < self.entries().len() && self.entries()[i].0 == r].1
    }

    /// The empty map.
    pub fn new() -> (m: Self)
        ensures
            m.entries() == Seq::<(Register, Word)>::empty(),
            m.wf(),
    {
        let m = RegMap(Vec::new());
        assert(m.entries() =~= Seq::<(Register, Word)>::empty());
        m
    }

    /// The number of registers in the map.
    pub fn len(&self) -> (n: usize)
        ensures
            n == self.entries().len(),
    {
        self.0.len()
    }

    /// Adds a register above every register in the map.
    pub fn push(&mut self, register: Register, value: Word)
        requires
            old(self).wf(),
            old(self).entries().len() > 0 ==> old(self).entries().last().0 < register,
        ensures
            final(self).wf(),
            final(self).entries() == old(self).entries().push((register, value)),
    {
        self.0.push(RegMapPair { register, value });
        proof {
            assert(self.entries() =~= old(self).entries().push((register, value)));
        }
    }

    /// The value of a register, if the map holds it.
    pub fn get(&self, r: Register) -> (v: Option<Word>)
        requires
            self.wf(),
        ensures
            v is Some <==> self.has(r),
            v matches Some(x) ==> x == self.value_of(r),
    {
        let mut i: usize = 0;
        while i < self.0.len()
            invariant
                self.wf(),
                i <= self.entries().len(),
                forall|j: int| 0 <= j < i ==> self.entries()[j].0 != r,
            decreases self.0@.len() - i,
        {
            if self.0[i].register == r {
                proof {
                    assert(self.entries()[i as int].0 == r);
                    let k = choose|k: int| 0 <= k < self.entries().len() && self.entries()[k].0 == r;
                    if k < i {
                        assert(self.entries()[k].0 < self.entries()[i as int].0);
                    } else if k > i {
                        assert(self.entries()[i as int].0 < self.entries()[k].0);
                    }
                }
                return Some(self.0[i].value);
            }
            i += 1;
        }
        None
    }

    /// The value of a register that the map holds.
    pub fn index(&self, r: Register) -> (v: Word)
        requires
            self.wf(),
            self.has(r),
        ensures
            v == self.value_of(r),
    {
        match self.get(r) {
            Some(v) => v,
            None => 0,
        }
    }
}

impl Default for RegMap {
    fn default() -> (m: Self)
        ensures
            m.entries() == Seq::<(Register, Word)>::empty(),
            m.wf(),
    {
        RegMap::new()
    }
}

} // verus!
