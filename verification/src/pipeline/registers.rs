//! The register set of the processor and the locks that stages hold on it.
use crate::registers::{BP, COUNT, EPS, INF, LP, NAN, OF, PC, SP, ZF};
use crate::types::{Register, Word};
use vstd::prelude::*;

verus! {

/// The registers by name.
#[derive(Debug, Clone, Copy)]
pub struct Named {
    pub v: [Word; 16],
    pub sp: Word,
    pub bp: Word,
    pub lp: Word,
    pub pc: Word,
    pub zf: Word,
    pub of: Word,
    pub eps: Word,
    pub nan: Word,
    pub inf: Word,
}

/// The values of the processor's registers, indexed by register id.
#[derive(Debug, Clone, Copy)]
pub struct Registers {
    values: [Word; 25],
}

impl View for Registers {
    type V = Seq<Word>;

    closed spec fn view(&self) -> Seq<Word> {
        self.values@
    }
}

impl Registers {
    /// The register file has one value per register.
    pub proof fn lemma_len(&self)
        ensures
            self@.len() == COUNT,
    {
    }

    /// Every register holds zero.
    pub fn new() -> (r: Registers)
        ensures
            r@ == Seq::new(COUNT as nat, |i: int| 0u32),
    {
        let r = Registers { values: [0; 25] };
        assert(r@ =~= Seq::new(COUNT as nat, |i: int| 0u32));
        r
    }

    /// The value of a register.
    pub fn get(&self, reg: Register) -> (v: Word)
        requires
            reg < COUNT,
        ensures
            v == self@[reg as int],
    {
        self.values[reg as usize]
    }

    /// Sets the value of a register.
    pub fn set(&mut self, reg: Register, value: Word)
        requires
            reg < COUNT,
        ensures
            final(self)@ == old(self)@.update(reg as int, value),
    {
        self.values[reg as usize] = value;
    }

    /// The program counter.
    pub fn pc(&self) -> (v: Word)
        ensures
            v == self@[PC as int],
    {
        self.values[PC as usize]
    }

    /// Sets the program counter.
    pub fn set_pc(&mut self, value: Word)
        ensures
            final(self)@ == old(self)@.update(PC as int, value),
    {
        self.values[PC as usize] = value;
    }

    /// The registers by name.
    pub fn named(&self) -> (n: Named)
        ensures
            forall|i: int| 0 <= i < 16 ==> n.v@[i] == self@[i],
            n.sp == self@[SP as int],
            n.bp == self@[BP as int],
            n.lp == self@[LP as int],
            n.pc == self@[PC as int],
            n.zf == self@[ZF as int],
            n.of == self@[OF as int],
            n.eps == self@[EPS as int],
            n.nan == self@[NAN as int],
            n.inf == self@[INF as int],
    {
        let v = [
            self.values[0], self.values[1], self.values[2], self.values[3], self.values[4],
            self.values[5], self.values[6], self.values[7], self.values[8], self.values[9],
            self.values[10], self.values[11], self.values[12], self.values[13], self.values[14],
            self.values[15],
        ];
        Named {
            v,
            sp: self.values[SP as usize],
            bp: self.values[BP as usize],
            lp: self.values[LP as usize],
            pc: self.values[PC as usize],
            zf: self.values[ZF as usize],
            of: self.values[OF as usize],
            eps: self.values[EPS as usize],
            nan: self.values[NAN as usize],
            inf: self.values[INF as usize],
        }
    }
}

impl Default for Registers {
    fn default() -> (r: Registers)
        ensures
            r@ == Seq::new(COUNT as nat, |i: int| 0u32),
    {
        Registers::new()
    }
}

/// The number of locks held on each register, indexed by register id.
#[derive(Debug, Clone, Copy)]
pub struct Locks {
    counts: [u8; 25],
}

impl View for Locks {
    type V = Seq<u8>;

    closed spec fn view(&self) -> Seq<u8> {
        self.counts@
    }
}

impl Locks {
    /// The lock table has one count per register.
    pub proof fn lemma_len(&self)
        ensures
            self@.len() == COUNT,
    {
    }

    /// No register is locked.
    pub fn new() -> (l: Locks)
        ensures
            l@ == Seq::new(COUNT as nat, |i: int| 0u8),
    {
        let l = Locks { counts: [0; 25] };
        assert(l@ =~= Seq::new(COUNT as nat, |i: int| 0u8));
        l
    }

    /// The number of locks on a register.
    pub fn get(&self, reg: Register) -> (n: u8)
        requires
            reg < COUNT,
        ensures
            n == self@[reg as int],
    {
        self.counts[reg as usize]
    }

    /// Adds a lock on a register; the count stays at its maximum.
    pub fn lock(&mut self, reg: Register)
        requires
            reg < COUNT,
        ensures
            final(self)@ == old(self)@.update(
                reg as int,
                if old(self)@[reg as int] < u8::MAX {
                    (old(self)@[reg as int] + 1) as u8
                } else {
                    u8::MAX
                },
            ),
    {
        let n = self.counts[reg as usize];
        self.counts[reg as usize] = n.saturating_add(1);
    }

    /// Releases a lock on a register; an unlocked register stays unlocked.
    pub fn unlock(&mut self, reg: Register)
        requires
            reg < COUNT,
        ensures
            final(self)@ == old(self)@.update(
                reg as int,
                if old(self)@[reg as int] > 0 {
                    (old(self)@[reg as int] - 1) as u8
                } else {
                    0u8
                },
            ),
    {
        let n = self.counts[reg as usize];
        self.counts[reg as usize] = n.saturating_sub(1);
    }

    /// Whether some stage holds a lock on the register.
    pub fn is_locked(&self, reg: Register) -> (b: bool)
        requires
            reg < COUNT,
        ensures
            b == (self@[reg as int] != 0),
    {
        !self.is_unlocked(reg)
    }

    /// Whether no stage holds a lock on the register.
    pub fn is_unlocked(&self, reg: Register) -> (b: bool)
        requires
            reg < COUNT,
        ensures
            b == (self@[reg as int] == 0),
    {
        self.counts[reg as usize] == 0
    }
}

impl Default for Locks {
    fn default() -> (l: Locks)
        ensures
            l@ == Seq::new(COUNT as nat, |i: int| 0u8),
    {
        Locks::new()
    }
}

} // verus!
