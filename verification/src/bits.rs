//! Small facts about bitwise operations on words.
use vstd::prelude::*;

verus! {

/// Or-ing zero into a word leaves it unchanged.
pub proof fn lemma_or_zero(x: u32) by (bit_vector)
    ensures
        x | 0 == x,
        0 | x == x,
{
}

/// Masking zero yields zero.
pub proof fn lemma_zero_and(m: u32) by (bit_vector)
    ensures
        0 & m == 0,
{
}

} // verus!
