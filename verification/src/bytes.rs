//! Big-endian composition and decomposition of shorts and words.
use crate::types::{Byte, Short, Word};
use vstd::prelude::*;

verus! {

/// The short whose big-endian bytes are `b0`, `b1`.
pub open spec fn short_of(b0: Byte, b1: Byte) -> Short {
    (b0 as int * 256 + b1 as int) as Short
}

/// The word whose big-endian bytes are `b0` to `b3`.
pub open spec fn word_of(b0: Byte, b1: Byte, b2: Byte, b3: Byte) -> Word {
    (b0 as int * 0x100_0000 + b1 as int * 0x1_0000 + b2 as int * 0x100 + b3 as int) as Word
}

/// The big-endian bytes of a short.
pub open spec fn short_bytes(v: Short) -> Seq<Byte> {
    seq![(v / 256) as Byte, (v % 256) as Byte]
}

/// The big-endian bytes of a word.
pub open spec fn word_bytes(v: Word) -> Seq<Byte> {
    seq![(v / 0x100_0000) as Byte, ((v / 0x1_0000) % 256) as Byte, ((v / 256) % 256) as Byte, (v % 256) as Byte]
}

/// Composes a short from its big-endian bytes.
pub fn short_from_be_bytes(b0: Byte, b1: Byte) -> (r: Short)
    ensures
        r == short_of(b0, b1),
{
    (b0 as Short) * 256 + (b1 as Short)
}

/// Composes a word from its big-endian bytes.
pub fn word_from_be_bytes(b0: Byte, b1: Byte, b2: Byte, b3: Byte) -> (r: Word)
    ensures
        r == word_of(b0, b1, b2, b3),
{
    (b0 as Word) * 0x100_0000 + (b1 as Word) * 0x1_0000 + (b2 as Word) * 0x100 + (b3 as Word)
}

/// The big-endian bytes of a short.
pub fn short_to_be_bytes(v: Short) -> (r: [Byte; 2])
    ensures
        r@ == short_bytes(v),
{
    let r = [(v / 256) as Byte, (v % 256) as Byte];
    assert(r@ =~= short_bytes(v));
    r
}

/// The big-endian bytes of a word.
pub fn word_to_be_bytes(v: Word) -> (r: [Byte; 4])
    ensures
        r@ == word_bytes(v),
{
    let r = [(v / 0x100_0000) as Byte, ((v / 0x1_0000) % 256) as Byte, ((v / 256) % 256) as Byte, (v % 256) as Byte];
    assert(r@ =~= word_bytes(v));
    r
}

/// Splitting a short into bytes and composing them gives the short back.
pub proof fn lemma_short_roundtrip(v: Short)
    ensures
        short_of(short_bytes(v)[0], short_bytes(v)[1]) == v,
{
}

/// Splitting a word into bytes and composing them gives the word back.
pub proof fn lemma_word_roundtrip(v: Word)
    ensures
        word_of(word_bytes(v)[0], word_bytes(v)[1], word_bytes(v)[2], word_bytes(v)[3]) == v,
{
    let a = v / 0x100_0000;
    let b = (v / 0x1_0000) % 256;
    let c = (v / 256) % 256;
    let d = v % 256;
    assert(a * 0x100_0000 + b * 0x1_0000 + c * 0x100 + d == v) by (nonlinear_arith)
        requires
            a == v / 0x100_0000,
            b == (v / 0x1_0000) % 256,
            c == (v / 256) % 256,
            d == v % 256,
    ;
}

/// Composing bytes into a short and splitting it gives the bytes back.
pub proof fn lemma_short_bytes_of(b0: Byte, b1: Byte)
    ensures
        short_bytes(short_of(b0, b1)) == seq![b0, b1],
{
    assert(short_bytes(short_of(b0, b1)) =~= seq![b0, b1]);
}

/// Composing bytes into a word and splitting it gives the bytes back.
pub proof fn lemma_word_bytes_of(b0: Byte, b1: Byte, b2: Byte, b3: Byte)
    ensures
        word_bytes(word_of(b0, b1, b2, b3)) == seq![b0, b1, b2, b3],
{
    let v = word_of(b0, b1, b2, b3);
    assert(v / 0x100_0000 == b0 && (v / 0x1_0000) % 256 == b1 && (v / 256) % 256 == b2 && v % 256
        == b3) by (nonlinear_arith)
        requires
            v == b0 * 0x100_0000 + b1 * 0x1_0000 + b2 * 0x100 + b3,
            b0 < 256,
            b1 < 256,
            b2 < 256,
            b3 < 256,
    ;
    assert(word_bytes(v) =~= seq![b0, b1, b2, b3]);
}

} // verus!
