//! Constants related to how pages work in the architecture
use crate::types::Word;
use vstd::prelude::*;

verus! {

/// The size of a page
pub const PAGE_SIZE: usize = 65536;
/// The offset of the stack page
pub const STACK_PAGE: Word = 0x0001_0000;
/// The offset of the zero (short) page
pub const ZERO_PAGE: Word = 0x0002_0000;

} // verus!
