//! A simulator for the SEIS instruction set: instructions and their encoding,
//! a paged main memory, caches, a memory hierarchy, and processors built from
//! five pipeline stages.
use vstd::prelude::*;

pub mod types;
pub mod bits;
pub mod bytes;
pub mod pages;
pub mod memory;
pub mod cache;
pub mod module;
pub mod pipeline;
pub mod registers;
pub mod text;
pub mod instruction_set;
pub mod assembly;

verus! {
}
