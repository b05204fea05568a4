//! The null cache: it stores nothing, so every read and write misses and
//! a line fill is skipped; the memory module then goes to main memory.
use crate::cache::model::CacheModel;
use crate::cache::{Cache, LineData, LineReadStatus, Status};
use crate::memory::Memory;
use crate::types::{Byte, Short, Word};
use vstd::prelude::*;

verus! {

/// A cache that is disabled: it holds no data at all.
pub struct NullCache;

impl NullCache {
    /// Creates a null cache.
    pub fn new() -> (c: Self)
        ensures
            c.model() == CacheModel::Disabled,
            c.inv(),
    {
        NullCache
    }
}

impl Cache for NullCache {
    closed spec fn model(&self) -> CacheModel {
        CacheModel::Disabled
    }

    closed spec fn inv(&self) -> bool {
        true
    }

    proof fn lemma_model_wf(&self) {
    }

    fn get_byte(&mut self, address: Word) -> (r: Result<Byte, Status>) {
        Err(Status::Disabled)
    }

    fn get_short(&mut self, address: Word) -> (r: Result<Short, Status>) {
        Err(Status::Disabled)
    }

    fn get_word(&mut self, address: Word) -> (r: Result<Word, Status>) {
        Err(Status::Disabled)
    }

    fn write_byte(&mut self, address: Word, data: Byte) -> (s: Status) {
        Status::Cold
    }

    fn write_short(&mut self, address: Word, data: Short) -> (s: Status) {
        Status::Cold
    }

    fn write_word(&mut self, address: Word, data: Word) -> (s: Status) {
        Status::Cold
    }

    fn check_address(&self, address: Word) -> (s: Status) {
        Status::Disabled
    }

    fn line_len(&self) -> (n: usize) {
        0
    }

    fn within_line(&self, address: Word, length: usize) -> (b: bool) {
        false
    }

    fn invalidate_line(&mut self, address: Word) -> (b: bool) {
        false
    }

    fn write_line(&mut self, address: Word, memory: &mut Memory) -> (s: LineReadStatus) {
        LineReadStatus::Skipped
    }

    fn flush(&mut self, memory: &mut Memory) -> (n: usize) {
        0
    }

    fn dirty_lines(&self) -> (n: usize) {
        0
    }

    fn get_lines(&self) -> (lines: Vec<Option<LineData>>) {
        Vec::new()
    }

    fn byte_at(&self, address: Word) -> (b: Option<Byte>) {
        None
    }

    fn short_at(&self, address: Word) -> (s: Option<Short>) {
        None
    }

    fn word_at(&self, address: Word) -> (w: Option<Word>) {
        None
    }
}

} // verus!
