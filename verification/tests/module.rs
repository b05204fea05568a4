use seis::cache::{Associative, Cache, NullCache};
use seis::memory::Memory;
use seis::module::{MemoryModule, SingleLevel, Status, Transaction};

fn memory_with_pattern() -> Memory {
    let mut memory = Memory::new(4);
    let page: Vec<u8> = (0..0x1_0000).map(|i| (i & 0xFF) as u8).collect();
    for p in 0..4u32 {
        memory.set_page(p << 16, &page);
    }
    memory
}

#[test]
fn read_miss_then_hit() {
    let mut module = SingleLevel::new(
        Associative::new(3, 2),
        Associative::new(3, 2),
        memory_with_pattern(),
        10,
        2,
        false,
    );

    // Both the first and the last byte miss: two miss penalties.
    assert_eq!(module.read_word(0x0000_0010), Err(Status::Busy(20)));
    assert_eq!(module.transaction(), Transaction::ReadWord(0x10));
    assert_eq!(module.cold_misses(), 2);
    // Busy until the fill is done.
    assert_eq!(module.read_byte(0x0000_0020), Err(Status::Busy(20)));
    module.clock(4);
    assert_eq!(module.wait_time(), 16);
    module.clock(16);
    assert_eq!(module.transaction(), Transaction::Idle);
    assert_eq!(module.read_word(0x0000_0010), Ok(0x1011_1213));
    // The hit completes the missed access, so it is not counted again.
    assert_eq!(module.cache_hits(), 0);
    assert_eq!(module.accesses(), 2);
    assert_eq!(module.read_byte(0x0000_0011), Ok(0x11));
    assert_eq!(module.cache_hits(), 1);
}

#[test]
fn write_miss_fills_then_writes() {
    let mut module = SingleLevel::new(
        Associative::new(3, 2),
        NullCache::new(),
        Memory::new(1),
        5,
        1,
        false,
    );
    assert_eq!(module.write_word(0x0000_0008, 0xDEAD_BEEF), Status::Busy(10));
    module.clock(10);
    assert_eq!(module.data_cache().word_at(0x8), Some(0xDEAD_BEEF));
    // The cache is write-back: memory is updated by a flush.
    assert_eq!(module.memory().read_word(0x8), 0);
    assert_eq!(module.flush_cache(), Status::Busy(5));
    module.clock(5);
    assert_eq!(module.memory().read_word(0x8), 0xDEAD_BEEF);
    assert_eq!(module.flush_cache(), Status::Idle);
}

#[test]
fn volatile_accesses_bypass_the_cache() {
    let mut module = SingleLevel::new(
        NullCache::new(),
        NullCache::new(),
        Memory::new(1),
        5,
        3,
        true,
    );
    assert_eq!(module.write_word_volatile(0x4, 0x0A0B_0C0D), Status::Busy(12));
    module.clock(12);
    assert_eq!(module.read_word_volatile(0x4), Err(Status::Busy(3)));
    module.clock(3);
    assert_eq!(module.read_word_volatile(0x4), Ok(0x0A0B_0C0D));
    assert_eq!(module.transaction(), Transaction::Idle);
}

#[test]
fn disabled_caches_read_main_memory() {
    let mut module = SingleLevel::new(
        NullCache::new(),
        NullCache::new(),
        memory_with_pattern(),
        5,
        3,
        false,
    );
    assert_eq!(module.read_instruction(0x0000_0004), Err(Status::Busy(3)));
    module.clock(3);
    assert_eq!(module.read_instruction(0x0000_0004), Ok(0x0405_0607));
    assert_eq!(module.transaction(), Transaction::Idle);
    assert_eq!(module.read_word(0x0000_0010), Err(Status::Busy(3)));
    module.clock(3);
    assert_eq!(module.read_word(0x0000_0010), Ok(0x1011_1213));
    assert_eq!(module.read_byte(0x0000_0021), Err(Status::Busy(3)));
    module.clock(3);
    assert_eq!(module.read_byte(0x0000_0021), Ok(0x21));
    assert_eq!(module.transaction(), Transaction::Idle);
    assert_eq!(module.cache_state().len(), 2);
}

#[test]
fn memory_mut_changes_main_memory() {
    let mut m = SingleLevel::new(Associative::new(2, 2), Associative::new(2, 2), Memory::new(2), 1, 1, false);
    m.memory_mut().write_word(0x40, 0x0102_0304);
    assert_eq!(m.memory().read_word(0x40), 0x0102_0304);
}

#[test]
fn disabled_data_cache_writes_main_memory() {
    let mut module = SingleLevel::new(NullCache::new(), NullCache::new(), Memory::new(1), 5, 3, false);
    // A word goes to main memory a byte at a time.
    assert_eq!(module.write_word(0x0000_0008, 0xDEAD_BEEF), Status::Busy(12));
    module.clock(12);
    assert_eq!(module.transaction(), Transaction::Idle);
    assert_eq!(module.memory().read_word(0x8), 0xDEAD_BEEF);
    assert_eq!(module.read_word(0x0000_0008), Err(Status::Busy(3)));
    module.clock(3);
    assert_eq!(module.read_word(0x0000_0008), Ok(0xDEAD_BEEF));
}
