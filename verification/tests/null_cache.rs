use seis::cache::{Cache, LineReadStatus, NullCache, Status};
use seis::memory::Memory;

/// A fixed spread of addresses below `limit`.
fn addresses(limit: u64) -> Vec<u32> {
    let mut x: u64 = 0x1234_5678;
    (0..32)
        .map(|_| {
            x = x.wrapping_mul(6364136223846793005).wrapping_add(1442695040888963407);
            ((x >> 16) % (limit + 1)) as u32
        })
        .collect()
}

#[test]
fn get_byte_miss() {
    let mut cache = NullCache::new();

    for address in addresses(0xFFFF_FFFF) {
        assert!(matches!(cache.get_byte(address), Err(Status::Disabled)))
    }
}

#[test]
fn get_short_miss() {
    let mut cache = NullCache::new();

    for address in addresses(0xFFFF_FFFE) {
        assert!(matches!(cache.get_short(address), Err(Status::Disabled)))
    }
}

#[test]
fn get_word_miss() {
    let mut cache = NullCache::new();

    for address in addresses(0xFFFF_FFFC) {
        assert!(matches!(cache.get_word(address), Err(Status::Disabled)))
    }
}

#[test]
fn line_len() {
    assert!(NullCache::new().line_len() == 0)
}

/// A fixed spread of values up to `max`.
fn values(max: u64) -> Vec<u64> {
    let mut x: u64 = 0x0BAD_CAFE;
    (0..32)
        .map(|_| {
            x = x.wrapping_mul(6364136223846793005).wrapping_add(1442695040888963407);
            (x >> 16) % (max + 1)
        })
        .collect()
}

#[test]
fn write_byte_miss() {
    let mut cache = NullCache::new();
    for (address, v) in addresses(0xFFFF_FFFF).into_iter().zip(values(255)) {
        assert!(cache.write_byte(address, v as u8).is_miss());
    }
}

#[test]
fn write_short_miss() {
    let mut cache = NullCache::new();
    for (address, v) in addresses(0xFFFF_FFFE).into_iter().zip(values(65535)) {
        assert!(cache.write_short(address, v as u16).is_miss());
    }
}

#[test]
fn write_word_miss() {
    let mut cache = NullCache::new();
    for (address, v) in addresses(0xFFFF_FFFC).into_iter().zip(values(4294967295)) {
        assert!(cache.write_word(address, v as u32).is_miss());
    }
}

#[test]
fn null_cache_holds_no_line() {
    let mut cache = NullCache::new();
    assert_eq!(cache.check_address(0x10), Status::Disabled);
    assert!(!cache.within_line(0x10, 1));
    assert!(!cache.invalidate_line(0x10));
    assert_eq!(cache.dirty_lines(), 0);
    assert!(cache.get_lines().is_empty());
}

#[test]
fn read_line() {
    let mut cache = NullCache::new();
    let mut memory = Memory::new(4);
    let val = values(4096)[0] as u32;

    memory.write_word(0x0000_0000, val);

    assert!(!cache.write_line(0x0000_0000, &mut memory).disabled());

    assert!(matches!(cache.get_word(0x0000_0000), Err(Status::Disabled)))
}

#[test]
fn null_cache_skips_fills_and_holds_nothing() {
    let mut cache = NullCache::new();
    let mut memory = Memory::new(4);
    memory.write_word(0x0000_0100, 0xCAFE_F00D);

    assert_eq!(cache.write_line(0x0000_0100, &mut memory), LineReadStatus::Skipped);
    assert_eq!(cache.get_word(0x0000_0100), Err(Status::Disabled));
    assert_eq!(cache.get_short(0x0000_0100), Err(Status::Disabled));
    assert_eq!(cache.get_byte(0x0000_0100), Err(Status::Disabled));
    assert_eq!(cache.byte_at(0x0000_0100), None);
    assert_eq!(memory.read_word(0x0000_0100), 0xCAFE_F00D);
}
