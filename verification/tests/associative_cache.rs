use seis::cache::{Associative, Cache, LineReadStatus, MultiAssociative, Status};
use seis::memory::Memory;

/// A fixed spread of values up to `limit`.
fn spread(seed: u64, limit: u64) -> Vec<u64> {
    let mut x: u64 = seed ^ 0x9E37_79B9_7F4A_7C15;
    (0..32)
        .map(|_| {
            x = x.wrapping_mul(6364136223846793005).wrapping_add(1442695040888963407);
            (x >> 16) % (limit + 1)
        })
        .collect()
}

#[test]
fn associative_cache_read_byte_cold() {
    let mut cache = Associative::new(4, 4);

    for a in spread(0, 0x0000_1234) {
        assert!(matches!(cache.get_byte(a as u32), Err(Status::Cold)));
    }
}

#[test]
fn associative_cache_read_short_cold() {
    let mut cache = Associative::new(4, 4);

    for a in spread(0, 0x0000_1234) {
        assert!(matches!(cache.get_short(a as u32), Err(Status::Cold)));
    }
}

#[test]
fn associative_cache_read_word_cold() {
    let mut cache = Associative::new(4, 4);

    for a in spread(0, 0x0000_1234) {
        assert!(matches!(cache.get_word(a as u32), Err(Status::Cold)));
    }
}

#[test]
fn write_byte_cold() {
    let mut cache = Associative::new(4, 4);
    let values = spread(1, 0xFF);

    for (a, v) in spread(0, 0x0000_1234).into_iter().zip(values) {
        assert!(cache.write_byte(a as u32, v as u8).is_miss())
    }
}

#[test]
fn write_short_cold() {
    let mut cache = Associative::new(4, 4);
    let values = spread(1, 0xFFFF);

    for (a, v) in spread(0, 0x0000_1234).into_iter().zip(values) {
        assert!(cache.write_short(a as u32, v as u16).is_miss())
    }
}

#[test]
fn write_word_cold() {
    let mut cache = Associative::new(4, 4);
    let values = spread(1, 0xFFFF_FFFF);

    for (a, v) in spread(0, 0x0000_1234).into_iter().zip(values) {
        assert!(cache.write_word(a as u32, v as u32).is_miss())
    }
}

#[test]
fn associative_geometry() {
    let cache = Associative::new(4, 6);
    assert_eq!(cache.tag_bits(), 22);
    assert_eq!(cache.set_bits(), 6);
    assert_eq!(cache.off_bits(), 4);
    assert_eq!(cache.line_len(), 16);
    let multi = MultiAssociative::new(3, 2, 4);
    assert_eq!(multi.ways(), 4);
    assert_eq!(multi.tag_bits(), 27);
    assert_eq!(multi.line_len(), 8);
    assert_eq!(multi.get_lines().len(), 16);
}

#[test]
fn fill_then_hit_and_write_back() {
    let mut memory = Memory::new(1);
    memory.write_word(0x0000_0010, 0x1122_3344);
    let mut cache = Associative::new(4, 2);

    assert_eq!(cache.get_word(0x10), Err(Status::Cold));
    assert_eq!(cache.write_line(0x12, &mut memory), LineReadStatus::Inserted);
    assert_eq!(cache.write_line(0x12, &mut memory), LineReadStatus::Skipped);
    assert_eq!(cache.get_word(0x10), Ok(0x1122_3344));
    assert_eq!(cache.get_short(0x11), Ok(0x2233));
    assert_eq!(cache.word_at(0x10), Some(0x1122_3344));

    assert_eq!(cache.write_byte(0x13, 0xAA), Status::Hit);
    assert_eq!(cache.get_byte(0x13), Ok(0xAA));
    assert_eq!(cache.dirty_lines(), 1);
    // Memory still holds the old byte until the line is written back.
    assert_eq!(memory.read_byte(0x13), 0x44);

    // Another tag in the same set evicts the dirty line and writes it back.
    assert_eq!(cache.check_address(0x50), Status::Conflict);
    assert_eq!(cache.write_line(0x50, &mut memory), LineReadStatus::Evicted);
    assert_eq!(memory.read_byte(0x13), 0xAA);
    assert_eq!(cache.get_byte(0x13), Err(Status::Conflict));
    assert_eq!(cache.dirty_lines(), 0);
}

#[test]
fn flush_writes_back_and_cleans() {
    let mut memory = Memory::new(1);
    let mut cache = MultiAssociative::new(2, 1, 2);
    cache.write_line(0x0, &mut memory);
    cache.write_line(0x4, &mut memory);
    assert_eq!(cache.write_word(0x0, 0x0102_0304), Status::Hit);
    assert_eq!(cache.write_short(0x4, 0x0506), Status::Hit);
    assert_eq!(cache.dirty_lines(), 2);
    assert_eq!(cache.flush(&mut memory), 2);
    assert_eq!(cache.dirty_lines(), 0);
    assert_eq!(memory.read_word(0x0), 0x0102_0304);
    assert_eq!(memory.read_short(0x4), 0x0506);
    assert_eq!(cache.flush(&mut memory), 0);
}

#[test]
fn multi_associative_replaces_least_recently_used() {
    let mut memory = Memory::new(1);
    // One set of two lines of four bytes.
    let mut cache = MultiAssociative::new(2, 0, 2);
    assert_eq!(cache.write_line(0x00, &mut memory), LineReadStatus::Inserted);
    assert_eq!(cache.write_line(0x10, &mut memory), LineReadStatus::Inserted);
    assert_eq!(cache.check_address(0x20), Status::Conflict);
    // Using 0x00 makes 0x10 the least recently used line.
    assert_eq!(cache.get_byte(0x00), Ok(0));
    assert_eq!(cache.write_line(0x20, &mut memory), LineReadStatus::Evicted);
    assert_eq!(cache.check_address(0x00), Status::Hit);
    assert_eq!(cache.check_address(0x10), Status::Conflict);
    assert!(cache.invalidate_line(0x00));
    assert_eq!(cache.check_address(0x00), Status::Cold);
}

#[test]
fn word_across_two_lines() {
    let mut memory = Memory::new(1);
    memory.write_word(0x06, 0xA1B2_C3D4);
    let mut cache = MultiAssociative::new(3, 2, 1);
    cache.write_line(0x06, &mut memory);
    assert_eq!(cache.get_word(0x06), Err(Status::Cold));
    assert!(!cache.within_line(0x06, 4));
    assert!(cache.within_line(0x06, 2));
    cache.write_line(0x09, &mut memory);
    assert_eq!(cache.get_word(0x06), Ok(0xA1B2_C3D4));
    assert_eq!(cache.short_at(0x07), Some(0xB2C3));
}
