use seis::cache::{Cache, MappedLru, Status};

#[test]
fn mapped_lru_bits() {
    for (off, set) in [(5, 1), (20, 12), (8, 8), (12, 16), (31, 1), (6, 10)] {
        let cache = MappedLru::new(off, set);
        assert_eq!(cache.tag_bits(), 32 - (off + set));
        assert_eq!(cache.set_bits(), set);
        assert_eq!(cache.off_bits(), off);
    }
}

#[test]
fn mapped_lru_read_byte_cold() {
    let mut cache = MappedLru::new(5, 4);
    for a in [0x0000_0000, 0x0000_0123, 0x0010_0000, 0xFFFF_FFFF] {
        assert!(matches!(cache.get_byte(a), Err(Status::Cold)));
    }
}

#[test]
fn mapped_lru_read_short_cold() {
    let mut cache = MappedLru::new(5, 4);
    for a in [0x0000_0000, 0x0000_0123, 0x0010_0000, 0xFFFF_FFFE] {
        assert!(matches!(cache.get_short(a), Err(Status::Cold)));
    }
}

#[test]
fn mapped_lru_read_word_cold() {
    let mut cache = MappedLru::new(5, 4);
    for a in [0x0000_0000, 0x0000_0123, 0x0010_0000, 0xFFFF_FFFC] {
        assert!(matches!(cache.get_word(a), Err(Status::Cold)));
    }
}
