use seis::memory::Memory;
use seis::types::Byte;

#[test]
fn test_read_uninit() {
    let mem = Memory::new(4);

    for i in 0x0000_0000..0x0004_0000 {
        assert_eq!(mem.read_byte(i), 0);
    }
}

#[test]
fn test_write_uninit() {
    let mut mem = Memory::new(4);

    for i in 0x0000_0000..0x0004_0000 {
        mem.write_byte(i, (i % 0xFF) as Byte);
        assert_eq!(mem.read_byte(i), (i % 0xFF) as Byte);
    }
}

#[test]
fn test_write_init() {
    let mut mem = Memory::new(4);

    mem.write_byte(0x0000_0000, 32);
    assert_eq!(mem.read_byte(0x0000_0000), 32);

    mem.write_byte(0x0000_0000, 64);
    assert_eq!(mem.read_byte(0x0000_0000), 64);

    mem.write_byte(0x0001_0002, 64);
    assert_eq!(mem.read_byte(0x0001_0002), 64);
}

#[test]
fn test_read_short() {
    let mut mem = Memory::new(4);

    mem.write_byte(0x0000_0000, 0x01);
    mem.write_byte(0x0000_0001, 0xF1);

    assert_eq!(mem.read_short(0x0000_0000), 0x01F1);
}

#[test]
fn test_write_short() {
    let mut mem = Memory::new(4);

    mem.write_short(0x0000_0000, 0x01F1);

    assert_eq!(mem.read_byte(0x0000_0000), 0x01);
    assert_eq!(mem.read_byte(0x0000_0001), 0xF1);
}

#[test]
fn test_read_word() {
    let mut mem = Memory::new(4);

    mem.write_byte(0x0000_0000, 0x01);
    mem.write_byte(0x0000_0001, 0xF1);
    mem.write_byte(0x0000_0002, 0xAB);
    mem.write_byte(0x0000_0003, 0x13);

    assert_eq!(mem.read_word(0x0000_0000), 0x01F1_AB13);
}

#[test]
fn test_write_word() {
    let mut mem = Memory::new(4);

    mem.write_word(0x0000_0000, 0x01F1_AB13);

    assert_eq!(mem.read_byte(0x0000_0000), 0x01);
    assert_eq!(mem.read_byte(0x0000_0001), 0xF1);
    assert_eq!(mem.read_byte(0x0000_0002), 0xAB);
    assert_eq!(mem.read_byte(0x0000_0003), 0x13);
}

#[test]
fn test_write_page_boundary() {
    let mut mem = Memory::new(4);

    mem.write_short(0x0000_FFFF, 0x01F1);

    assert_eq!(
        // Only the first two pages are allocated
        mem.debug_string(),
        "Memory { pages: [true, true, false, false] }"
    );

    assert_eq!(mem.read_byte(0x0000_FFFF), 0x01);
    assert_eq!(mem.read_byte(0x0001_0000), 0xF1);
}

#[test]
fn test_read_page_boundary() {
    let mut mem = Memory::new(4);

    mem.write_byte(0x0000_FFFF, 0x01);
    mem.write_byte(0x0001_0000, 0xF1);

    assert_eq!(mem.read_short(0x0000_FFFF), 0x01F1);
}

#[test]
fn word_crossing_a_page_boundary_reads_back() {
    let mut mem = Memory::new(4);

    mem.write_word(0x0000_FFFE, 0xDEAD_BEEF);

    assert_eq!(mem.read_word(0x0000_FFFE), 0xDEAD_BEEF);
    assert_eq!(mem.read_byte(0x0000_FFFE), 0xDE);
    assert_eq!(mem.read_byte(0x0000_FFFF), 0xAD);
    assert_eq!(mem.read_byte(0x0001_0000), 0xBE);
    assert_eq!(mem.read_byte(0x0001_0001), 0xEF);
    assert_eq!(mem.page_flags(), vec![true, true, false, false]);
}

#[test]
fn addresses_wrap_around_the_memory() {
    let mut mem = Memory::new(1);

    mem.write_byte(0x0001_0005, 7);
    assert_eq!(mem.read_byte(0x0000_0005), 7);
    mem.write_word(0x0000_FFFF, 0x0102_0304);
    assert_eq!(mem.read_byte(0x0000_FFFF), 0x01);
    assert_eq!(mem.read_byte(0x0000_0000), 0x02);
    assert_eq!(mem.read_word(0x0000_FFFF), 0x0102_0304);
}

#[test]
fn max_address_counts_every_page() {
    assert_eq!(Memory::new(4).max_address(), 0x0003_FFFF);
    assert_eq!(Memory::new(1).max_address(), 0x0000_FFFF);
    assert_eq!(Memory::new(0x1_0000).count_pages(), 0x1_0000);
}

#[test]
fn erase_releases_every_page() {
    let mut mem = Memory::new(2);
    mem.write_word(0x0001_0000, 0xFFFF_FFFF);
    assert_eq!(mem.debug_string(), "Memory { pages: [false, true] }");
    mem.erase();
    assert_eq!(mem.debug_string(), "Memory { pages: [false, false] }");
    assert_eq!(mem.read_word(0x0001_0000), 0);
}

#[test]
fn read_words_copies_consecutive_bytes() {
    let mut mem = Memory::new(1);
    mem.write_word(0x10, 0x0A0B_0C0D);
    assert_eq!(mem.read_words(0x10, 4), vec![0x0A, 0x0B, 0x0C, 0x0D]);
    let mut buf = [0u8; 3];
    mem.read_words_to(0x11, &mut buf);
    assert_eq!(buf, [0x0B, 0x0C, 0x0D]);
}

#[test]
fn pages_copy_allocated_pages() {
    let mut mem = Memory::new(3);
    mem.write_byte(0x0002_0001, 9);
    let pages = mem.pages();
    assert_eq!(pages.len(), 3);
    assert!(pages[0].is_none() && pages[1].is_none());
    assert_eq!(pages[2].as_ref().unwrap()[1], 9);
    let allocated = mem.allocated_pages();
    assert_eq!(allocated.len(), 1);
    assert_eq!(allocated[0].0, 2);
    assert_eq!(allocated[0].1[1], 9);
}

#[test]
fn set_page_replaces_a_whole_page() {
    let mut mem = Memory::new(2);
    let data: Vec<u8> = (0..0x1_0000).map(|i| (i & 0xFF) as u8).collect();
    mem.set_page(0x0001_0042, &data);
    assert_eq!(mem.read_byte(0x0001_0042), 0x42);
    assert_eq!(mem.read_word(0x0001_0100), 0x0001_0203);
    assert_eq!(mem.read_byte(0x0000_0042), 0);
}

#[test]
fn memory_past_the_address_space() {
    let mut m = Memory::new(0x1_0001);
    assert_eq!(m.count_pages(), 0x1_0001);
    assert_eq!(m.max_address(), 0xFFFF);
    assert_eq!(m.read_byte(0xFFFF_FFFF), 0);
    m.write_byte(0xFFFF_FFFF, 0x5A);
    assert_eq!(m.read_byte(0xFFFF_FFFF), 0x5A);
    // A short at the last address reads on into the page past the address space.
    assert_eq!(m.read_short(0xFFFF_FFFF), 0x5A00);
}
