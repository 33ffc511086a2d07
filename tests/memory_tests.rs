use nel_os_vmm::memory::{BitmapMemoryTable, Range, UsableMemory, FRAME_COUNT};

fn table(ranges: Vec<Range>) -> BitmapMemoryTable {
    BitmapMemoryTable::init(&UsableMemory { ranges })
}

#[test]
fn bitmap_sits_at_top_of_highest_range() {
    let t = table(vec![Range { start: 0x10_0000, end: 0x20_0000 }]);
    assert_eq!(t.bitmap_addr, 0x18_0000);
    assert!(t.get_bit(0x100));
    assert!(t.get_bit(0x17F));
    assert!(!t.get_bit(0x180));
    assert!(!t.get_bit(0x1FF));
    assert!(!t.get_bit(0xFF));
    assert!(!t.get_bit(0x200));
    assert_eq!(t.end, 0x180);
}

#[test]
fn allocations_are_unique_aligned_and_in_range() {
    let mut t = table(vec![
        Range { start: 0x10_0000, end: 0x10_4000 },
        Range { start: 0x100_0000, end: 0x110_0000 },
    ]);
    let mut seen: Vec<u64> = Vec::new();
    while let Some(a) = t.allocate_frame() {
        assert_eq!(a % 4096, 0);
        let in_first = a >= 0x10_0000 && a < 0x10_4000;
        let in_second = a >= 0x100_0000 && a < 0x110_0000;
        assert!(in_first || in_second);
        assert!(!seen.contains(&a));
        seen.push(a);
    }
    assert_eq!(seen[0], 0x10_0000);
    assert_eq!(seen[1], 0x10_1000);
    assert_eq!(seen.len(), 4 + 256 - 128);
    assert_eq!(t.allocate_frame(), None);
}

#[test]
fn set_range_marks_every_page_free() {
    let mut t = table(vec![Range { start: 0x100_0000, end: 0x200_0000 }]);
    t.set_range(&Range { start: 0x3000, end: 0x8000 });
    for f in 3..8 {
        assert!(t.get_bit(f));
    }
    assert!(!t.get_bit(2));
    assert!(!t.get_bit(8));
    assert_eq!(t.allocate_frame(), Some(0x3000));
}

#[test]
fn set_frame_frees_and_takes() {
    let mut t = table(vec![Range { start: 0x100_0000, end: 0x200_0000 }]);
    let a = t.allocate_frame().unwrap();
    assert_eq!(a, 0x100_0000);
    t.set_frame((a / 4096) as usize, true);
    assert_eq!(t.allocate_frame(), Some(a));
}

#[test]
fn frame_arithmetic() {
    assert_eq!(BitmapMemoryTable::addr_to_pfn(0x1234_5678), 0x12345);
    assert_eq!(BitmapMemoryTable::pfn_to_addr(0x12345), 0x1234_5000);
    assert_eq!(BitmapMemoryTable::frame_to_index(130), 2);
    assert_eq!(BitmapMemoryTable::frame_to_offset(130), 2);
}

#[test]
fn no_usable_memory_gives_nothing() {
    let mut t = table(vec![]);
    assert_eq!(t.get_free_pfn(), None);
    assert_eq!(t.allocate_frame(), None);
}

#[test]
fn four_gib_leaves_a_million_free_frames() {
    let t = table(vec![Range { start: 0, end: 0x1_0000_0000 }]);
    let mut free = 0usize;
    for f in 0..FRAME_COUNT {
        if t.get_bit(f) {
            free += 1;
        }
    }
    assert_eq!(t.used_map.len() * 8, 512 * 1024);
    assert!(free >= 1_000_000);
    assert_eq!(free, 0x10_0000 - 128);
}

#[test]
fn end_stays_where_init_put_it() {
    let mut t = table(vec![Range { start: 0x10_0000, end: 0x20_0000 }]);
    assert_eq!(t.end, 0x180);
    t.set_range(&Range { start: 0x300_0000, end: 0x300_2000 });
    t.set_frame(0x5000, true);
    assert_eq!(t.end, 0x180);
    assert!(t.get_bit(0x3000) && t.get_bit(0x5000));
    while let Some(a) = t.allocate_frame() {
        assert!(a < 0x180 * 4096);
    }
    assert!(t.get_bit(0x3000));
}
