use nel_os_vmm::ept::{EPT, EPTP};
use nel_os_vmm::memory::{BitmapMemoryTable, Range, UsableMemory};
use nel_os_vmm::paging::{init_page_table, translate_addr};

fn allocator() -> BitmapMemoryTable {
    BitmapMemoryTable::init(&UsableMemory { ranges: vec![Range { start: 0x100_0000, end: 0x200_0000 }] })
}

#[test]
fn ept_4k_mapping_translates() {
    let mut a = allocator();
    let mut ept = EPT::new(&mut a).unwrap();
    assert_eq!(ept.get_phys_addr(0x1234), None);
    ept.map_4k(0x10_0000, 0x5000_0000, &mut a).unwrap();
    assert_eq!(ept.get_phys_addr(0x10_0abc), Some(0x5000_0abc));
    assert_eq!(ept.get_phys_addr(0x10_1000), None);
}

#[test]
fn ept_remap_overwrites() {
    let mut a = allocator();
    let mut ept = EPT::new(&mut a).unwrap();
    ept.map_4k(0x2000, 0x7000_0000, &mut a).unwrap();
    ept.map_4k(0x2000, 0x8000_0000, &mut a).unwrap();
    assert_eq!(ept.get_phys_addr(0x2010), Some(0x8000_0010));
}

#[test]
fn ept_2m_mapping_translates() {
    let mut a = allocator();
    let mut ept = EPT::new(&mut a).unwrap();
    ept.map_2m(0x4000_0000, 0x6000_0000, &mut a).unwrap();
    assert_eq!(ept.get_phys_addr(0x4012_3456), Some(0x6012_3456));
    ept.map_4k(0x4000_0000, 0x9000_0000, &mut a).unwrap();
    assert_eq!(ept.get_phys_addr(0x4000_0123), Some(0x9000_0123));
    assert_eq!(ept.get_phys_addr(0x4012_3456), None);
}

#[test]
fn ept_separate_pages_keep_their_frames() {
    let mut a = allocator();
    let mut ept = EPT::new(&mut a).unwrap();
    ept.map_4k(0x0, 0x1_0000, &mut a).unwrap();
    ept.map_4k(0x1000, 0x3_0000, &mut a).unwrap();
    ept.map_4k(0x80_0000_0000, 0x5_0000, &mut a).unwrap();
    assert_eq!(ept.get_phys_addr(0x10), Some(0x1_0010));
    assert_eq!(ept.get_phys_addr(0x1010), Some(0x3_0010));
    assert_eq!(ept.get_phys_addr(0x80_0000_0010), Some(0x5_0010));
}

#[test]
fn ept_fails_without_frames() {
    let mut a = BitmapMemoryTable::init(&UsableMemory { ranges: vec![] });
    assert!(EPT::new(&mut a).is_err());
}

#[test]
fn eptp_fields() {
    let p = EPTP::init(0x12_3000);
    assert_eq!(p.typ(), 6);
    assert_eq!(p.level(), 3);
    assert_eq!(p.lv4_table(), 0x12_3000);
    assert_eq!(p.raw, 0x12_305e);
}

#[test]
fn host_tables_identity_map() {
    let mut a = allocator();
    let pt = init_page_table(&mut a).unwrap();
    for va in [0u64, 0x1000, 0x1234_5678, 0x40_0000_0000, 0x7F_FFFF_FFFF] {
        assert_eq!(translate_addr(&pt.tables, pt.cr3, va), Some(va));
    }
    assert_eq!(translate_addr(&pt.tables, pt.cr3, 0x80_0000_0000), None);
    assert_eq!(translate_addr(&pt.tables, 0xdead_0000, 0x1000), None);
}

#[test]
fn ept_host_range_follows_pages() {
    let mut a = allocator();
    let mut ept = EPT::new(&mut a).unwrap();
    ept.map_4k(0x1000, 0x7000, &mut a).unwrap();
    ept.map_4k(0x2000, 0x3000, &mut a).unwrap();
    let v = ept.host_range(0x1ffe, 0x2002).unwrap();
    assert_eq!(v, vec![0x7ffe, 0x7fff, 0x3000, 0x3001]);
    assert!(ept.host_range(0x2ffe, 0x3002).is_err());
    assert!(ept.host_range(0x2002, 0x2000).is_err());
    assert_eq!(ept.host_range(0x5000, 0x5000).unwrap(), vec![]);
}

#[test]
fn ept_unmapped_region_stays_unmapped() {
    let mut a = allocator();
    let mut ept = EPT::new(&mut a).unwrap();
    ept.map_4k(0x20_3000, 0x9000, &mut a).unwrap();
    assert_eq!(ept.get_phys_addr(0x20_3004), Some(0x9004));
    assert_eq!(ept.get_phys_addr(0x20_4000), None);
    assert_eq!(ept.get_phys_addr(0x20_0000), None);
}

#[test]
fn ept_failed_mapping_changes_nothing() {
    let mut a = BitmapMemoryTable::init(&UsableMemory { ranges: vec![Range { start: 0x100_0000, end: 0x108_2000 }] });
    let mut ept = EPT::new(&mut a).unwrap();
    assert!(ept.map_4k(0x1000, 0x5000, &mut a).is_err());
    assert_eq!(ept.lv3.addrs.len(), 0);
    assert!(ept.lv4.iter().all(|e| *e == 0));
    assert_eq!(a.allocate_frame(), None);
}

#[test]
fn host_tables_need_two_frames() {
    let mut a = BitmapMemoryTable::init(&UsableMemory { ranges: vec![Range { start: 0x100_0000, end: 0x108_1000 }] });
    assert!(init_page_table(&mut a).is_err());
    let mut b = allocator();
    let pt = init_page_table(&mut b).unwrap();
    assert_eq!(translate_addr(&pt.tables, pt.cr3, 0xFFFF_8000_0000_1000), None);
}
