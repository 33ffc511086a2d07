use nel_os_vmm::amd::{setup_segments, AMDVCpu, AmdHostState};
use nel_os_vmm::controls::{capability_msr, setup_entry_controls, setup_exec_controls, setup_exit_controls};
use nel_os_vmm::graphics::FrameBuffer;
use nel_os_vmm::boot::{FrameBuffer as RawFrameBuffer, PixelFormat};
use nel_os_vmm::io::{is_known_command, IOBitmap, InitPhase, QualIo, ReadSel, PIC};
use nel_os_vmm::linux::{build_boot_params, BootParams, E820Entry, E820Type, LoadflagBitfield, SetupHeader};
use nel_os_vmm::memory::{BitmapMemoryTable, Range, UsableMemory};
use nel_os_vmm::platform::{dispatch_to_subscribers, get_ticks, subscribe, tick, unsubscribe, Subscriber, Subscribers, TickCounter};
use nel_os_vmm::regs::GuestRegisters;
use nel_os_vmm::segment::{DescriptorType, Granularity, Segment, SegmentRights};
use nel_os_vmm::vmx::{vmx_capture_status, Vmxon, VmxonInputs};

fn out(pic: &mut PIC, port: u64, value: u64) {
    let mut regs = GuestRegisters::new();
    regs.rax = value;
    pic.handle_io(&mut regs, QualIo { raw: port << 16 });
}

fn inb(pic: &mut PIC, port: u64) -> u64 {
    let mut regs = GuestRegisters::new();
    regs.rax = 0x55;
    pic.handle_io(&mut regs, QualIo { raw: (port << 16) | 0x8 });
    regs.rax
}

#[test]
fn pic_primary_initialises() {
    let mut pic = PIC::new();
    out(&mut pic, 0x20, 0x11);
    assert_eq!(pic.primary_phase, InitPhase::Phase1);
    out(&mut pic, 0x21, 0x20);
    out(&mut pic, 0x21, 0x04);
    out(&mut pic, 0x21, 0x01);
    assert_eq!(pic.primary_phase, InitPhase::Initialized);
    assert_eq!(pic.primary_base, 0x20);
    out(&mut pic, 0x21, 0xFB);
    assert_eq!(pic.primary_mask, 0xFB);
    assert_eq!(inb(&mut pic, 0x21), 0xFB);
}

#[test]
fn pic_secondary_and_read_select() {
    let mut pic = PIC::new();
    out(&mut pic, 0xA0, 0x11);
    out(&mut pic, 0xA1, 0x28);
    assert_eq!(pic.secondary_base, 0x28);
    assert_eq!(inb(&mut pic, 0xA1), 0x55);
    pic.secondary_isr = 0x0F;
    out(&mut pic, 0xA0, 0x0A);
    assert_eq!(pic.secondary_read_sel, ReadSel::ISR);
    assert_eq!(inb(&mut pic, 0xA0), 0x0F);
    out(&mut pic, 0xA0, 0x62);
    assert_eq!(pic.secondary_isr, 0x0B);
    out(&mut pic, 0xA0, 0x20);
    assert_eq!(pic.secondary_isr, 0);
}

#[test]
fn pic_known_commands() {
    assert!(is_known_command(0x11) && is_known_command(0x0A) && is_known_command(0x20) && is_known_command(0x67));
    assert!(!is_known_command(0x99) && !is_known_command(0x12) && !is_known_command(0x68));
}

#[test]
fn other_ports() {
    let mut pic = PIC::new();
    assert_eq!(inb(&mut pic, 0xCFC), 0);
    assert_eq!(inb(&mut pic, 0xC010), 0x55);
    assert_eq!(inb(&mut pic, 0x71), 0);
    assert_eq!(inb(&mut pic, 0x20), 0);
    out(&mut pic, 0xCF8, 0x8000_0000);
    assert_eq!(QualIo { raw: 0x3F8_0008 }.port(), 0x3F8);
    assert_eq!(QualIo { raw: 0x3F8_0008 }.direction(), 1);
}

#[test]
fn io_bitmap_passes_serial_and_timer() {
    let mut a = BitmapMemoryTable::init(&UsableMemory { ranges: vec![Range { start: 0x100_0000, end: 0x200_0000 }] });
    let mut m = IOBitmap::new(&mut a).unwrap();
    assert!(m.port_exits(0x3F8));
    m.setup();
    assert!(!m.port_exits(0x3F8));
    assert!(!m.port_exits(0x2F8));
    assert!(!m.port_exits(0x40));
    assert!(m.port_exits(0x20));
    assert!(m.port_exits(0x2F7));
    assert!(m.port_exits(0x48));
    assert!(m.port_exits(0xCF8));
    m.set_io_ports(0xC000, 0xCFFF);
    assert!(!m.port_exits(0xC123));
    assert!(m.port_exits(0xD000));
    m.set_io_ports(0xFFFF, 0xFFFF);
    assert!(!m.port_exits(0xFFFF));
}

fn rights() -> SegmentRights {
    SegmentRights {
        rw: true,
        executable: true,
        granularity: Granularity::KByte,
        db: true,
        ..SegmentRights::default()
    }
}

#[test]
fn segment_rights_pack_both_ways() {
    let cs = rights();
    assert_eq!(cs.to_amd_segment_attrib(), 0xC9B);
    assert_eq!(cs.to_intel_segment_rights().raw, 0xC09B);
    assert_eq!(SegmentRights::from_amd_segment_attrib(0xC9B), cs);
    assert_eq!(cs.to_intel_segment_rights().to_rights(), cs);
    let tr = SegmentRights { rw: true, executable: true, desc_type: DescriptorType::System, ..SegmentRights::default() };
    assert_eq!(tr.to_amd_segment_attrib(), 0x8B);
    let dpl3 = SegmentRights { dpl: 3, long: true, avl: true, ..SegmentRights::default() };
    assert_eq!(dpl3.to_amd_segment_attrib(), 0x3F1);
    assert_eq!(dpl3.to_intel_segment_rights().raw, 0x30F1);
}

#[test]
fn amd_setup() {
    let mut a = BitmapMemoryTable::init(&UsableMemory { ranges: vec![Range { start: 0x100_0000, end: 0x200_0000 }] });
    let mut v = AMDVCpu::new(&mut a).unwrap();
    v.setup(AmdHostState { efer: 0x1d01, cr0: 0x8000_0011, cr3: 0x1000, cr4: 0x20, cs_selector: 8 }, 0x4000);
    let c = &v.vmcb.raw;
    assert_eq!(c.control_area.intercept_vec1, 1 << 24);
    assert_eq!(c.control_area.intercept_vec2, 1);
    assert_eq!(c.control_area.guest_asid, 1);
    assert_eq!(c.state_save_area.rip, 0x4000);
    assert_eq!(c.state_save_area.rflags, 0x2);
    assert_eq!(c.state_save_area.cs.selector, 8);
    assert_eq!(c.state_save_area.cs.attrib, 0xA9B);
    assert_eq!(c.state_save_area.ldtr.base, 0xDEAD00);
    assert_eq!(c.state_save_area.ds.limit, u32::MAX);
    assert!(AMDVCpu::is_supported(0x4));
    assert!(!AMDVCpu::is_supported(0x0));
    assert_eq!(AMDVCpu::svme_efer(0x500), 0x1500);
    setup_segments(&mut v, 0x10);
    assert_eq!(v.get_segment(Segment::CS).selector, 0x10);
}

fn image(setup_sects: u8) -> Vec<u8> {
    let mut img = vec![0u8; 0x400];
    img[0x1F1] = setup_sects;
    img[0x202..0x206].copy_from_slice(b"HdrS");
    img[0x211] = 0x20;
    img
}

#[test]
fn setup_header_reads() {
    let h = SetupHeader::from_bytes(&image(0)).unwrap();
    assert_eq!(h.setup_sects(), 4);
    assert_eq!(h.get_protected_code_offset(), 5 * 512);
    assert!(h.loadflags().quiet_flag());
    let h = SetupHeader::from_bytes(&image(27)).unwrap();
    assert_eq!(h.get_protected_code_offset(), 28 * 512);
    assert!(SetupHeader::from_bytes(&vec![0u8; 0x26B]).is_err());
    assert!(SetupHeader::from_bytes(&vec![0u8; 0x26C]).is_ok());
}

#[test]
fn boot_params_layout() {
    let ranges = vec![Range { start: 0, end: 0x9_F000 }, Range { start: 0x10_0000, end: 0x1000_0000 }];
    let bp = build_boot_params(&image(4), &ranges, 0x1234).unwrap();
    let z = &bp.bytes;
    assert_eq!(z.len(), 4096);
    assert_eq!(&z[0x202..0x206], b"HdrS");
    assert_eq!(z[0x1F1], 4);
    assert_eq!(z[0x210], 0xFF);
    assert_eq!(z[0x211], 0x20 | 0xC1);
    assert_eq!(u32::from_le_bytes(z[0x218..0x21C].try_into().unwrap()), 0x0800_0000);
    assert_eq!(u32::from_le_bytes(z[0x21C..0x220].try_into().unwrap()), 0x1234);
    assert_eq!(u32::from_le_bytes(z[0x228..0x22C].try_into().unwrap()), 0x2_0000);
    assert_eq!(z[0x1E8], 2);
    assert_eq!(z[0x2D0 + 20 * 5 + 16], 1);
    assert_eq!(z[0x2D0 + 20 * 127 + 16], 1);
    assert_eq!(z[0x2D0 + 20 * 127 + 17], 0);
    let e1 = 0x2D0 + 20;
    assert_eq!(u64::from_le_bytes(z[e1..e1 + 8].try_into().unwrap()), 0x10_0000);
    assert_eq!(u64::from_le_bytes(z[e1 + 8..e1 + 16].try_into().unwrap()), 0xFF0_0000);
    assert_eq!(u32::from_le_bytes(z[e1 + 16..e1 + 20].try_into().unwrap()), 1);
    let too_many = vec![Range { start: 0, end: 0x1000 }; 129];
    assert!(build_boot_params(&image(4), &too_many, 0).is_err());
    assert!(BootParams::from_bytes(&vec![0u8; 16]).is_err());
}

#[test]
fn e820_and_loadflags() {
    let e = E820Entry::new(0x1000, 0x2000, E820Type::Acpi);
    assert_eq!((e.get_addr(), e.get_size()), (0x1000, 0x2000));
    assert_eq!(e.get_type(), Ok(E820Type::Acpi));
    let bad = E820Entry { addr: 0, size: 0, type_: 9 };
    assert!(bad.get_type().is_err());
    let mut f = LoadflagBitfield::new(true, false, false, true, false);
    assert_eq!(f.to_u8(), 0x41);
    f.set_can_use_heap(true);
    f.set_loaded_high(false);
    assert!(f.can_use_heap() && f.keep_segments() && !f.loaded_high() && !f.kaslr_flag());
    f.set_keep_segments(false);
    assert_eq!(f.to_u8(), 0x80);
}

#[test]
fn control_values() {
    let cap = (0xFFFF_FFFFu64 << 32) | 0x16;
    let e = setup_exec_controls(0x1, cap, 0x1000_0000, cap, 0, 0xFFFF_FFFF << 32);
    assert_eq!(e.pin, 0x16);
    assert_eq!(e.primary, 0x16 | (1 << 7) | (1 << 25) | (1 << 31));
    assert_eq!(e.secondary, 0x83);
    assert_eq!(setup_entry_controls(1 << 9, (0xFFFFu64 << 32) | 0x11FF), 0xD1FF & !(1 << 9));
    assert_eq!(setup_exit_controls(0, 0xFFFF_FFFFu64 << 32), 0x003C_0200);
    assert_eq!(capability_msr(1 << 55, 0x48D, 0x481), 0x48D);
    assert_eq!(capability_msr(0, 0x48D, 0x481), 0x481);
}

#[test]
fn vmx_status_and_requirements() {
    assert_eq!(vmx_capture_status(0x2), Ok(()));
    assert_eq!(vmx_capture_status(0x43), Err("VM fail valid"));
    assert_eq!(vmx_capture_status(0x3), Err("VM fail invalid"));
    let i = VmxonInputs {
        cr0: 0x8000_0021,
        cr4: 0x2020,
        feature_control: 0x5,
        cr0_fixed0: 0x8000_0021,
        cr0_fixed1: 0xFFFF_FFFF,
        cr4_fixed0: 0x2000,
        cr4_fixed1: 0x3F_FFFF,
    };
    assert!(Vmxon { frame: 0x5000 }.check_requirements(i));
    assert!(!Vmxon { frame: 0x5010 }.check_requirements(i));
    assert!(!Vmxon { frame: 0x5000 }.check_requirements(VmxonInputs { cr4: 0x20, ..i }));
    assert_eq!(Vmxon::adjust_feature_control_msr(0), Some(5));
    assert_eq!(Vmxon::adjust_feature_control_msr(1), None);
}

#[test]
fn subscribers_in_slot_order() {
    let mut s = Subscribers::new();
    subscribe(&mut s, 100, 1).unwrap();
    subscribe(&mut s, 200, 2).unwrap();
    subscribe(&mut s, 300, 3).unwrap();
    unsubscribe(&mut s, 200).unwrap();
    assert!(unsubscribe(&mut s, 200).is_err());
    subscribe(&mut s, 400, 4).unwrap();
    let d = dispatch_to_subscribers(&s);
    assert_eq!(
        d,
        vec![
            Subscriber { callback: 100, context: 1 },
            Subscriber { callback: 400, context: 4 },
            Subscriber { callback: 300, context: 3 }
        ]
    );
    for i in 0..7 {
        subscribe(&mut s, 500 + i, 0).unwrap();
    }
    assert!(subscribe(&mut s, 999, 0).is_err());
}

#[test]
fn ticks_count_and_wrap() {
    let mut c = TickCounter::new();
    tick(&mut c);
    tick(&mut c);
    assert_eq!(get_ticks(&c), 2);
    c.ticks = usize::MAX;
    tick(&mut c);
    assert_eq!(get_ticks(&c), 0);
}

#[test]
fn console_geometry_and_scrolling() {
    let raw = RawFrameBuffer { frame_buffer: 0x8000_0000, width: 800, height: 42, stride: 832, pixl_format: PixelFormat::Bgr };
    let mut fb = FrameBuffer::from_raw_buffer(&raw, (0, 0, 0));
    assert_eq!((fb.textscreen_width, fb.textscreen_height), (100, 3));
    assert_eq!(fb.pixel_index(10, 2), Some((2 * 832 + 10) * 4));
    assert_eq!(fb.pixel_index(800, 0), None);
    for line in ["a", "b", "c", "d"] {
        fb.add_text_line(line.chars().collect());
    }
    assert_eq!(fb.text_buffer, vec![vec!['b'], vec!['c'], vec!['d']]);
    fb.clear_text();
    assert!(fb.text_buffer.is_empty());
}

#[test]
fn vmcb_bytes_follow_the_amd_layout() {
    let mut a = BitmapMemoryTable::init(&UsableMemory { ranges: vec![Range { start: 0x100_0000, end: 0x200_0000 }] });
    let mut v = AMDVCpu::new(&mut a).unwrap();
    v.setup(AmdHostState { efer: 0x1d01, cr0: 0x8000_0011, cr3: 0x1000, cr4: 0x20, cs_selector: 8 }, 0x4000);
    let b = v.vmcb.to_bytes();
    assert_eq!(b.len(), 4096);
    assert_eq!(u32::from_le_bytes(b[0x00C..0x010].try_into().unwrap()), 1 << 24);
    assert_eq!(u32::from_le_bytes(b[0x010..0x014].try_into().unwrap()), 1);
    assert_eq!(u32::from_le_bytes(b[0x058..0x05C].try_into().unwrap()), 1);
    assert_eq!(u16::from_le_bytes(b[0x410..0x412].try_into().unwrap()), 8);
    assert_eq!(u16::from_le_bytes(b[0x412..0x414].try_into().unwrap()), 0xA9B);
    assert_eq!(u64::from_le_bytes(b[0x478..0x480].try_into().unwrap()), 0xDEAD00);
    assert_eq!(u64::from_le_bytes(b[0x4D0..0x4D8].try_into().unwrap()), 0x1d01);
    assert_eq!(u64::from_le_bytes(b[0x558..0x560].try_into().unwrap()), 0x8000_0011);
    assert_eq!(u64::from_le_bytes(b[0x578..0x580].try_into().unwrap()), 0x4000);
}

#[test]
fn amd_hlt_exit_steps_rip() {
    let mut a = BitmapMemoryTable::init(&UsableMemory { ranges: vec![Range { start: 0x100_0000, end: 0x200_0000 }] });
    let mut v = AMDVCpu::new(&mut a).unwrap();
    v.vmcb.raw.state_save_area.rip = 0x4000;
    v.handle_exit(0x78).unwrap();
    assert_eq!(v.vmcb.raw.state_save_area.rip, 0x4001);
    assert!(v.handle_exit(0x7F).is_err());
    assert_eq!(v.vmcb.raw.state_save_area.rip, 0x4001);
}
