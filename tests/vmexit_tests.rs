use nel_os_vmm::auditor::{check_vmcs_control_fields, ControlSnapshot};
use nel_os_vmm::cpuid::{emulate_cpuid, handle_cpuid_vmexit, CpuidResult, VmxLeaf};
use nel_os_vmm::cr::{adjust_cr0, handle_cr_access, update_ia32e, CrState, FixedBits, QualCr, Register};
use nel_os_vmm::err::InstructionError;
use nel_os_vmm::memory::{BitmapMemoryTable, Range, UsableMemory};
use nel_os_vmm::msr::{register_msrs, HostMsrValues, MsrError, ShadowMsr};
use nel_os_vmm::regs::GuestRegisters;
use nel_os_vmm::vcpu::{ExitInfo, GuestVmcs, IntelVCpu, VmxExitReason};

fn host() -> CpuidResult {
    CpuidResult { eax: 0x906ea, ebx: 0x100800, ecx: 0xffff_ffff, edx: 0xbfeb_fbff }
}

fn vendor_string(regs: &GuestRegisters) -> Vec<u8> {
    let mut v = Vec::new();
    for r in [regs.rbx, regs.rdx, regs.rcx] {
        v.extend_from_slice(&(r as u32).to_le_bytes());
    }
    v
}

#[test]
fn cpuid_leaf0_spells_vendor() {
    let mut regs = GuestRegisters::new();
    emulate_cpuid(&mut regs, host(), host()).unwrap();
    assert_eq!(regs.rax, 0x20);
    assert_eq!(vendor_string(&regs), b"miHypervisor".to_vec());
}

#[test]
fn cpuid_leaf1_hides_vmx() {
    let mut regs = GuestRegisters::new();
    regs.rax = 1;
    emulate_cpuid(&mut regs, host(), host()).unwrap();
    assert_eq!(regs.rcx & (1 << 5), 0);
    assert_eq!(regs.rcx & (1 << 31), 0);
    assert_ne!(regs.rcx & (1 << 26), 0);
    assert_eq!(regs.rax, 0x906ea);
    assert_eq!(regs.rdx, 0x0742_a96f);
}

#[test]
fn cpuid_high_leaves_are_zero() {
    for leaf in [0x8000_0005u64, 0x8000_0008, 0x4000_0000] {
        let mut regs = GuestRegisters::new();
        regs.rax = leaf;
        regs.rbx = 7;
        emulate_cpuid(&mut regs, host(), host()).unwrap();
        assert_eq!((regs.rax, regs.rbx, regs.rcx, regs.rdx), (0, 0, 0, 0));
    }
}

#[test]
fn cpuid_brand_string() {
    let mut s = Vec::new();
    for leaf in [0x8000_0002u64, 0x8000_0003, 0x8000_0004] {
        let mut regs = GuestRegisters::new();
        regs.rax = leaf;
        emulate_cpuid(&mut regs, host(), host()).unwrap();
        for r in [regs.rax, regs.rbx, regs.rcx, regs.rdx] {
            s.extend_from_slice(&(r as u32).to_le_bytes());
        }
    }
    assert!(s.starts_with(b"mii Hypervisor CPU on Intel VT-x"));
    assert_eq!(s[47], 0);
}

#[test]
fn cpuid_leaf7_high_subleaf_fails() {
    let mut regs = GuestRegisters::new();
    regs.rax = 7;
    regs.rcx = 3;
    assert!(emulate_cpuid(&mut regs, host(), host()).is_err());
    assert_eq!(regs.rax, 7);
    regs.rcx = 0;
    emulate_cpuid(&mut regs, host(), host()).unwrap();
    assert_eq!(regs.rbx, (1 << 7) | (1 << 20));
}

#[test]
fn cpuid_leaf_numbers() {
    assert_eq!(VmxLeaf::from(0xD), VmxLeaf::ExtendedEnumeration);
    assert_eq!(VmxLeaf::from(0x8000_0004), VmxLeaf::ExtendedFeature4);
    assert_eq!(VmxLeaf::from(2), VmxLeaf::Unknown);
}

#[test]
fn host_cpuid_reports_a_vendor() {
    assert!(nel_os_vmm::platform::is_intel() || nel_os_vmm::platform::is_amd());
    let mut regs = GuestRegisters::new();
    handle_cpuid_vmexit(&mut regs).unwrap();
    assert_eq!(vendor_string(&regs), b"miHypervisor".to_vec());
}

fn msr_areas() -> (ShadowMsr, ShadowMsr) {
    let mut h = ShadowMsr::new();
    let mut g = ShadowMsr::new();
    let v = HostMsrValues { tsc_aux: 1, star: 2, lstar: 3, cstar: 4, fmask: 5, kernel_gsbase: 6 };
    register_msrs(&mut h, &mut g, v);
    (h, g)
}

#[test]
fn msr_registration() {
    let (h, g) = msr_areas();
    assert_eq!(h.saved_ents().len(), 6);
    assert_eq!(g.saved_ents().len(), 9);
    assert_eq!(h.find(0xc000_0082).unwrap().data, 3);
    assert_eq!(g.find(0xc000_0082).unwrap().data, 0);
    assert!(g.find(0x10).is_none());
}

#[test]
fn msr_feature_control_reads_five() {
    let (_, g) = msr_areas();
    let mut regs = GuestRegisters::new();
    regs.rcx = 0x3a;
    regs.rax = 0xdead;
    ShadowMsr::handle_read_msr_vmexit(&mut regs, &g, 0x1234).unwrap();
    assert_eq!((regs.rax, regs.rdx), (5, 0));
}

#[test]
fn msr_shadow_round_trip() {
    let (_, mut g) = msr_areas();
    let mut regs = GuestRegisters::new();
    regs.rcx = 0xc000_0082;
    regs.rdx = 0xffff_ffff_8000_0000;
    regs.rax = 0x1234_5678_0000_1000;
    assert_eq!(ShadowMsr::handle_wrmsr_vmexit(&regs, &mut g), Ok(None));
    let mut r2 = GuestRegisters::new();
    r2.rcx = 0xc000_0082;
    ShadowMsr::handle_read_msr_vmexit(&mut r2, &g, 0).unwrap();
    assert_eq!((r2.rdx, r2.rax), (0x8000_0000, 0x1000));
}

#[test]
fn msr_efer_write_filter() {
    let (_, mut g) = msr_areas();
    let mut regs = GuestRegisters::new();
    regs.rcx = 0xc000_0080;
    regs.rax = 0xd01;
    assert_eq!(ShadowMsr::handle_wrmsr_vmexit(&regs, &mut g), Ok(Some((0x2806, 0xd01))));
    regs.rax = 0x500;
    assert_eq!(ShadowMsr::handle_wrmsr_vmexit(&regs, &mut g), Ok(None));
}

#[test]
fn msr_errors() {
    let (_, mut g) = msr_areas();
    let mut regs = GuestRegisters::new();
    regs.rcx = 0x9999;
    assert_eq!(ShadowMsr::handle_read_msr_vmexit(&mut regs, &g, 0), Err(MsrError::Unhandled));
    assert_eq!(ShadowMsr::handle_wrmsr_vmexit(&regs, &mut g), Err(MsrError::Unhandled));
    regs.rcx = 0xda0;
    assert_eq!(ShadowMsr::handle_wrmsr_vmexit(&regs, &mut g), Err(MsrError::NotShadowed));
    let empty = ShadowMsr::new();
    regs.rcx = 0xc000_0081;
    assert_eq!(ShadowMsr::handle_read_msr_vmexit(&mut regs, &empty, 0), Err(MsrError::NotShadowed));
}

#[test]
fn msr_area_is_capped() {
    let mut m = ShadowMsr::new();
    for i in 0..512u32 {
        m.set(i, i as u64).unwrap();
    }
    assert_eq!(m.set(600, 1), Err(MsrError::TooManyEntries));
    m.set(5, 99).unwrap();
    assert_eq!(m.find(5).unwrap().data, 99);
    assert_eq!(m.saved_ents().len(), 512);
}

#[test]
fn msr_concat_and_return() {
    assert_eq!(ShadowMsr::concat(0xaaaa_bbbb_1111_2222, 0xcccc_dddd_3333_4444), 0x1111_2222_3333_4444);
    let mut regs = GuestRegisters::new();
    ShadowMsr::set_ret_val(&mut regs, 0x1122_3344_5566_7788);
    assert_eq!((regs.rdx, regs.rax), (0x1122_3344, 0x5566_7788));
}

fn fixed() -> FixedBits {
    FixedBits { cr0_fixed0: 0x21, cr0_fixed1: 0xffff_ffff, cr4_fixed0: 0x2000, cr4_fixed1: 0x3f_ffff }
}

fn cr_state() -> CrState {
    CrState {
        cr0: 0x31,
        cr3: 0x5000,
        cr4: 0x2000,
        cr0_read_shadow: 0,
        cr4_read_shadow: 0,
        rsp: 0x7000,
        efer: 0,
        entry_controls: 0,
        ia32e_enabled: false,
    }
}

#[test]
fn cr_mov_to_cr0_adjusts_and_shadows() {
    let mut regs = GuestRegisters::new();
    regs.rbx = 0x8000_0001;
    let mut s = cr_state();
    // MOV CR0, RBX: index 0, access 0, register 3.
    handle_cr_access(&mut regs, &mut s, fixed(), &QualCr { raw: 0x300 }).unwrap();
    assert_eq!(s.cr0, 0x8000_0021);
    assert_eq!(s.cr0_read_shadow, 0x8000_0001);
    assert!(!s.ia32e_enabled);
    assert_eq!(adjust_cr0(0x8000_0001, fixed()), 0x8000_0021);
}

#[test]
fn cr_long_mode_sets_entry_control() {
    let mut s = cr_state();
    s.cr0 = 0x8000_0031;
    s.cr4 = 0x2020;
    s.efer = 0x500;
    update_ia32e(&mut s);
    assert!(s.ia32e_enabled);
    assert_eq!(s.entry_controls, 1 << 9);
    assert_eq!(s.efer, 0x500);
}

#[test]
fn cr_mov_from_cr3() {
    let mut regs = GuestRegisters::new();
    let mut s = cr_state();
    // MOV R9, CR3: index 3, access 1, register 9.
    handle_cr_access(&mut regs, &mut s, fixed(), &QualCr { raw: 0x913 }).unwrap();
    assert_eq!(regs.r9, 0x5000);
    // MOV RSP, CR3 goes to the VMCS field.
    handle_cr_access(&mut regs, &mut s, fixed(), &QualCr { raw: 0x413 }).unwrap();
    assert_eq!(s.rsp, 0x5000);
    assert_eq!(QualCr { raw: 0x913 }.register(), Register::R9);
}

#[test]
fn cr_unsupported_accesses_fail() {
    let mut regs = GuestRegisters::new();
    let mut s = cr_state();
    assert!(handle_cr_access(&mut regs, &mut s, fixed(), &QualCr { raw: 0x3 }).is_err());
    assert!(handle_cr_access(&mut regs, &mut s, fixed(), &QualCr { raw: 0x20 }).is_err());
    assert!(handle_cr_access(&mut regs, &mut s, fixed(), &QualCr { raw: 0x11 }).is_err());
    assert_eq!(s.cr0, 0x31);
}

fn vcpu() -> (IntelVCpu, BitmapMemoryTable) {
    let mut a = BitmapMemoryTable::init(&UsableMemory { ranges: vec![Range { start: 0x100_0000, end: 0x200_0000 }] });
    let v = IntelVCpu::new(&mut a, fixed()).unwrap();
    (v, a)
}

fn guest() -> GuestVmcs {
    GuestVmcs { rip: 0x10_0000, cr: cr_state(), fs_base: 0, gs_base: 0, sysenter_cs: 0, sysenter_esp: 0, sysenter_eip: 0 }
}

#[test]
fn hlt_exit_advances_rip() {
    let (mut v, _a) = vcpu();
    let mut g = guest();
    let exit = ExitInfo { reason: 12, qualification: 0, instruction_len: 1, tsc: 0 };
    v.vmexit_handler(&mut g, exit).unwrap();
    assert_eq!(g.rip, 0x10_0001);
    assert_eq!(VmxExitReason::from_basic(12), VmxExitReason::Hlt);
}

#[test]
fn cpuid_exit_returns_vendor() {
    let (mut v, _a) = vcpu();
    let mut g = guest();
    let exit = ExitInfo { reason: 10, qualification: 0, instruction_len: 2, tsc: 0 };
    v.vmexit_handler(&mut g, exit).unwrap();
    assert_eq!(vendor_string(&v.guest_registers), b"miHypervisor".to_vec());
    assert_eq!(g.rip, 0x10_0002);
}

#[test]
fn rdmsr_exit_reads_guest_field_and_tsc() {
    let (mut v, _a) = vcpu();
    let mut g = guest();
    g.fs_base = 0x1_2345_6789;
    v.guest_registers.rcx = 0xc000_0100;
    let exit = ExitInfo { reason: 31, qualification: 0, instruction_len: 2, tsc: 77 };
    v.vmexit_handler(&mut g, exit).unwrap();
    assert_eq!((v.guest_registers.rdx, v.guest_registers.rax), (1, 0x2345_6789));
    v.guest_registers.rcx = 0x10;
    v.vmexit_handler(&mut g, exit).unwrap();
    assert_eq!(v.guest_registers.rax, 77);
    assert_eq!(g.rip, 0x10_0004);
}

#[test]
fn wrmsr_exit_writes_guest_field() {
    let (mut v, _a) = vcpu();
    let mut g = guest();
    v.guest_registers.rcx = 0x176;
    v.guest_registers.rdx = 0x1;
    v.guest_registers.rax = 0x2;
    let exit = ExitInfo { reason: 32, qualification: 0, instruction_len: 2, tsc: 0 };
    v.vmexit_handler(&mut g, exit).unwrap();
    assert_eq!(g.sysenter_eip, 0x1_0000_0002);
}

#[test]
fn pic_init_through_exits() {
    let (mut v, _a) = vcpu();
    let mut g = guest();
    for (port, value) in [(0x20u64, 0x11u64), (0x21, 0x20), (0x21, 0x04), (0x21, 0x01)] {
        v.guest_registers.rax = value;
        let exit = ExitInfo { reason: 30, qualification: port << 16, instruction_len: 1, tsc: 0 };
        v.vmexit_handler(&mut g, exit).unwrap();
    }
    assert_eq!(v.pic.primary_phase, nel_os_vmm::io::InitPhase::Initialized);
    assert_eq!(v.pic.primary_base, 0x20);
    assert_eq!(g.rip, 0x10_0004);
}

#[test]
fn unknown_pic_command_is_fatal() {
    let (mut v, _a) = vcpu();
    let mut g = guest();
    v.guest_registers.rax = 0x99;
    let exit = ExitInfo { reason: 30, qualification: 0x20 << 16, instruction_len: 1, tsc: 0 };
    assert!(v.vmexit_handler(&mut g, exit).is_err());
    assert_eq!(g.rip, 0x10_0000);
    assert_eq!(v.pic.primary_phase, nel_os_vmm::io::InitPhase::Uninitialized);
}

#[test]
fn fatal_exits() {
    let (mut v, _a) = vcpu();
    let mut g = guest();
    for reason in [0u32, 2, 48, 1, 0x8000_0021] {
        let exit = ExitInfo { reason, qualification: 0, instruction_len: 1, tsc: 0 };
        assert!(v.vmexit_handler(&mut g, exit).is_err());
    }
    assert_eq!(g.rip, 0x10_0000);
}

#[test]
fn vmentry_outcomes() {
    let (mut v, _a) = vcpu();
    assert_eq!(v.vmentry(false, 7), Err("Invalid control fields for VMENTRY"));
    assert!(!v.launch_done);
    assert_eq!(v.vmentry(true, 0), Ok(()));
    assert!(v.launch_done);
    assert_eq!(v.vmentry(false, 0), Err("VM entry failed"));
    assert_eq!(v.vmentry(false, 14), Err("Unknown instruction error"));
    assert_eq!(InstructionError::read(28).unwrap().to_str(), "Invalid INVEPT operation");
    assert_eq!(InstructionError::read(8).unwrap().number(), 8);
}

#[test]
fn vcpu_support_and_size() {
    let (v, _a) = vcpu();
    assert_eq!(v.get_guest_memory_size(), 256 * 1024 * 1024);
    assert!(IntelVCpu::is_supported(0x20, 0x5));
    assert!(!IntelVCpu::is_supported(0x0, 0x5));
    assert!(!IntelVCpu::is_supported(0x20, 0x1));
    assert!(IntelVCpu::is_supported(0x20, 0x0));
}

#[test]
fn guest_memory_gets_mapped() {
    let mut a = BitmapMemoryTable::init(&UsableMemory { ranges: vec![Range { start: 0x100_0000, end: 0x400_0000 }] });
    let mut v = IntelVCpu::new(&mut a, fixed()).unwrap();
    v.guest_memory_size = 0x40_0000;
    v.init_guest_memory(&mut a).unwrap();
    assert!(v.ept.get_phys_addr(0).is_some());
    assert!(v.ept.get_phys_addr(0x3F_F123).is_some());
    assert!(v.ept.get_phys_addr(0x40_0000).is_none());
}

#[test]
fn guest_state_enters_linux_protected_mode() {
    let mut regs = GuestRegisters::new();
    let writes = nel_os_vmm::guest::setup_guest_state(&mut regs, 0x20);
    assert_eq!(regs.rsi, 0x10000);
    let get = |f: u32| writes.iter().find(|w| w.0 == f).map(|w| w.1);
    assert_eq!(get(0x681E), Some(0x10_0000));
    assert_eq!(get(0x6800), Some(0x31));
    assert_eq!(get(0x6804), Some(0x2000));
    assert_eq!(get(0x6820), Some(0x2));
    assert_eq!(get(0x2800), Some(u64::MAX));
    assert_eq!(get(0x4816), Some(0xC09B));
    assert_eq!(get(0x4802), Some(0xFFFF_FFFF));
}

#[test]
fn host_rip_is_the_exit_handler() {
    let h = nel_os_vmm::guest::HostState {
        cr0: 1,
        cr3: 2,
        cr4: 3,
        exit_handler: 0xffff_8000_1234_5678,
        stack_top: 0x9000,
        es: 0x10,
        cs: 0x8,
        ss: 0x10,
        ds: 0x10,
        fs: 0,
        gs: 0,
        tr: 0x28,
        fs_base: 0,
        gs_base: 0,
        gdtr_base: 0x5000,
        idtr_base: 0x6000,
        efer: 0xd01,
    };
    let writes = nel_os_vmm::guest::setup_host_state(&h);
    assert!(writes.contains(&(0x6C16, 0xffff_8000_1234_5678)));
    assert!(writes.contains(&(0x6C14, 0x9000)));
    assert!(writes.contains(&(0x6C0A, 0)));
    assert_eq!(writes.len(), 18);
}

#[test]
fn xcr0_rules() {
    let (mut v, _a) = vcpu();
    assert!(nel_os_vmm::fpu::set_xcr(&mut v, 0, 0x7).is_ok());
    assert_eq!(v.guest_xcr0, 0x7);
    assert!(nel_os_vmm::fpu::set_xcr(&mut v, 1, 0x7).is_err());
    assert!(nel_os_vmm::fpu::set_xcr(&mut v, 0, 0x6).is_err());
    assert!(nel_os_vmm::fpu::set_xcr(&mut v, 0, 0x5).is_err());
    assert!(nel_os_vmm::fpu::set_xcr(&mut v, 0, 0x19).is_err());
    assert!(nel_os_vmm::fpu::set_xcr(&mut v, 0, 0x27).is_err());
    assert!(nel_os_vmm::fpu::set_xcr(&mut v, 0, 0xE7).is_ok());
    assert_eq!(v.guest_xcr0, 0xE7);
}

#[test]
fn control_audit() {
    let ok = ControlSnapshot {
        pin: 0x16,
        pin_cap: 0xFFFF_FFFF_0000_0016,
        primary: 0x8200_0096,
        primary_cap: 0xFFFF_FFFF_0000_0016,
        secondary: 0x83,
        secondary_cap: 0xFFFF_FFFF_0000_0000,
        cr3_target_count: 0,
        io_bitmap_a: 0x1000,
        io_bitmap_b: 0x2000,
        msr_bitmap: 0,
        eptp: 0x5_005e,
        virt_apic_addr: 0,
        virt_exception_info: 0,
        vmread_bitmap: 0,
        vmwrite_bitmap: 0,
    };
    assert_eq!(check_vmcs_control_fields(&ok), Ok(()));
    assert!(check_vmcs_control_fields(&ControlSnapshot { pin: 0x6, ..ok }).is_err());
    assert!(check_vmcs_control_fields(&ControlSnapshot { cr3_target_count: 5, ..ok }).is_err());
    assert!(check_vmcs_control_fields(&ControlSnapshot { io_bitmap_a: 0x1001, ..ok }).is_err());
    assert!(check_vmcs_control_fields(&ControlSnapshot { eptp: 0x5_0050, ..ok }).is_err());
    assert!(check_vmcs_control_fields(&ControlSnapshot { secondary: 0x80, ..ok }).is_err());
}

#[test]
fn host_msr_refresh() {
    let (mut h, g) = msr_areas();
    let values = vec![10, 20, 30, 40, 50, 60];
    let (hc, gc) = nel_os_vmm::msr::update_msrs(&mut h, &g, &values);
    assert_eq!((hc, gc), (6, 9));
    assert_eq!(h.find(0xc000_0084).unwrap().data, 50);
    assert_eq!(h.saved_ents()[0].index, 0xc000_0103);
}
