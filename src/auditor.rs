//! Consistency checks on the VMCS control fields before VM entry, made on
//! values read from the VMCS and the capability MSRs.
use vstd::prelude::*;

verus! {

/// Bits 63:40.
pub const ABOVE_40: u64 = 0xFFFF_FF00_0000_0000;

/// Bits 63:40 clear: an address the checks accept.
pub open spec fn valid_phys(addr: u64) -> bool {
    addr & ABOVE_40 == 0
}

/// Bits 63:40 and 11:0 clear.
pub open spec fn valid_page_phys(addr: u64) -> bool {
    addr & (ABOVE_40 | 0xfff) == 0
}

pub fn is_valid_phys_addr(addr: u64) -> (r: bool)
    ensures
        r == valid_phys(addr),
{
    (addr & ABOVE_40) == 0
}

pub fn is_valid_page_aligned_phys_addr(addr: u64) -> (r: bool)
    ensures
        r == valid_page_phys(addr),
{
    (addr & (ABOVE_40 | 0xfff)) == 0
}

/// An EPT pointer the checks accept: memory type 0 or 6, a four-level
/// walk, bits 11:8 clear, and a valid address.
pub open spec fn valid_eptp(p: u64) -> bool {
    &&& (p & 0b111 == 0 || p & 0b111 == 6)
    &&& (p >> 3u64) & 0b111 == 3
    &&& p & 0xf00 == 0
    &&& valid_phys(p)
}

pub fn is_valid_ept_ptr(ept_ptr: u64) -> (r: Result<(), &'static str>)
    ensures
        r is Ok <==> valid_eptp(ept_ptr),
{
    let memory_type = ept_ptr & 0b111;
    if memory_type != 0 && memory_type != 6 {
        return Err("VMCS EPT pointer memory type is not valid (must be 0 or 6)");
    }
    let walk_length = (ept_ptr >> 3u64) & 0b111;
    if walk_length != 3 {
        return Err("VMCS EPT pointer walk length is not valid (must be 3)");
    }
    if ept_ptr & 0xf00 != 0 {
        return Err("VMCS EPT pointer reserved bits are not zero");
    }
    if !is_valid_phys_addr(ept_ptr) {
        return Err("VMCS EPT pointer is not a valid physical address");
    }
    Ok(())
}

/// A control field agrees with its capability MSR: every bit the low
/// dword requires is set, and the upper half of the field value has no bit
/// the high dword forbids.
pub open spec fn control_ok(ctrl: u64, cap: u64) -> bool {
    &&& !((ctrl & 0xFFFF_FFFF) as u32) & ((cap & 0xFFFF_FFFF) as u32) == 0
    &&& ((ctrl >> 32u64) as u32) & !((cap >> 32u64) as u32) == 0
}

fn check_control(ctrl: u64, cap: u64, low_msg: &'static str, high_msg: &'static str) -> (r: Result<(), &'static str>)
    ensures
        r is Ok <==> control_ok(ctrl, cap),
{
    let low = (cap & 0xFFFF_FFFF) as u32;
    let high = (cap >> 32u64) as u32;
    if !((ctrl & 0xFFFF_FFFF) as u32) & low != 0 {
        return Err(low_msg);
    }
    if ((ctrl >> 32u64) as u32) & !high != 0 {
        return Err(high_msg);
    }
    Ok(())
}

pub fn check_pin_based_exec_ctrl(ctrl: u64, cap: u64) -> (r: Result<(), &'static str>)
    ensures
        r is Ok <==> control_ok(ctrl, cap),
{
    check_control(
        ctrl,
        cap,
        "VMCS Pin-based execution controls field: IA32_VMX_PINBASED_CTRLS low bits not set",
        "VMCS Pin-based execution controls field: IA32_VMX_PINBASED_CTRLS high bits not zero",
    )
}

pub fn check_primary_proc_based_exec_ctrl(ctrl: u64, cap: u64) -> (r: Result<(), &'static str>)
    ensures
        r is Ok <==> control_ok(ctrl, cap),
{
    check_control(
        ctrl,
        cap,
        "VMCS Primary processor-based execution controls field: IA32_VMX_PROCBASED_CTRLS low bits not set",
        "VMCS Primary processor-based execution controls field: IA32_VMX_PROCBASED_CTRLS high bits not zero",
    )
}

pub fn check_secondary_proc_based_exec_ctrl(ctrl: u64, cap: u64) -> (r: Result<(), &'static str>)
    ensures
        r is Ok <==> control_ok(ctrl, cap),
{
    check_control(
        ctrl,
        cap,
        "VMCS Secondary processor-based execution controls field: IA32_VMX_PROCBASED_CTRLS2 low bits not set",
        "VMCS Secondary processor-based execution controls field: IA32_VMX_PROCBASED_CTRLS2 high bits not zero",
    )
}

/// The VMCS fields and capability MSRs the checks read.
#[derive(Clone, Copy)]
pub struct ControlSnapshot {
    pub pin: u64,
    pub pin_cap: u64,
    pub primary: u64,
    pub primary_cap: u64,
    pub secondary: u64,
    /// IA32_VMX_PROCBASED_CTLS2 where IA32_VMX_BASIC bit 55 is set, else 0.
    pub secondary_cap: u64,
    pub cr3_target_count: u64,
    pub io_bitmap_a: u64,
    pub io_bitmap_b: u64,
    pub msr_bitmap: u64,
    pub eptp: u64,
    pub virt_apic_addr: u64,
    pub virt_exception_info: u64,
    pub vmread_bitmap: u64,
    pub vmwrite_bitmap: u64,
}

pub open spec fn bit(v: u64, b: u64) -> bool {
    v & (1u64 << b) != 0
}

/// Whether all checks pass.
pub open spec fn controls_consistent(s: ControlSnapshot) -> bool {
    &&& control_ok(s.pin, s.pin_cap)
    &&& control_ok(s.primary, s.primary_cap)
    &&& (bit(s.primary, 31) ==> control_ok(s.secondary, s.secondary_cap))
    &&& s.cr3_target_count <= 4
    &&& valid_page_phys(s.io_bitmap_a) && valid_page_phys(s.io_bitmap_b)
    &&& valid_page_phys(s.msr_bitmap)
    &&& !(!bit(s.pin, 3) && bit(s.pin, 5))
    &&& !(!bit(s.pin, 5) && bit(s.primary, 22))
    &&& (bit(s.secondary, 14) ==> valid_page_phys(s.vmread_bitmap) && valid_page_phys(s.vmwrite_bitmap))
    &&& (bit(s.secondary, 18) ==> !valid_page_phys(s.virt_exception_info))
    &&& (bit(s.primary, 21) ==> valid_page_phys(s.virt_apic_addr) && (bit(s.secondary, 9) || bit(s.pin, 0)))
    &&& (!bit(s.primary, 21) ==> !(bit(s.secondary, 4) || bit(s.secondary, 8) || bit(s.secondary, 9)))
    &&& (bit(s.secondary, 1) ==> valid_eptp(s.eptp))
    &&& (!bit(s.secondary, 1) ==> !bit(s.secondary, 7) && !bit(s.secondary, 22))
}

/// At most four CR3-target values.
pub fn check_cr3_target(count: u64) -> (r: Result<(), &'static str>)
    ensures
        r is Ok <==> count <= 4,
{
    if count > 4 {
        return Err("VMCS CR3-target count field is greater than 4");
    }
    Ok(())
}

pub fn check_io_bitmap(a: u64, b: u64) -> (r: Result<(), &'static str>)
    ensures
        r is Ok <==> valid_page_phys(a) && valid_page_phys(b),
{
    if !is_valid_page_aligned_phys_addr(a) {
        return Err("VMCS IO bitmap A address is not a valid page-aligned physical address");
    }
    if !is_valid_page_aligned_phys_addr(b) {
        return Err("VMCS IO bitmap B address is not a valid page-aligned physical address");
    }
    Ok(())
}

pub fn check_msr_bitmap(addr: u64) -> (r: Result<(), &'static str>)
    ensures
        r is Ok <==> valid_page_phys(addr),
{
    if !is_valid_page_aligned_phys_addr(addr) {
        return Err("VMCS MSR bitmap address is not a valid page-aligned physical address");
    }
    Ok(())
}

/// Virtual NMIs need NMI exiting; NMI-window exiting needs virtual NMIs.
pub fn check_nmi(pin: u64, primary: u64) -> (r: Result<(), &'static str>)
    ensures
        r is Ok <==> !(!bit(pin, 3) && bit(pin, 5)) && !(!bit(pin, 5) && bit(primary, 22)),
{
    if pin & (1u64 << 3u64) == 0 && pin & (1u64 << 5u64) != 0 {
        return Err("VMCS Pin-based execution controls field: NMI exiting and virtual NMI are both set");
    }
    if pin & (1u64 << 5u64) == 0 && primary & (1u64 << 22u64) != 0 {
        return Err("VMCS Pin-based execution controls field: Interrupt-window exiting and virtual NMI are both not set");
    }
    Ok(())
}

pub fn check_vmcs_shadowing(secondary: u64, vmread_bitmap: u64, vmwrite_bitmap: u64) -> (r: Result<(), &'static str>)
    ensures
        r is Ok <==> (bit(secondary, 14) ==> valid_page_phys(vmread_bitmap) && valid_page_phys(vmwrite_bitmap)),
{
    if secondary & (1u64 << 14u64) == 0 {
        return Ok(());
    }
    if !is_valid_page_aligned_phys_addr(vmread_bitmap) {
        return Err("VMCS VMREAD bitmap address is not a valid page-aligned physical address");
    }
    if !is_valid_page_aligned_phys_addr(vmwrite_bitmap) {
        return Err("VMCS VMWRITE bitmap address is not a valid page-aligned physical address");
    }
    Ok(())
}

/// With EPT-violation #VE enabled, refuses an exception-information
/// address that passes the page-aligned check.
pub fn check_ept_violation_exception_info(secondary: u64, info: u64) -> (r: Result<(), &'static str>)
    ensures
        r is Ok <==> (bit(secondary, 18) ==> !valid_page_phys(info)),
{
    if secondary & (1u64 << 18u64) != 0 {
        if is_valid_page_aligned_phys_addr(info) {
            return Err("VMCS EPT violation exception info address is not a valid page-aligned physical address");
        }
    }
    Ok(())
}

/// The TPR shadow needs a valid virtual-APIC page, and external-interrupt
/// exiting unless virtual-interrupt delivery is on; without it, no APIC
/// virtualisation may be on.
pub fn check_interrupt(primary: u64, secondary: u64, pin: u64, virt_apic_addr: u64) -> (r: Result<(), &'static str>)
    ensures
        r is Ok <==> ((bit(primary, 21) ==> valid_page_phys(virt_apic_addr) && (bit(secondary, 9) || bit(pin, 0)))
            && (!bit(primary, 21) ==> !(bit(secondary, 4) || bit(secondary, 8) || bit(secondary, 9)))),
{
    if primary & (1u64 << 21u64) != 0 {
        if !is_valid_page_aligned_phys_addr(virt_apic_addr) {
            return Err("VMCS virtual APIC page address is not a valid page-aligned physical address");
        }
        if secondary & (1u64 << 9u64) == 0 {
            if pin & (1u64 << 0u64) == 0 {
                return Err("VMCS Pin-based execution controls field: External interrupt exiting is not set while virtual interrupt delivery is set");
            }
        }
    } else {
        if secondary & (1u64 << 4u64) != 0 || secondary & (1u64 << 8u64) != 0 || secondary & (1u64 << 9u64) != 0 {
            return Err("VMCS Primary processor-based execution controls field: Use TPR shadow is not set while virtualize x2APIC mode, APIC register virtualization, or virtual interrupt delivery is set");
        }
    }
    Ok(())
}

/// EPT on needs a valid EPT pointer; EPT off forbids unrestricted guest and
/// mode-based execute control.
pub fn check_ept(secondary: u64, eptp: u64) -> (r: Result<(), &'static str>)
    ensures
        r is Ok <==> ((bit(secondary, 1) ==> valid_eptp(eptp)) && (!bit(secondary, 1) ==> !bit(secondary, 7)
            && !bit(secondary, 22))),
{
    if secondary & (1u64 << 1u64) != 0 {
        is_valid_ept_ptr(eptp)
    } else {
        if secondary & (1u64 << 7u64) != 0 {
            return Err("VMCS Secondary processor-based execution controls field: EPT is not set while unrestricted guest is set");
        }
        if secondary & (1u64 << 22u64) != 0 {
            return Err("VMCS Secondary processor-based execution controls field: EPT is not set while mode-based control for EPT is set");
        }
        Ok(())
    }
}

/// Runs every check, stopping at the first that fails.
pub fn check_vmcs_control_fields(s: &ControlSnapshot) -> (r: Result<(), &'static str>)
    ensures
        r is Ok <==> controls_consistent(*s),
{
    let r = check_pin_based_exec_ctrl(s.pin, s.pin_cap);
    if r.is_err() {
        return r;
    }
    let r = check_primary_proc_based_exec_ctrl(s.primary, s.primary_cap);
    if r.is_err() {
        return r;
    }
    if s.primary & (1u64 << 31u64) != 0 {
        let r = check_secondary_proc_based_exec_ctrl(s.secondary, s.secondary_cap);
        if r.is_err() {
            return r;
        }
    }
    let r = check_cr3_target(s.cr3_target_count);
    if r.is_err() {
        return r;
    }
    let r = check_io_bitmap(s.io_bitmap_a, s.io_bitmap_b);
    if r.is_err() {
        return r;
    }
    let r = check_msr_bitmap(s.msr_bitmap);
    if r.is_err() {
        return r;
    }
    let r = check_nmi(s.pin, s.primary);
    if r.is_err() {
        return r;
    }
    let r = check_vmcs_shadowing(s.secondary, s.vmread_bitmap, s.vmwrite_bitmap);
    if r.is_err() {
        return r;
    }
    let r = check_ept_violation_exception_info(s.secondary, s.virt_exception_info);
    if r.is_err() {
        return r;
    }
    let r = check_interrupt(s.primary, s.secondary, s.pin, s.virt_apic_addr);
    if r.is_err() {
        return r;
    }
    check_ept(s.secondary, s.eptp)
}

} // verus!
