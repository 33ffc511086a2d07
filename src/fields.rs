//! VMCS field encodings and MSR indices (Intel SDM Vol. 3C, Appendix B and
//! Vol. 4) that the hypervisor reads and writes.
use vstd::prelude::*;

verus! {

pub const GUEST_LINK_PTR: u32 = 0x2800;
pub const GUEST_IA32_EFER: u32 = 0x2806;
pub const GUEST_IA32_SYSENTER_CS: u32 = 0x482A;
pub const GUEST_CR0: u32 = 0x6800;
pub const GUEST_CR3: u32 = 0x6802;
pub const GUEST_CR4: u32 = 0x6804;
pub const GUEST_FS_BASE: u32 = 0x680E;
pub const GUEST_GS_BASE: u32 = 0x6810;
pub const GUEST_RSP: u32 = 0x681C;
pub const GUEST_RIP: u32 = 0x681E;
pub const GUEST_RFLAGS: u32 = 0x6820;
pub const GUEST_IA32_SYSENTER_ESP: u32 = 0x6824;
pub const GUEST_IA32_SYSENTER_EIP: u32 = 0x6826;
pub const CR0_GUEST_HOST_MASK: u32 = 0x6000;
pub const CR4_GUEST_HOST_MASK: u32 = 0x6002;
pub const CR0_READ_SHADOW: u32 = 0x6004;
pub const CR4_READ_SHADOW: u32 = 0x6006;
pub const EXCEPTION_BITMAP: u32 = 0x4004;
pub const VMENTRY_CONTROLS: u32 = 0x4012;

pub const IA32_TIME_STAMP_COUNTER: u32 = 0x10;
pub const IA32_FEATURE_CONTROL: u32 = 0x3a;
pub const IA32_APIC_BASE: u32 = 0x1b;
pub const SYSENTER_CS_MSR: u32 = 0x174;
pub const SYSENTER_ESP_MSR: u32 = 0x175;
pub const SYSENTER_EIP_MSR: u32 = 0x176;
pub const MSR_C5_PMON_BOX_CTRL: u32 = 0xda0;
pub const IA32_EFER: u32 = 0xc000_0080;
pub const IA32_STAR: u32 = 0xc000_0081;
pub const IA32_LSTAR: u32 = 0xc000_0082;
pub const IA32_CSTAR: u32 = 0xc000_0083;
pub const IA32_FMASK: u32 = 0xc000_0084;
pub const IA32_FS_BASE: u32 = 0xc000_0100;
pub const IA32_GS_BASE: u32 = 0xc000_0101;
pub const IA32_KERNEL_GSBASE: u32 = 0xc000_0102;
pub const IA32_TSC_AUX: u32 = 0xc000_0103;
pub const IA32_VMX_BASIC: u32 = 0x480;

} // verus!
