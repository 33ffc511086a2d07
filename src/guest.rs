//! The initial state of the Intel back-end: the guest starts in a flat
//! 32-bit protected mode with paging off at the Linux kernel's 32-bit
//! entry point, and VM exits return to the host's live state.
use vstd::prelude::*;

use crate::regs::GuestRegisters;

verus! {

/// Guest-physical address of the boot parameters (the zero page).
pub const LAYOUT_BOOTPARAM: u64 = 0x0001_0000;
/// Guest-physical address of the kernel command line.
pub const LAYOUT_CMDLINE: u64 = 0x0002_0000;
/// Guest-physical address of the kernel's protected-mode code.
pub const LAYOUT_KERNEL_BASE: u64 = 0x0010_0000;
/// Guest-physical address of the initial ramdisk.
pub const LAYOUT_INITRD: u64 = 0x0800_0000;

/// CR0 of the guest: PE, ET and NE; paging off.
pub const GUEST_CR0_VALUE: u64 = 0x31;
/// CR4.VMXE.
pub const CR4_VMXE: u64 = 0x2000;
/// CR4.PAE.
pub const CR4_PAE: u64 = 0x20;

/// Access rights of the guest's code segment: accessed, readable,
/// executable code, present, 32-bit, 4 KiB granularity.
pub const CS_RIGHTS: u64 = 0xC09B;
/// Access rights of the guest's data segments: accessed, writable data,
/// present, 32-bit, 4 KiB granularity.
pub const DS_RIGHTS: u64 = 0xC093;
/// Access rights of the guest's task register: busy 32-bit TSS, present.
pub const TR_RIGHTS: u64 = 0x8B;
/// Access rights of the guest's LDTR: marked unusable.
pub const LDTR_RIGHTS: u64 = 0x1_0082;

/// The VMCS writes that set up the guest, in order, given the guest CR4
/// the VMCS held before.
pub open spec fn guest_state_writes(cr4: u64) -> Seq<(u32, u64)> {
    seq![
        (0x6800u32, GUEST_CR0_VALUE), (0x6802u32, 0u64), (0x6804u32, (cr4 | CR4_VMXE) & !CR4_PAE),
        (0x6808u32, 0u64), (0x680Au32, 0u64), (0x680Cu32, 0u64), (0x6806u32, 0u64), (0x6814u32, 0u64),
        (0x6816u32, 0u64), (0x6818u32, 0u64), (0x6812u32, 0xDEAD00u64),
        (0x4802u32, 0xFFFF_FFFFu64), (0x4804u32, 0xFFFF_FFFFu64), (0x4806u32, 0xFFFF_FFFFu64),
        (0x4800u32, 0xFFFF_FFFFu64), (0x4808u32, 0xFFFF_FFFFu64), (0x480Au32, 0xFFFF_FFFFu64),
        (0x480Eu32, 0u64), (0x4810u32, 0u64), (0x4812u32, 0u64), (0x480Cu32, 0u64),
        (0x4816u32, CS_RIGHTS), (0x4818u32, DS_RIGHTS), (0x481Au32, DS_RIGHTS), (0x4814u32, DS_RIGHTS),
        (0x481Cu32, DS_RIGHTS), (0x481Eu32, DS_RIGHTS), (0x4822u32, TR_RIGHTS), (0x4820u32, LDTR_RIGHTS),
        (0x0802u32, 0u64), (0x0804u32, 0u64), (0x0806u32, 0u64), (0x0800u32, 0u64), (0x0808u32, 0u64),
        (0x080Au32, 0u64), (0x080Eu32, 0u64), (0x080Cu32, 0u64), (0x680Eu32, 0u64), (0x6810u32, 0u64),
        (0x2806u32, 0u64), (0x2807u32, 0u64), (0x6820u32, 0x2u64), (0x2800u32, 0xFFFF_FFFF_FFFF_FFFFu64),
        (0x681Eu32, LAYOUT_KERNEL_BASE),
    ]
}

/// The guest state as a list of VMCS writes, given the guest CR4 the VMCS
/// held before; RSI gets the address of the boot parameters.
pub fn setup_guest_state(regs: &mut GuestRegisters, cr4: u64) -> (r: Vec<(u32, u64)>)
    ensures
        r@ == guest_state_writes(cr4),
        *final(regs) == (GuestRegisters { rsi: LAYOUT_BOOTPARAM, ..*old(regs) }),
{
    regs.rsi = LAYOUT_BOOTPARAM;
    let r = vec![
        (0x6800u32, GUEST_CR0_VALUE), (0x6802u32, 0u64), (0x6804u32, (cr4 | CR4_VMXE) & !CR4_PAE),
        (0x6808u32, 0u64), (0x680Au32, 0u64), (0x680Cu32, 0u64), (0x6806u32, 0u64), (0x6814u32, 0u64),
        (0x6816u32, 0u64), (0x6818u32, 0u64), (0x6812u32, 0xDEAD00u64),
        (0x4802u32, 0xFFFF_FFFFu64), (0x4804u32, 0xFFFF_FFFFu64), (0x4806u32, 0xFFFF_FFFFu64),
        (0x4800u32, 0xFFFF_FFFFu64), (0x4808u32, 0xFFFF_FFFFu64), (0x480Au32, 0xFFFF_FFFFu64),
        (0x480Eu32, 0u64), (0x4810u32, 0u64), (0x4812u32, 0u64), (0x480Cu32, 0u64),
        (0x4816u32, CS_RIGHTS), (0x4818u32, DS_RIGHTS), (0x481Au32, DS_RIGHTS), (0x4814u32, DS_RIGHTS),
        (0x481Cu32, DS_RIGHTS), (0x481Eu32, DS_RIGHTS), (0x4822u32, TR_RIGHTS), (0x4820u32, LDTR_RIGHTS),
        (0x0802u32, 0u64), (0x0804u32, 0u64), (0x0806u32, 0u64), (0x0800u32, 0u64), (0x0808u32, 0u64),
        (0x080Au32, 0u64), (0x080Eu32, 0u64), (0x080Cu32, 0u64), (0x680Eu32, 0u64), (0x6810u32, 0u64),
        (0x2806u32, 0u64), (0x2807u32, 0u64), (0x6820u32, 0x2u64), (0x2800u32, 0xFFFF_FFFF_FFFF_FFFFu64),
        (0x681Eu32, LAYOUT_KERNEL_BASE),
    ];
    assert(r@ =~= guest_state_writes(cr4));
    r
}

/// The live host state that VM exits return to.
#[derive(Clone, Copy)]
pub struct HostState {
    pub cr0: u64,
    pub cr3: u64,
    pub cr4: u64,
    /// Address of the exit trampoline.
    pub exit_handler: u64,
    /// Top of the stack the exit trampoline starts on.
    pub stack_top: u64,
    pub es: u16,
    pub cs: u16,
    pub ss: u16,
    pub ds: u16,
    pub fs: u16,
    pub gs: u16,
    pub tr: u16,
    pub fs_base: u64,
    pub gs_base: u64,
    pub gdtr_base: u64,
    pub idtr_base: u64,
    pub efer: u64,
}

/// The VMCS writes of the host-state area, in order; the TR base is 0.
pub open spec fn host_state_writes_spec(h: HostState) -> Seq<(u32, u64)> {
    seq![
        (0x6C00u32, h.cr0), (0x6C02u32, h.cr3), (0x6C04u32, h.cr4), (0x6C16u32, h.exit_handler),
        (0x6C14u32, h.stack_top), (0x0C00u32, h.es as u64), (0x0C02u32, h.cs as u64), (0x0C04u32, h.ss as u64),
        (0x0C06u32, h.ds as u64), (0x0C08u32, h.fs as u64), (0x0C0Au32, h.gs as u64), (0x6C06u32, h.fs_base),
        (0x6C08u32, h.gs_base), (0x6C0Cu32, h.gdtr_base), (0x6C0Eu32, h.idtr_base), (0x0C0Cu32, h.tr as u64),
        (0x6C0Au32, 0u64), (0x2C02u32, h.efer),
    ]
}

/// The host-state area as a list of VMCS writes.
pub fn setup_host_state(h: &HostState) -> (r: Vec<(u32, u64)>)
    ensures
        r@ == host_state_writes_spec(*h),
{
    let r = vec![
        (0x6C00u32, h.cr0), (0x6C02u32, h.cr3), (0x6C04u32, h.cr4), (0x6C16u32, h.exit_handler),
        (0x6C14u32, h.stack_top), (0x0C00u32, h.es as u64), (0x0C02u32, h.cs as u64), (0x0C04u32, h.ss as u64),
        (0x0C06u32, h.ds as u64), (0x0C08u32, h.fs as u64), (0x0C0Au32, h.gs as u64), (0x6C06u32, h.fs_base),
        (0x6C08u32, h.gs_base), (0x6C0Cu32, h.gdtr_base), (0x6C0Eu32, h.idtr_base), (0x0C0Cu32, h.tr as u64),
        (0x6C0Au32, 0u64), (0x2C02u32, h.efer),
    ];
    assert(r@ =~= host_state_writes_spec(*h));
    r
}

} // verus!
