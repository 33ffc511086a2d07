//! The VM-execution, VM-entry and VM-exit controls the hypervisor asks for,
//! within what the processor allows.
use vstd::prelude::*;

verus! {

/// Pin-based: external-interrupt exiting (bit 0).
pub const PIN_EXTERNAL_INTERRUPT: u32 = 1u32 << 0u32;
/// Primary: HLT exiting (bit 7).
pub const PRIMARY_HLT: u32 = 1u32 << 7u32;
/// Primary: use TPR shadow (bit 21).
pub const PRIMARY_TPR_SHADOW: u32 = 1u32 << 21u32;
/// Primary: unconditional I/O exiting (bit 24).
pub const PRIMARY_UNCONDITIONAL_IO: u32 = 1u32 << 24u32;
/// Primary: use I/O bitmaps (bit 25).
pub const PRIMARY_IO_BITMAP: u32 = 1u32 << 25u32;
/// Primary: use MSR bitmaps (bit 28).
pub const PRIMARY_MSR_BITMAP: u32 = 1u32 << 28u32;
/// Primary: activate secondary controls (bit 31).
pub const PRIMARY_SECONDARY: u32 = 1u32 << 31u32;
/// Secondary: virtualize APIC accesses (bit 0), enable EPT (bit 1),
/// unrestricted guest (bit 7).
pub const SECONDARY_WANTED: u32 = 0x83;
/// Entry: IA-32e mode guest (bit 9).
pub const ENTRY_IA32E: u32 = 1u32 << 9u32;
/// Entry: load IA32_PAT (bit 14) and IA32_EFER (bit 15).
pub const ENTRY_WANTED: u32 = 0xC000;
/// Exit: host address-space size (bit 9), save and load IA32_PAT (bits 18,
/// 19), save and load IA32_EFER (bits 20, 21).
pub const EXIT_WANTED: u32 = 0x003C_0200;
/// Both CR0 and CR4 guest/host masks: every bit is owned by the host.
pub const CR_MASK: u64 = 0xFFFF_FFFF_FFFF_FFFF;
/// The exception bitmap: #UD (vector 6) exits.
pub const EXCEPTION_BITMAP_VALUE: u64 = 1u64 << 6u64;

/// `current` with the bits the processor requires (low dword of the
/// capability MSR) set and the bits it does not allow (clear in the high
/// dword) cleared.
pub open spec fn allowed(current: u32, capability: u64) -> u32 {
    (current | (capability & 0xFFFF_FFFF) as u32) & ((capability >> 32u64) as u32)
}

/// Applies a capability MSR to a control value.
pub fn adjust_controls(current: u32, capability: u64) -> (r: u32)
    ensures
        r == allowed(current, capability),
{
    (current | (capability & 0xFFFF_FFFF) as u32) & ((capability >> 32u64) as u32)
}

/// The capability MSR to read for a control: the "true" one when
/// IA32_VMX_BASIC bit 55 says it exists, else the legacy one.
pub fn capability_msr(basic: u64, true_msr: u32, legacy_msr: u32) -> (r: u32)
    ensures
        r == if basic & (1u64 << 55u64) != 0 {
            true_msr
        } else {
            legacy_msr
        },
{
    if basic & (1u64 << 55u64) != 0 {
        true_msr
    } else {
        legacy_msr
    }
}

/// The pin-based, primary and secondary execution controls.
#[derive(Clone, Copy)]
pub struct ExecControls {
    pub pin: u32,
    pub primary: u32,
    pub secondary: u32,
}

/// The execution controls from their current values and capability MSRs:
/// no external-interrupt exiting; HLT exiting, secondary controls and I/O
/// bitmaps on, TPR shadow, MSR bitmaps and unconditional I/O exiting off;
/// EPT, unrestricted guest and APIC-access virtualisation on.
pub fn setup_exec_controls(
    pin: u32,
    pin_capability: u64,
    primary: u32,
    primary_capability: u64,
    secondary: u32,
    secondary_capability: u64,
) -> (r: ExecControls)
    ensures
        r.pin == allowed(pin, pin_capability) & !PIN_EXTERNAL_INTERRUPT,
        r.primary == ((allowed(primary, primary_capability) | PRIMARY_HLT | PRIMARY_SECONDARY | PRIMARY_IO_BITMAP)
            & !PRIMARY_TPR_SHADOW & !PRIMARY_MSR_BITMAP & !PRIMARY_UNCONDITIONAL_IO),
        r.secondary == allowed(secondary, secondary_capability) | SECONDARY_WANTED,
{
    let p = adjust_controls(pin, pin_capability) & !PIN_EXTERNAL_INTERRUPT;
    let q = (adjust_controls(primary, primary_capability) | PRIMARY_HLT | PRIMARY_SECONDARY | PRIMARY_IO_BITMAP)
        & !PRIMARY_TPR_SHADOW & !PRIMARY_MSR_BITMAP & !PRIMARY_UNCONDITIONAL_IO;
    let s = adjust_controls(secondary, secondary_capability) | SECONDARY_WANTED;
    ExecControls { pin: p, primary: q, secondary: s }
}

/// The entry controls: load IA32_EFER and IA32_PAT, guest not in IA-32e
/// mode.
pub fn setup_entry_controls(entry: u32, capability: u64) -> (r: u32)
    ensures
        r == (allowed(entry, capability) | ENTRY_WANTED) & !ENTRY_IA32E,
{
    (adjust_controls(entry, capability) | ENTRY_WANTED) & !ENTRY_IA32E
}

/// The exit controls: 64-bit host, save and load IA32_EFER and IA32_PAT.
pub fn setup_exit_controls(exit: u32, capability: u64) -> (r: u32)
    ensures
        r == allowed(exit, capability) | EXIT_WANTED,
{
    adjust_controls(exit, capability) | EXIT_WANTED
}

} // verus!
