//! VMX operation: the VMXON and VMCS regions, the status flags of VMX
//! instructions, the checks VMXON requires, and VM-instruction errors.
use vstd::prelude::*;

use crate::memory::{allocation_step, BitmapMemoryTable};

verus! {

/// The 4 KiB region handed to VMXON.
pub struct Vmxon {
    pub frame: u64,
}

/// The 4 KiB region of the current VMCS.
pub struct Vmcs {
    pub frame: u64,
}

impl Vmxon {
    /// Takes a frame for the VMXON region.
    pub fn new(frame_allocator: &mut BitmapMemoryTable) -> (r: Result<Self, &'static str>)
        requires
            old(frame_allocator).wf(),
        ensures
            final(frame_allocator).wf(),
            r matches Ok(v) ==> v.frame % 4096 == 0,
            r matches Ok(v) ==> allocation_step(*old(frame_allocator), *final(frame_allocator), Some(v.frame)),
            r is Err ==> r == Err::<Vmxon, &'static str>("Failed to allocate frame for VMXON") && allocation_step(
                *old(frame_allocator),
                *final(frame_allocator),
                None,
            ),
            r is Err <==> forall|g: int| !#[trigger] old(frame_allocator).available(g),
    {
        match frame_allocator.allocate_frame() {
            Some(frame) => Ok(Vmxon { frame }),
            None => Err("Failed to allocate frame for VMXON"),
        }
    }
}

impl Vmcs {
    /// Takes a frame for the VMCS region.
    pub fn new(frame_allocator: &mut BitmapMemoryTable) -> (r: Result<Self, &'static str>)
        requires
            old(frame_allocator).wf(),
        ensures
            final(frame_allocator).wf(),
            r matches Ok(v) ==> v.frame % 4096 == 0,
            r matches Ok(v) ==> allocation_step(*old(frame_allocator), *final(frame_allocator), Some(v.frame)),
            r is Err ==> r == Err::<Vmcs, &'static str>("Failed to allocate VMCS frame") && allocation_step(
                *old(frame_allocator),
                *final(frame_allocator),
                None,
            ),
            r is Err <==> forall|g: int| !#[trigger] old(frame_allocator).available(g),
    {
        match frame_allocator.allocate_frame() {
            Some(frame) => Ok(Vmcs { frame }),
            None => Err("Failed to allocate VMCS frame"),
        }
    }
}

/// RFLAGS.CF.
pub const CARRY_FLAG: u64 = 0x1;
/// RFLAGS.ZF.
pub const ZERO_FLAG: u64 = 0x40;

/// The outcome of a VMX instruction from the RFLAGS it left: ZF set means
/// VMfailValid, CF set means VMfailInvalid.
pub fn vmx_capture_status(rflags: u64) -> (r: Result<(), &'static str>)
    ensures
        rflags & ZERO_FLAG != 0 ==> r == Err::<(), &'static str>("VM fail valid"),
        rflags & ZERO_FLAG == 0 && rflags & CARRY_FLAG != 0 ==> r == Err::<(), &'static str>("VM fail invalid"),
        rflags & ZERO_FLAG == 0 && rflags & CARRY_FLAG == 0 ==> r is Ok,
{
    if rflags & ZERO_FLAG != 0 {
        Err("VM fail valid")
    } else if rflags & CARRY_FLAG != 0 {
        Err("VM fail invalid")
    } else {
        Ok(())
    }
}

/// The registers that VMXON depends on.
#[derive(Clone, Copy)]
pub struct VmxonInputs {
    pub cr0: u64,
    pub cr4: u64,
    pub feature_control: u64,
    pub cr0_fixed0: u64,
    pub cr0_fixed1: u64,
    pub cr4_fixed0: u64,
    pub cr4_fixed1: u64,
}

/// Whether VMXON may run: CR4.VMXE set, VMX allowed outside SMX, CR0 and
/// CR4 within their fixed bits, and the region 4 KiB aligned.
pub open spec fn vmxon_ready(i: VmxonInputs, region: u64) -> bool {
    &&& i.cr4 & 0x2000 != 0
    &&& i.feature_control & 0x4 != 0
    &&& i.cr0 & i.cr0_fixed0 == i.cr0_fixed0
    &&& i.cr0 & !i.cr0_fixed1 == 0
    &&& i.cr4 & i.cr4_fixed0 == i.cr4_fixed0
    &&& i.cr4 & !i.cr4_fixed1 == 0
    &&& region & 0xfff == 0
}

impl Vmxon {
    /// Whether VMXON may run on this region.
    pub fn check_requirements(&self, i: VmxonInputs) -> (r: bool)
        ensures
            r == vmxon_ready(i, self.frame),
    {
        if i.cr4 & 0x2000 == 0 {
            return false;
        }
        if i.feature_control & 0x4 == 0 {
            return false;
        }
        if i.cr0 & i.cr0_fixed0 != i.cr0_fixed0 {
            return false;
        }
        if i.cr0 & !i.cr0_fixed1 != 0 {
            return false;
        }
        if i.cr4 & i.cr4_fixed0 != i.cr4_fixed0 {
            return false;
        }
        if i.cr4 & !i.cr4_fixed1 != 0 {
            return false;
        }
        self.frame & 0xfff == 0
    }

    /// IA32_FEATURE_CONTROL to write before VMXON, if any: when the lock
    /// bit is clear, the value with VMX-outside-SMX and the lock bit set.
    pub fn adjust_feature_control_msr(feature_control: u64) -> (r: Option<u64>)
        ensures
            feature_control & 1 == 0 ==> r == Some(feature_control | 0x4 | 0x1),
            feature_control & 1 != 0 ==> r is None,
    {
        if feature_control & 1 == 0 {
            Some(feature_control | 0x4 | 0x1)
        } else {
            None
        }
    }

    /// CR0 with the bits VMX operation fixes.
    pub fn set_cr0_bits(cr0: u64, cr0_fixed0: u64, cr0_fixed1: u64) -> (r: u64)
        ensures
            r == (cr0 | cr0_fixed0) & cr0_fixed1,
    {
        (cr0 | cr0_fixed0) & cr0_fixed1
    }
}

/// The 32-bit control fields of the VMCS.
#[derive(Debug, Clone, Copy, PartialEq, Eq, Structural)]
pub enum VmcsControl32 {
    PinBasedVmExecutionControls,
    PrimaryProcessorBasedVmExecutionControls,
    ExceptionBitmap,
    PrimaryVmExitControls,
    VmEntryControls,
    SecondaryProcessorBasedVmExecutionControls,
}

impl VmcsControl32 {
    /// The field's encoding.
    pub fn encoding(self) -> (r: u32)
        ensures
            self == VmcsControl32::PinBasedVmExecutionControls ==> r == 0x4000,
            self == VmcsControl32::PrimaryProcessorBasedVmExecutionControls ==> r == 0x4002,
            self == VmcsControl32::ExceptionBitmap ==> r == 0x4004,
            self == VmcsControl32::PrimaryVmExitControls ==> r == 0x400C,
            self == VmcsControl32::VmEntryControls ==> r == 0x4012,
            self == VmcsControl32::SecondaryProcessorBasedVmExecutionControls ==> r == 0x401E,
    {
        match self {
            VmcsControl32::PinBasedVmExecutionControls => 0x4000,
            VmcsControl32::PrimaryProcessorBasedVmExecutionControls => 0x4002,
            VmcsControl32::ExceptionBitmap => 0x4004,
            VmcsControl32::PrimaryVmExitControls => 0x400C,
            VmcsControl32::VmEntryControls => 0x4012,
            VmcsControl32::SecondaryProcessorBasedVmExecutionControls => 0x401E,
        }
    }
}

/// The 32-bit read-only data fields of the VMCS.
#[derive(Debug, Clone, Copy, PartialEq, Eq, Structural)]
pub enum VmcsReadOnlyData32 {
    VmInstructionError,
    VmExitReason,
    VmExitInterruptionInformation,
    VmExitInstructionLength,
}

impl VmcsReadOnlyData32 {
    /// The field's encoding.
    pub fn encoding(self) -> (r: u32)
        ensures
            self == VmcsReadOnlyData32::VmInstructionError ==> r == 0x4400,
            self == VmcsReadOnlyData32::VmExitReason ==> r == 0x4402,
            self == VmcsReadOnlyData32::VmExitInterruptionInformation ==> r == 0x4404,
            self == VmcsReadOnlyData32::VmExitInstructionLength ==> r == 0x440C,
    {
        match self {
            VmcsReadOnlyData32::VmInstructionError => 0x4400,
            VmcsReadOnlyData32::VmExitReason => 0x4402,
            VmcsReadOnlyData32::VmExitInterruptionInformation => 0x4404,
            VmcsReadOnlyData32::VmExitInstructionLength => 0x440C,
        }
    }
}

} // verus!
