//! CPUID virtualisation: the leaves the guest sees.
use vstd::prelude::*;

use crate::regs::GuestRegisters;

verus! {

/// What one CPUID instruction returns.
#[derive(Clone, Copy)]
pub struct CpuidResult {
    pub eax: u32,
    pub ebx: u32,
    pub ecx: u32,
    pub edx: u32,
}

/// Relies on raw_cpuid::native_cpuid::cpuid_count, which executes CPUID
/// with EAX = `leaf` and ECX = `subleaf` on this processor. What it returns
/// depends on the machine, so nothing is stated of it.
#[verifier::external_body]
pub(crate) fn host_cpuid(leaf: u32, subleaf: u32) -> (r: CpuidResult) {
    let c = raw_cpuid::native_cpuid::cpuid_count(leaf, subleaf);
    CpuidResult { eax: c.eax, ebx: c.ebx, ecx: c.ecx, edx: c.edx }
}

/// The vendor string "miHypervisor", as EBX, EDX, ECX hold it.
pub const VENDOR_EBX: u64 = 0x7948_696d;
pub const VENDOR_EDX: u64 = 0x7672_6570;
pub const VENDOR_ECX: u64 = 0x726f_7369;

/// Leaf 1 ECX: PCID, SSE4.1, SSE4.2, XSAVE and OSXSAVE; never VMX, SMX,
/// x2APIC or the hypervisor bit.
pub const FEATURE_ECX: u64 = 0x0c1a_0000;

/// Leaf 1 EDX: FPU, VME, DE, PSE, MSR, PAE, CX8, SEP, PGE, CMOV, PSE36,
/// ACPI, FXSR, SSE and SSE2.
pub const FEATURE_EDX: u64 = 0x0742_a96f;

/// Leaf 7 EBX: SMEP and SMAP.
pub const EXT_FEATURE_EBX: u64 = 0x0010_0080;

/// Leaf 1 ECX as the guest sees it.
#[derive(Clone, Copy)]
pub struct FeatureInfoEcx {
    pub raw: u32,
}

/// Leaf 1 EDX as the guest sees it.
#[derive(Clone, Copy)]
pub struct FeatureInfoEdx {
    pub raw: u32,
}

/// Leaf 7 subleaf 0 EBX as the guest sees it.
#[derive(Clone, Copy)]
pub struct ExtFeatureEbx0 {
    pub raw: u32,
}

impl FeatureInfoEcx {
    /// The features advertised to the guest.
    pub fn guest() -> (r: Self)
        ensures
            r.raw == FEATURE_ECX,
    {
        FeatureInfoEcx { raw: 0x0c1a_0000 }
    }

    /// The VMX bit (bit 5).
    pub fn vmx(&self) -> (r: bool)
        ensures
            r == (self.raw & 0x20 != 0),
    {
        self.raw & 0x20 != 0
    }
}

impl FeatureInfoEdx {
    /// The features advertised to the guest.
    pub fn guest() -> (r: Self)
        ensures
            r.raw == FEATURE_EDX,
    {
        FeatureInfoEdx { raw: 0x0742_a96f }
    }
}

impl ExtFeatureEbx0 {
    /// The features advertised to the guest.
    pub fn guest() -> (r: Self)
        ensures
            r.raw == EXT_FEATURE_EBX,
    {
        ExtFeatureEbx0 { raw: 0x0010_0080 }
    }
}

/// The CPUID leaves the hypervisor answers itself.
#[derive(Clone, Copy, PartialEq, Eq, Structural, Debug)]
pub enum VmxLeaf {
    MaximumInput,
    VersionAndFeatureInfo,
    ExtendedFeature,
    ExtendedEnumeration,
    ExtendedFunction,
    ExtendedProcessorSignature,
    ExtendedFeature2,
    ExtendedFeature3,
    ExtendedFeature4,
    Unknown,
}

/// The leaf named by the value of RAX.
pub open spec fn leaf_of(rax: u64) -> VmxLeaf {
    if rax == 0 {
        VmxLeaf::MaximumInput
    } else if rax == 1 {
        VmxLeaf::VersionAndFeatureInfo
    } else if rax == 7 {
        VmxLeaf::ExtendedFeature
    } else if rax == 0xD {
        VmxLeaf::ExtendedEnumeration
    } else if rax == 0x8000_0000 {
        VmxLeaf::ExtendedFunction
    } else if rax == 0x8000_0001 {
        VmxLeaf::ExtendedProcessorSignature
    } else if rax == 0x8000_0002 {
        VmxLeaf::ExtendedFeature2
    } else if rax == 0x8000_0003 {
        VmxLeaf::ExtendedFeature3
    } else if rax == 0x8000_0004 {
        VmxLeaf::ExtendedFeature4
    } else {
        VmxLeaf::Unknown
    }
}

impl VmxLeaf {
    /// The leaf named by the value of RAX.
    pub fn from(rax: u64) -> (r: VmxLeaf)
        ensures
            r == leaf_of(rax),
    {
        match rax {
            0x0 => VmxLeaf::MaximumInput,
            0x1 => VmxLeaf::VersionAndFeatureInfo,
            0x7 => VmxLeaf::ExtendedFeature,
            0xD => VmxLeaf::ExtendedEnumeration,
            0x8000_0000 => VmxLeaf::ExtendedFunction,
            0x8000_0001 => VmxLeaf::ExtendedProcessorSignature,
            0x8000_0002 => VmxLeaf::ExtendedFeature2,
            0x8000_0003 => VmxLeaf::ExtendedFeature3,
            0x8000_0004 => VmxLeaf::ExtendedFeature4,
            _ => VmxLeaf::Unknown,
        }
    }
}

/// What the guest's CPUID returns in (RAX, RBX, RCX, RDX) for leaf `rax` and
/// subleaf `rcx`, given what the processor returns for leaf 1 and leaf
/// 0x8000_0001; `None` for the subleaves of leaf 7 above 2, which are fatal.
pub open spec fn cpuid_answer(rax: u64, rcx: u64, host_leaf1: CpuidResult, host_signature: CpuidResult) -> Option<
    (u64, u64, u64, u64),
> {
    match leaf_of(rax) {
        VmxLeaf::MaximumInput => Some((0x20, VENDOR_EBX, VENDOR_ECX, VENDOR_EDX)),
        VmxLeaf::VersionAndFeatureInfo => Some(
            (host_leaf1.eax as u64, host_leaf1.ebx as u64, FEATURE_ECX, FEATURE_EDX),
        ),
        VmxLeaf::ExtendedFeature => if rcx == 0 {
            Some((1, EXT_FEATURE_EBX, 0, 0))
        } else if rcx <= 2 {
            Some((0, 0, 0, 0))
        } else {
            None
        },
        VmxLeaf::ExtendedEnumeration => if rcx == 0 {
            Some((3, 576, 576, 0))
        } else if rcx == 1 {
            Some((1, 0, 0, 0))
        } else if rcx == 2 {
            Some((512, 0, 0, 0))
        } else {
            Some((0, 0, 0, 0))
        },
        VmxLeaf::ExtendedFunction => Some((0x8000_0004, 0, 0, 0)),
        VmxLeaf::ExtendedProcessorSignature => Some(
            (0, 0, host_signature.ecx as u64, host_signature.edx as u64),
        ),
        VmxLeaf::ExtendedFeature2 => Some((0x2069_696d, 0x6570_7948, 0x7369_7672, 0x4320_726f)),
        VmxLeaf::ExtendedFeature3 => Some((0x6f20_5550, 0x6e49_206e, 0x206c_6574, 0x782d_5456)),
        VmxLeaf::ExtendedFeature4 => Some((0x2020_2020, 0x2020_2020, 0x2020_2020, 0x0020_2020)),
        VmxLeaf::Unknown => Some((0, 0, 0, 0)),
    }
}

/// Byte `i` (0 to 3) of the low dword of `d`, as it lies in memory.
pub open spec fn dword_byte(d: u64, i: u64) -> u64 {
    (d >> (8 * i)) & 0xFF
}

/// The twelve bytes that EBX, EDX and ECX hold, in that order.
pub open spec fn vendor_bytes(ebx: u64, edx: u64, ecx: u64) -> Seq<u64> {
    seq![
        dword_byte(ebx, 0), dword_byte(ebx, 1), dword_byte(ebx, 2), dword_byte(ebx, 3),
        dword_byte(edx, 0), dword_byte(edx, 1), dword_byte(edx, 2), dword_byte(edx, 3),
        dword_byte(ecx, 0), dword_byte(ecx, 1), dword_byte(ecx, 2), dword_byte(ecx, 3),
    ]
}

/// Leaf 0 spells "miHypervisor" in EBX, EDX, ECX, whatever the processor
/// reports; leaf 1 never shows the VMX bit (ECX bit 5); and every leaf from
/// 0x8000_0005 up answers with four zero registers.
pub proof fn lemma_cpuid_shim(rcx: u64, leaf: u64, host_leaf1: CpuidResult, host_signature: CpuidResult)
    ensures
        ({
            let (a, b, c, d) = cpuid_answer(0, rcx, host_leaf1, host_signature).unwrap();
            vendor_bytes(b, d, c) == seq![
                'm' as u64, 'i' as u64, 'H' as u64, 'y' as u64, 'p' as u64, 'e' as u64,
                'r' as u64, 'v' as u64, 'i' as u64, 's' as u64, 'o' as u64, 'r' as u64,
            ]
        }),
        cpuid_answer(1, rcx, host_leaf1, host_signature).unwrap().2 & 0x20 == 0,
        leaf >= 0x8000_0005 ==> cpuid_answer(leaf, rcx, host_leaf1, host_signature) == Some(
            (0u64, 0u64, 0u64, 0u64),
        ),
{
    assert(dword_byte(VENDOR_EBX, 0) == 0x6d && dword_byte(VENDOR_EBX, 1) == 0x69 && dword_byte(VENDOR_EBX, 2)
        == 0x48 && dword_byte(VENDOR_EBX, 3) == 0x79 && dword_byte(VENDOR_EDX, 0) == 0x70 && dword_byte(
        VENDOR_EDX,
        1,
    ) == 0x65 && dword_byte(VENDOR_EDX, 2) == 0x72 && dword_byte(VENDOR_EDX, 3) == 0x76 && dword_byte(
        VENDOR_ECX,
        0,
    ) == 0x69 && dword_byte(VENDOR_ECX, 1) == 0x73 && dword_byte(VENDOR_ECX, 2) == 0x6f && dword_byte(
        VENDOR_ECX,
        3,
    ) == 0x72) by (bit_vector);
    assert(FEATURE_ECX & 0x20 == 0) by (bit_vector);
}

fn set_abcd(regs: &mut GuestRegisters, a: u64, b: u64, c: u64, d: u64)
    ensures
        *final(regs) == old(regs).with_abcd(a, b, c, d),
{
    regs.rax = a;
    regs.rbx = b;
    regs.rcx = c;
    regs.rdx = d;
}

/// Zeroes RAX, RBX, RCX and RDX: the answer to a leaf that is not offered.
pub fn invalid(regs: &mut GuestRegisters)
    ensures
        *final(regs) == old(regs).with_abcd(0, 0, 0, 0),
{
    set_abcd(regs, 0, 0, 0, 0);
}

/// Answers the guest's CPUID from RAX and RCX, given what the processor
/// returns for leaf 1 and leaf 0x8000_0001. Fails, changing nothing, on a
/// subleaf of leaf 7 above 2.
pub fn emulate_cpuid(regs: &mut GuestRegisters, host_leaf1: CpuidResult, host_signature: CpuidResult) -> (r: Result<
    (),
    &'static str,
>)
    ensures
        match cpuid_answer(old(regs).rax, old(regs).rcx, host_leaf1, host_signature) {
            Some((a, b, c, d)) => r is Ok && *final(regs) == old(regs).with_abcd(a, b, c, d),
            None => r is Err && *final(regs) == *old(regs),
        },
{
    match VmxLeaf::from(regs.rax) {
        VmxLeaf::ExtendedFeature2 => set_abcd(regs, 0x2069_696d, 0x6570_7948, 0x7369_7672, 0x4320_726f),
        VmxLeaf::ExtendedFeature3 => set_abcd(regs, 0x6f20_5550, 0x6e49_206e, 0x206c_6574, 0x782d_5456),
        VmxLeaf::ExtendedFeature4 => set_abcd(regs, 0x2020_2020, 0x2020_2020, 0x2020_2020, 0x0020_2020),
        VmxLeaf::ExtendedEnumeration => match regs.rcx {
            0 => set_abcd(regs, 0b11, 576, 576, 0),
            1 => set_abcd(regs, 1, 0, 0, 0),
            2 => set_abcd(regs, 512, 0, 0, 0),
            _ => invalid(regs),
        },
        VmxLeaf::ExtendedFeature => match regs.rcx {
            0 => set_abcd(regs, 1, ExtFeatureEbx0::guest().raw as u64, 0, 0),
            1 => invalid(regs),
            2 => invalid(regs),
            _ => {
                return Err("Unhandled CPUID leaf");
            },
        },
        VmxLeaf::ExtendedProcessorSignature => set_abcd(
            regs,
            0,
            0,
            host_signature.ecx as u64,
            host_signature.edx as u64,
        ),
        VmxLeaf::ExtendedFunction => set_abcd(regs, 0x8000_0000 + 4, 0, 0, 0),
        VmxLeaf::MaximumInput => set_abcd(regs, 0x20, VENDOR_EBX, VENDOR_ECX, VENDOR_EDX),
        VmxLeaf::VersionAndFeatureInfo => set_abcd(
            regs,
            host_leaf1.eax as u64,
            host_leaf1.ebx as u64,
            FeatureInfoEcx::guest().raw as u64,
            FeatureInfoEdx::guest().raw as u64,
        ),
        VmxLeaf::Unknown => invalid(regs),
    }
    Ok(())
}

/// Handles a CPUID exit: asks the processor for the leaves that pass its
/// values through and answers as `emulate_cpuid` does.
pub fn handle_cpuid_vmexit(regs: &mut GuestRegisters) -> (r: Result<(), &'static str>)
    ensures
        exists|h1: CpuidResult, hx: CpuidResult|
            match #[trigger] cpuid_answer(old(regs).rax, old(regs).rcx, h1, hx) {
                Some((a, b, c, d)) => r is Ok && *final(regs) == old(regs).with_abcd(a, b, c, d),
                None => r is Err && *final(regs) == *old(regs),
            },
{
    let host_leaf1 = host_cpuid(0x1, 0);
    let host_signature = host_cpuid(0x8000_0001, 0);
    emulate_cpuid(regs, host_leaf1, host_signature)
}

} // verus!
