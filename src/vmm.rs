//! The VCPU of whichever back-end the processor supports.
use vstd::prelude::*;

use crate::amd::{svm_supported, AMDVCpu};
use crate::cpuid::CpuidResult;
use crate::cr::FixedBits;
use crate::memory::BitmapMemoryTable;
use crate::platform::{is_amd_vendor, is_intel_vendor, vendor_is_amd, vendor_is_intel};
use crate::vcpu::{IntelVCpu, GUEST_MEMORY_SIZE};

verus! {

/// A VCPU of one of the two back-ends.
pub enum VCpu {
    Intel(IntelVCpu),
    Amd(AMDVCpu),
}

impl VCpu {
    /// Bytes of guest memory: what the Intel back-end maps; the AMD
    /// back-end gives its guest none of its own.
    pub fn get_guest_memory_size(&self) -> (r: u64)
        ensures
            match self {
                VCpu::Intel(v) => r == v.guest_memory_size,
                VCpu::Amd(_) => r == 0,
            },
    {
        match self {
            VCpu::Intel(v) => v.get_guest_memory_size(),
            VCpu::Amd(_) => 0,
        }
    }
}

/// What the processor reports that decides the back-end.
#[derive(Clone, Copy)]
pub struct CpuFeatures {
    /// CPUID leaf 0.
    pub vendor: CpuidResult,
    /// CPUID leaf 1 ECX.
    pub leaf1_ecx: u32,
    /// CPUID leaf 0x8000_0001 ECX.
    pub ext_ecx: u32,
    /// IA32_FEATURE_CONTROL.
    pub feature_control: u64,
}

/// Whether the Intel back-end can run.
pub open spec fn vmx_usable(f: CpuFeatures) -> bool {
    f.leaf1_ecx & 0x20 != 0 && !(f.feature_control & 0x4 == 0 && f.feature_control & 1 != 0)
}

/// Builds the VCPU for this processor: AMD-V on an AMD processor with SVM,
/// else VT-x on an Intel processor that allows it; fails on any other
/// processor or when frames run out.
pub fn get_vcpu(frame_allocator: &mut BitmapMemoryTable, features: CpuFeatures, fixed: FixedBits) -> (r: Result<
    VCpu,
    &'static str,
>)
    requires
        old(frame_allocator).wf(),
    ensures
        final(frame_allocator).wf(),
        r matches Ok(VCpu::Amd(_)) ==> vendor_is_amd(features.vendor) && svm_supported(features.ext_ecx),
        r matches Ok(VCpu::Intel(v)) ==> v.wf() && vendor_is_intel(features.vendor) && vmx_usable(features) && !(
        vendor_is_amd(features.vendor) && svm_supported(features.ext_ecx)),
        r matches Ok(VCpu::Intel(v)) ==> v.ept.tree_ok() && v.ept.tables_in_use(*final(frame_allocator))
            && v.ept.lv3.addrs@.len() == 0 && v.ept.lv2.addrs@.len() == 0 && v.ept.lv1.addrs@.len() == 0
            && v.guest_memory_size == GUEST_MEMORY_SIZE,
        ((vendor_is_amd(features.vendor) && svm_supported(features.ext_ecx)) || (vendor_is_intel(features.vendor)
            && vmx_usable(features))) && r is Err ==> forall|g: int| !#[trigger] final(frame_allocator).available(g),
        !(vendor_is_amd(features.vendor) && svm_supported(features.ext_ecx)) && !(vendor_is_intel(features.vendor)
            && vmx_usable(features)) ==> r == Err::<VCpu, &'static str>("Unsupported CPU architecture"),
{
    if is_amd_vendor(features.vendor) && AMDVCpu::is_supported(features.ext_ecx) {
        match AMDVCpu::new(frame_allocator) {
            Ok(v) => Ok(VCpu::Amd(v)),
            Err(e) => Err(e),
        }
    } else if is_intel_vendor(features.vendor) && IntelVCpu::is_supported(features.leaf1_ecx, features.feature_control) {
        match IntelVCpu::new(frame_allocator, fixed) {
            Ok(v) => Ok(VCpu::Intel(v)),
            Err(e) => Err(e),
        }
    } else {
        Err("Unsupported CPU architecture")
    }
}

} // verus!
