//! The AMD-V back-end: the VMCB and the guest it starts.
use vstd::prelude::*;

use crate::linux::{le_u16, le_u32, le_u64, put_u16, put_u32, put_u64};
use crate::memory::{allocation_step, BitmapMemoryTable};
use crate::segment::{attrib_of, DescriptorType, Granularity, Segment, SegmentRights};

verus! {

/// A segment in the VMCB state-save area.
#[derive(Clone, Copy, Debug, PartialEq, Eq, Structural)]
pub struct VmcbSegment {
    pub selector: u16,
    pub attrib: u16,
    pub limit: u32,
    pub base: u64,
}

/// The control area of the VMCB (offsets 0x000 to 0x3FF).
#[derive(Clone, Copy, Debug)]
pub struct VmcbControlArea {
    pub intercept_cr_read: u16,
    pub intercept_cr_write: u16,
    pub intercept_dr_read: u16,
    pub intercept_dr_write: u16,
    pub intercept_exception: u32,
    /// Intercept vector 1 (offset 0x00C); bit 24 is HLT.
    pub intercept_vec1: u32,
    /// Intercept vector 2 (offset 0x010); bit 0 is VMRUN.
    pub intercept_vec2: u32,
    pub intercept_vec3: u32,
    pub iopm_base_pa: u64,
    pub msrpm_base_pa: u64,
    pub tsc_offset: u64,
    pub guest_asid: u32,
    pub tlb_control: u8,
    pub exit_code: u64,
    pub nested_cr3: u64,
}

/// The state-save area of the VMCB (from offset 0x400).
#[derive(Clone, Copy, Debug)]
pub struct VmcbStateSaveArea {
    pub es: VmcbSegment,
    pub cs: VmcbSegment,
    pub ss: VmcbSegment,
    pub ds: VmcbSegment,
    pub fs: VmcbSegment,
    pub gs: VmcbSegment,
    pub gdtr: VmcbSegment,
    pub ldtr: VmcbSegment,
    pub idtr: VmcbSegment,
    pub tr: VmcbSegment,
    pub cpl: u8,
    pub efer: u64,
    pub cr4: u64,
    pub cr3: u64,
    pub cr0: u64,
    pub dr7: u64,
    pub dr6: u64,
    pub rflags: u64,
    pub rip: u64,
    pub rsp: u64,
    pub rax: u64,
}

/// The whole VMCB.
#[derive(Clone, Copy, Debug)]
pub struct RawVmcb {
    pub control_area: VmcbControlArea,
    pub state_save_area: VmcbStateSaveArea,
}

/// A VMCB and the frame it lives in.
pub struct Vmcb {
    pub frame: u64,
    pub raw: RawVmcb,
}

/// Intercept vector 1: HLT.
pub const INTERCEPT_HLT: u32 = 1u32 << 24u32;
/// Intercept vector 2: VMRUN.
pub const INTERCEPT_VMRUN: u32 = 1u32 << 0u32;
/// EFER.SVME.
pub const EFER_SVME: u64 = 1u64 << 12u64;

/// The segment `seg` of a state-save area.
pub open spec fn seg_of(a: VmcbStateSaveArea, seg: Segment) -> VmcbSegment {
    match seg {
        Segment::ES => a.es,
        Segment::CS => a.cs,
        Segment::SS => a.ss,
        Segment::DS => a.ds,
        Segment::FS => a.fs,
        Segment::GS => a.gs,
        Segment::GDTR => a.gdtr,
        Segment::LDTR => a.ldtr,
        Segment::IDTR => a.idtr,
        Segment::TR => a.tr,
    }
}

/// The state-save area with segment `seg` replaced.
pub open spec fn with_seg(a: VmcbStateSaveArea, seg: Segment, v: VmcbSegment) -> VmcbStateSaveArea {
    match seg {
        Segment::ES => VmcbStateSaveArea { es: v, ..a },
        Segment::CS => VmcbStateSaveArea { cs: v, ..a },
        Segment::SS => VmcbStateSaveArea { ss: v, ..a },
        Segment::DS => VmcbStateSaveArea { ds: v, ..a },
        Segment::FS => VmcbStateSaveArea { fs: v, ..a },
        Segment::GS => VmcbStateSaveArea { gs: v, ..a },
        Segment::GDTR => VmcbStateSaveArea { gdtr: v, ..a },
        Segment::LDTR => VmcbStateSaveArea { ldtr: v, ..a },
        Segment::IDTR => VmcbStateSaveArea { idtr: v, ..a },
        Segment::TR => VmcbStateSaveArea { tr: v, ..a },
    }
}

fn zero_segment() -> (r: VmcbSegment)
    ensures
        r == (VmcbSegment { selector: 0, attrib: 0, limit: 0, base: 0 }),
{
    VmcbSegment { selector: 0, attrib: 0, limit: 0, base: 0 }
}

impl Vmcb {
    /// Takes a frame for a VMCB whose fields are all zero.
    pub fn new(frame_allocator: &mut BitmapMemoryTable) -> (r: Result<Self, &'static str>)
        requires
            old(frame_allocator).wf(),
        ensures
            final(frame_allocator).wf(),
            r matches Ok(v) ==> v.frame % 4096 == 0 && v.raw.control_area.intercept_vec1 == 0
                && v.raw.control_area.guest_asid == 0,
            r matches Ok(v) ==> allocation_step(*old(frame_allocator), *final(frame_allocator), Some(v.frame)),
            r is Err ==> r == Err::<Vmcb, &'static str>("Failed to allocate VMCB frame") && allocation_step(
                *old(frame_allocator),
                *final(frame_allocator),
                None,
            ),
            r is Err <==> forall|g: int| !#[trigger] old(frame_allocator).available(g),
    {
        let frame = match frame_allocator.allocate_frame() {
            Some(f) => f,
            None => {
                return Err("Failed to allocate VMCB frame");
            },
        };
        let control_area = VmcbControlArea {
            intercept_cr_read: 0,
            intercept_cr_write: 0,
            intercept_dr_read: 0,
            intercept_dr_write: 0,
            intercept_exception: 0,
            intercept_vec1: 0,
            intercept_vec2: 0,
            intercept_vec3: 0,
            iopm_base_pa: 0,
            msrpm_base_pa: 0,
            tsc_offset: 0,
            guest_asid: 0,
            tlb_control: 0,
            exit_code: 0,
            nested_cr3: 0,
        };
        let state_save_area = VmcbStateSaveArea {
            es: zero_segment(),
            cs: zero_segment(),
            ss: zero_segment(),
            ds: zero_segment(),
            fs: zero_segment(),
            gs: zero_segment(),
            gdtr: zero_segment(),
            ldtr: zero_segment(),
            idtr: zero_segment(),
            tr: zero_segment(),
            cpl: 0,
            efer: 0,
            cr4: 0,
            cr3: 0,
            cr0: 0,
            dr7: 0,
            dr6: 0,
            rflags: 0,
            rip: 0,
            rsp: 0,
            rax: 0,
        };
        Ok(Vmcb { frame, raw: RawVmcb { control_area, state_save_area } })
    }
}

/// The host state an AMD guest starts from.
#[derive(Clone, Copy)]
pub struct AmdHostState {
    pub efer: u64,
    pub cr0: u64,
    pub cr3: u64,
    pub cr4: u64,
    pub cs_selector: u16,
}

/// The AMD VCPU.
pub struct AMDVCpu {
    pub vmcb: Vmcb,
}

/// Whether AMD-V can be used: CPUID 0x8000_0001 ECX bit 2 (SVM).
pub open spec fn svm_supported(ext_ecx: u32) -> bool {
    ext_ecx & 0x4 != 0
}

impl AMDVCpu {
    /// Builds the VCPU with a zeroed VMCB.
    pub fn new(frame_allocator: &mut BitmapMemoryTable) -> (r: Result<Self, &'static str>)
        requires
            old(frame_allocator).wf(),
        ensures
            final(frame_allocator).wf(),
            r is Err ==> forall|g: int| !#[trigger] final(frame_allocator).available(g),
            r is Err <==> forall|g: int| !#[trigger] old(frame_allocator).available(g),
    {
        match Vmcb::new(frame_allocator) {
            Ok(vmcb) => Ok(AMDVCpu { vmcb }),
            Err(e) => Err(e),
        }
    }

    /// Whether AMD-V can be used, from CPUID 0x8000_0001 ECX.
    pub fn is_supported(ext_ecx: u32) -> (r: bool)
        ensures
            r == svm_supported(ext_ecx),
    {
        ext_ecx & 0x4 != 0
    }

    /// EFER with SVME set, to be written before VMRUN.
    pub fn svme_efer(efer: u64) -> (r: u64)
        ensures
            r == efer | EFER_SVME,
    {
        efer | EFER_SVME
    }

    /// Sets the rights of segment `segment`, in the VMCB attribute format.
    pub fn set_segment_rights(&mut self, segment: Segment, rights: SegmentRights)
        ensures
            final(self).vmcb.raw.state_save_area == with_seg(
                old(self).vmcb.raw.state_save_area,
                segment,
                VmcbSegment { attrib: attrib_of(rights), ..seg_of(old(self).vmcb.raw.state_save_area, segment) },
            ),
            final(self).vmcb.raw.control_area == old(self).vmcb.raw.control_area,
            final(self).vmcb.frame == old(self).vmcb.frame,
    {
        let attrib = rights.to_amd_segment_attrib();
        let s = self.get_segment(segment);
        self.put_segment(segment, VmcbSegment { attrib, ..s });
    }

    /// Sets the base of segment `segment`.
    pub fn set_segment_base(&mut self, segment: Segment, base: u64)
        ensures
            final(self).vmcb.raw.state_save_area == with_seg(
                old(self).vmcb.raw.state_save_area,
                segment,
                VmcbSegment { base, ..seg_of(old(self).vmcb.raw.state_save_area, segment) },
            ),
            final(self).vmcb.raw.control_area == old(self).vmcb.raw.control_area,
            final(self).vmcb.frame == old(self).vmcb.frame,
    {
        let s = self.get_segment(segment);
        self.put_segment(segment, VmcbSegment { base, ..s });
    }

    /// Sets the limit of segment `segment`.
    pub fn set_segment_limit(&mut self, segment: Segment, limit: u32)
        ensures
            final(self).vmcb.raw.state_save_area == with_seg(
                old(self).vmcb.raw.state_save_area,
                segment,
                VmcbSegment { limit, ..seg_of(old(self).vmcb.raw.state_save_area, segment) },
            ),
            final(self).vmcb.raw.control_area == old(self).vmcb.raw.control_area,
            final(self).vmcb.frame == old(self).vmcb.frame,
    {
        let s = self.get_segment(segment);
        self.put_segment(segment, VmcbSegment { limit, ..s });
    }

    /// Sets the selector of segment `segment`.
    pub fn set_segment_selector(&mut self, segment: Segment, selector: u16)
        ensures
            final(self).vmcb.raw.state_save_area == with_seg(
                old(self).vmcb.raw.state_save_area,
                segment,
                VmcbSegment { selector, ..seg_of(old(self).vmcb.raw.state_save_area, segment) },
            ),
            final(self).vmcb.raw.control_area == old(self).vmcb.raw.control_area,
            final(self).vmcb.frame == old(self).vmcb.frame,
    {
        let s = self.get_segment(segment);
        self.put_segment(segment, VmcbSegment { selector, ..s });
    }

    /// Segment `segment` of the state-save area.
    pub fn get_segment(&self, segment: Segment) -> (r: VmcbSegment)
        ensures
            r == seg_of(self.vmcb.raw.state_save_area, segment),
    {
        let a = &self.vmcb.raw.state_save_area;
        match segment {
            Segment::ES => a.es,
            Segment::CS => a.cs,
            Segment::SS => a.ss,
            Segment::DS => a.ds,
            Segment::FS => a.fs,
            Segment::GS => a.gs,
            Segment::GDTR => a.gdtr,
            Segment::LDTR => a.ldtr,
            Segment::IDTR => a.idtr,
            Segment::TR => a.tr,
        }
    }

    fn put_segment(&mut self, segment: Segment, v: VmcbSegment)
        ensures
            final(self).vmcb.raw.state_save_area == with_seg(old(self).vmcb.raw.state_save_area, segment, v),
            final(self).vmcb.raw.control_area == old(self).vmcb.raw.control_area,
            final(self).vmcb.frame == old(self).vmcb.frame,
    {
        match segment {
            Segment::ES => self.vmcb.raw.state_save_area.es = v,
            Segment::CS => self.vmcb.raw.state_save_area.cs = v,
            Segment::SS => self.vmcb.raw.state_save_area.ss = v,
            Segment::DS => self.vmcb.raw.state_save_area.ds = v,
            Segment::FS => self.vmcb.raw.state_save_area.fs = v,
            Segment::GS => self.vmcb.raw.state_save_area.gs = v,
            Segment::GDTR => self.vmcb.raw.state_save_area.gdtr = v,
            Segment::LDTR => self.vmcb.raw.state_save_area.ldtr = v,
            Segment::IDTR => self.vmcb.raw.state_save_area.idtr = v,
            Segment::TR => self.vmcb.raw.state_save_area.tr = v,
        }
    }

    /// Prepares the VMCB: HLT and VMRUN intercepted, ASID 1, EFER and the
    /// control registers taken from the host, RIP at `guest_rip`, RFLAGS
    /// with only its always-set bit 1, and the guest's segments set up.
    pub fn setup(&mut self, host: AmdHostState, guest_rip: u64)
        ensures
            final(self).vmcb.raw.control_area.intercept_vec1 == old(self).vmcb.raw.control_area.intercept_vec1
                | INTERCEPT_HLT,
            final(self).vmcb.raw.control_area.intercept_vec2 == old(self).vmcb.raw.control_area.intercept_vec2
                | INTERCEPT_VMRUN,
            final(self).vmcb.raw.control_area.guest_asid == 1,
            final(self).vmcb.raw.state_save_area.efer == host.efer,
            final(self).vmcb.raw.state_save_area.rip == guest_rip,
            final(self).vmcb.raw.state_save_area.rflags == 0x2,
            final(self).vmcb.raw.state_save_area.cr0 == host.cr0,
            final(self).vmcb.raw.state_save_area.cr3 == host.cr3,
            final(self).vmcb.raw.state_save_area.cr4 == host.cr4,
            final(self).vmcb.raw.state_save_area.cs == (VmcbSegment {
                selector: host.cs_selector,
                attrib: attrib_of(cs_rights()),
                limit: 0xFFFF_FFFF,
                base: 0,
            }),
            final(self).vmcb.raw.state_save_area.ds == (VmcbSegment {
                selector: 0,
                attrib: attrib_of(ds_rights()),
                limit: 0xFFFF_FFFF,
                base: 0,
            }),
            final(self).vmcb.raw.state_save_area.tr == (VmcbSegment {
                selector: 0,
                attrib: attrib_of(tr_rights()),
                limit: 0,
                base: 0,
            }),
            final(self).vmcb.raw.state_save_area.ldtr == (VmcbSegment {
                selector: 0,
                attrib: attrib_of(ldtr_rights()),
                limit: 0,
                base: 0xDEAD00,
            }),
    {
        self.vmcb.raw.control_area.intercept_vec1 = self.vmcb.raw.control_area.intercept_vec1 | INTERCEPT_HLT;
        self.vmcb.raw.control_area.intercept_vec2 = self.vmcb.raw.control_area.intercept_vec2 | INTERCEPT_VMRUN;
        self.vmcb.raw.control_area.guest_asid = 1;
        self.vmcb.raw.state_save_area.efer = host.efer;
        self.vmcb.raw.state_save_area.rip = guest_rip;
        self.vmcb.raw.state_save_area.rflags = 0x2;
        self.vmcb.raw.state_save_area.cr0 = host.cr0;
        self.vmcb.raw.state_save_area.cr3 = host.cr3;
        self.vmcb.raw.state_save_area.cr4 = host.cr4;
        setup_segments(self, host.cs_selector);
    }
}

/// Segment `i` of the state-save area, in VMCB order.
pub open spec fn seg_at(a: VmcbStateSaveArea, i: int) -> VmcbSegment {
    if i == 0 { a.es }
    else if i == 1 { a.cs }
    else if i == 2 { a.ss }
    else if i == 3 { a.ds }
    else if i == 4 { a.fs }
    else if i == 5 { a.gs }
    else if i == 6 { a.gdtr }
    else if i == 7 { a.ldtr }
    else if i == 8 { a.idtr }
    else { a.tr }
}

/// Segment `i` of the state-save area sits at `0x400 + 16 i` in `b`:
/// selector, attribute, limit, base.
pub open spec fn segment_bytes_ok(b: Seq<u8>, seg: VmcbSegment, off: int) -> bool {
    &&& le_u16(b, off) == seg.selector as int
    &&& le_u16(b, off + 2) == seg.attrib as int
    &&& le_u32(b, off + 4) == seg.limit as int
    &&& le_u64(b, off + 8) == seg.base as int
}

fn put_segment(bytes: &mut Vec<u8>, off: usize, seg: VmcbSegment)
    requires
        off + 16 <= old(bytes)@.len(),
        off <= 0x1000,
    ensures
        final(bytes)@.len() == old(bytes)@.len(),
        forall|j: int| 0 <= j < old(bytes)@.len() && !(off <= j < off + 16) ==> #[trigger] final(bytes)@[j] == old(bytes)@[j],
        segment_bytes_ok(final(bytes)@, seg, off as int),
{
    put_u16(bytes, off, seg.selector);
    let ghost b1 = bytes@;
    put_u16(bytes, off + 2, seg.attrib);
    let ghost b2 = bytes@;
    put_u32(bytes, off + 4, seg.limit);
    let ghost b3 = bytes@;
    put_u64(bytes, off + 8, seg.base);
    assert(le_u16(bytes@, off as int) == le_u16(b1, off as int));
    assert(le_u16(bytes@, off + 2) == le_u16(b2, off + 2));
    assert(le_u32(bytes@, off + 4) == le_u32(b3, off + 4));
}

impl Vmcb {
    /// The VMCB as the processor reads it from its frame (AMD64 APM Vol. 2,
    /// B.1): the intercept vectors at 0x00C, 0x010 and 0x014, the ASID at
    /// 0x058, the ten segments from 0x400, EFER at 0x4D0, CR4, CR3 and CR0
    /// at 0x548, 0x550 and 0x558, RFLAGS at 0x570 and RIP at 0x578.
    pub fn to_bytes(&self) -> (r: Vec<u8>)
        ensures
            r@.len() == 4096,
            le_u32(r@, 0x00C) == self.raw.control_area.intercept_vec1,
            le_u32(r@, 0x010) == self.raw.control_area.intercept_vec2,
            le_u32(r@, 0x014) == self.raw.control_area.intercept_vec3,
            le_u32(r@, 0x058) == self.raw.control_area.guest_asid,
            forall|i: int| 0 <= i < 10 ==> #[trigger] segment_bytes_ok(r@, seg_at(self.raw.state_save_area, i), 0x400 + 16 * i),
            le_u64(r@, 0x4D0) == self.raw.state_save_area.efer,
            le_u64(r@, 0x548) == self.raw.state_save_area.cr4,
            le_u64(r@, 0x550) == self.raw.state_save_area.cr3,
            le_u64(r@, 0x558) == self.raw.state_save_area.cr0,
            le_u64(r@, 0x570) == self.raw.state_save_area.rflags,
            le_u64(r@, 0x578) == self.raw.state_save_area.rip,
    {
        let c = &self.raw.control_area;
        let a = &self.raw.state_save_area;
        let mut b = vec![0u8; 4096];
        put_u32(&mut b, 0x00C, c.intercept_vec1);
        let ghost b1 = b@;
        put_u32(&mut b, 0x010, c.intercept_vec2);
        let ghost b2 = b@;
        put_u32(&mut b, 0x014, c.intercept_vec3);
        let ghost b3 = b@;
        put_u32(&mut b, 0x058, c.guest_asid);
        let ghost low = b@;
        assert(le_u32(low, 0x00C) == le_u32(b1, 0x00C));
        assert(le_u32(low, 0x010) == le_u32(b2, 0x010));
        assert(le_u32(low, 0x014) == le_u32(b3, 0x014));
        let segs = [a.es, a.cs, a.ss, a.ds, a.fs, a.gs, a.gdtr, a.ldtr, a.idtr, a.tr];
        let mut i: usize = 0;
        while i < 10
            invariant
                i <= 10,
                b@.len() == 4096,
                segs@ == seq![a.es, a.cs, a.ss, a.ds, a.fs, a.gs, a.gdtr, a.ldtr, a.idtr, a.tr],
                forall|j: int| 0 <= j < 0x400 ==> #[trigger] b@[j] == low[j],
                forall|j: int| 0x400 + 16 * i <= j < 4096 ==> #[trigger] b@[j] == low[j],
                forall|k: int| 0 <= k < i ==> #[trigger] segment_bytes_ok(b@, seg_at(*a, k), 0x400 + 16 * k),
            decreases 10 - i,
        {
            let ghost pre = b@;
            put_segment(&mut b, 0x400 + 16 * i, segs[i]);
            assert forall|k: int| 0 <= k < i + 1 implies #[trigger] segment_bytes_ok(b@, seg_at(*a, k), 0x400 + 16 * k) by {
                if k < i {
                    assert(segment_bytes_ok(pre, seg_at(*a, k), 0x400 + 16 * k));
                    let o = 0x400 + 16 * k;
                    assert(forall|j: int| o <= j < o + 16 ==> b@[j] == pre[j]);
                }
            }
            i = i + 1;
        }
        let ghost mid = b@;
        put_u64(&mut b, 0x4D0, a.efer);
        let ghost s1 = b@;
        put_u64(&mut b, 0x548, a.cr4);
        let ghost s2 = b@;
        put_u64(&mut b, 0x550, a.cr3);
        let ghost s3 = b@;
        put_u64(&mut b, 0x558, a.cr0);
        let ghost s4 = b@;
        put_u64(&mut b, 0x570, a.rflags);
        let ghost s5 = b@;
        put_u64(&mut b, 0x578, a.rip);
        assert forall|j: int| 0 <= j < 0x4A0 implies #[trigger] b@[j] == mid[j] by {}
        assert forall|k: int| 0 <= k < 10 implies #[trigger] segment_bytes_ok(b@, seg_at(*a, k), 0x400 + 16 * k) by {
            assert(segment_bytes_ok(mid, seg_at(*a, k), 0x400 + 16 * k));
        }
        assert(le_u32(b@, 0x00C) == le_u32(low, 0x00C));
        assert(le_u32(b@, 0x010) == le_u32(low, 0x010));
        assert(le_u32(b@, 0x014) == le_u32(low, 0x014));
        assert(le_u32(b@, 0x058) == le_u32(low, 0x058));
        assert(le_u64(b@, 0x4D0) == le_u64(s1, 0x4D0));
        assert(le_u64(b@, 0x548) == le_u64(s2, 0x548));
        assert(le_u64(b@, 0x550) == le_u64(s3, 0x550));
        assert(le_u64(b@, 0x558) == le_u64(s4, 0x558));
        assert(le_u64(b@, 0x570) == le_u64(s5, 0x570));
        b
    }
}

/// The VMCB exit code of HLT.
pub const VMEXIT_HLT: u64 = 0x78;

impl AMDVCpu {
    /// Handles a #VMEXIT with exit code `exit_code`: after HLT the guest
    /// resumes at the next instruction (HLT is one byte long); every other
    /// exit is fatal and leaves the VMCB alone.
    pub fn handle_exit(&mut self, exit_code: u64) -> (r: Result<(), &'static str>)
        ensures
            exit_code == VMEXIT_HLT ==> r is Ok && final(self).vmcb.raw.state_save_area == (VmcbStateSaveArea {
                rip: ((old(self).vmcb.raw.state_save_area.rip + 1) % 0x1_0000_0000_0000_0000) as u64,
                ..old(self).vmcb.raw.state_save_area
            }) && final(self).vmcb.raw.control_area == old(self).vmcb.raw.control_area && final(self).vmcb.frame
                == old(self).vmcb.frame,
            exit_code != VMEXIT_HLT ==> r is Err && *final(self) == *old(self),
    {
        if exit_code == VMEXIT_HLT {
            let rip = self.vmcb.raw.state_save_area.rip;
            self.vmcb.raw.state_save_area.rip = if rip == u64::MAX {
                0
            } else {
                rip + 1
            };
            Ok(())
        } else {
            Err("Unhandled VM exit reason")
        }
    }
}

/// The rights of the guest's code segment: 64-bit code, 4 KiB granularity.
pub open spec fn cs_rights() -> SegmentRights {
    SegmentRights {
        accessed: true,
        rw: true,
        dc: false,
        executable: true,
        desc_type: DescriptorType::Code,
        dpl: 0,
        present: true,
        avl: false,
        long: true,
        db: false,
        granularity: Granularity::KByte,
    }
}

/// The rights of the guest's data segments: 32-bit data, 4 KiB granularity.
pub open spec fn ds_rights() -> SegmentRights {
    SegmentRights {
        accessed: true,
        rw: true,
        dc: false,
        executable: false,
        desc_type: DescriptorType::Code,
        dpl: 0,
        present: true,
        avl: false,
        long: false,
        db: true,
        granularity: Granularity::KByte,
    }
}

/// The rights of the guest's task register.
pub open spec fn tr_rights() -> SegmentRights {
    SegmentRights {
        accessed: true,
        rw: true,
        dc: false,
        executable: true,
        desc_type: DescriptorType::System,
        dpl: 0,
        present: true,
        avl: false,
        long: false,
        db: false,
        granularity: Granularity::Byte,
    }
}

/// The rights of the guest's LDTR.
pub open spec fn ldtr_rights() -> SegmentRights {
    SegmentRights {
        accessed: false,
        rw: true,
        dc: false,
        executable: false,
        desc_type: DescriptorType::System,
        dpl: 0,
        present: true,
        avl: false,
        long: false,
        db: false,
        granularity: Granularity::Byte,
    }
}

/// Sets up the guest's segments: flat 4 GiB code (64-bit) and data
/// segments, a task register and an LDTR, all bases 0 but the LDTR's, and
/// every selector 0 but CS, which gets `cs_selector`.
pub fn setup_segments(vcpu: &mut AMDVCpu, cs_selector: u16)
    ensures
        final(vcpu).vmcb.raw.control_area == old(vcpu).vmcb.raw.control_area,
        final(vcpu).vmcb.frame == old(vcpu).vmcb.frame,
        ({
            let a = final(vcpu).vmcb.raw.state_save_area;
            let o = old(vcpu).vmcb.raw.state_save_area;
            &&& a.cs == (VmcbSegment { selector: cs_selector, attrib: attrib_of(cs_rights()), limit: 0xFFFF_FFFF, base: 0 })
            &&& a.ds == (VmcbSegment { selector: 0, attrib: attrib_of(ds_rights()), limit: 0xFFFF_FFFF, base: 0 })
            &&& a.tr == (VmcbSegment { selector: 0, attrib: attrib_of(tr_rights()), limit: 0, base: 0 })
            &&& a.ldtr == (VmcbSegment { selector: 0, attrib: attrib_of(ldtr_rights()), limit: 0, base: 0xDEAD00 })
            &&& a.es == (VmcbSegment { selector: 0, limit: 0xFFFF_FFFF, base: 0, ..o.es })
            &&& a.fs == (VmcbSegment { selector: 0, limit: 0xFFFF_FFFF, base: 0, ..o.fs })
            &&& a.gs == (VmcbSegment { selector: 0, limit: 0xFFFF_FFFF, base: 0, ..o.gs })
            &&& a.ss == (VmcbSegment { selector: 0, limit: 0xFFFF_FFFF, base: 0, ..o.ss })
            &&& a.gdtr == (VmcbSegment { limit: 0, base: 0, ..o.gdtr })
            &&& a.idtr == (VmcbSegment { limit: 0, base: 0, ..o.idtr })
            &&& a.efer == o.efer && a.rip == o.rip && a.rflags == o.rflags && a.cr0 == o.cr0 && a.cr3 == o.cr3 && a.cr4 == o.cr4
        }),
{
    let cs_right = SegmentRights {
        accessed: true,
        rw: true,
        dc: false,
        executable: true,
        desc_type: DescriptorType::Code,
        dpl: 0,
        present: true,
        avl: false,
        long: true,
        db: false,
        granularity: Granularity::KByte,
    };
    vcpu.set_segment_rights(Segment::CS, cs_right);
    let ds_right = SegmentRights {
        accessed: true,
        rw: true,
        dc: false,
        executable: false,
        desc_type: DescriptorType::Code,
        dpl: 0,
        present: true,
        avl: false,
        long: false,
        db: true,
        granularity: Granularity::KByte,
    };
    vcpu.set_segment_rights(Segment::DS, ds_right);
    let tr_right = SegmentRights {
        accessed: true,
        rw: true,
        dc: false,
        executable: true,
        desc_type: DescriptorType::System,
        dpl: 0,
        present: true,
        avl: false,
        long: false,
        db: false,
        granularity: Granularity::Byte,
    };
    vcpu.set_segment_rights(Segment::TR, tr_right);
    let ldtr_right = SegmentRights {
        accessed: false,
        rw: true,
        dc: false,
        executable: false,
        desc_type: DescriptorType::System,
        dpl: 0,
        present: true,
        avl: false,
        long: false,
        db: false,
        granularity: Granularity::Byte,
    };
    vcpu.set_segment_rights(Segment::LDTR, ldtr_right);

    vcpu.set_segment_base(Segment::CS, 0);
    vcpu.set_segment_base(Segment::DS, 0);
    vcpu.set_segment_base(Segment::ES, 0);
    vcpu.set_segment_base(Segment::FS, 0);
    vcpu.set_segment_base(Segment::GS, 0);
    vcpu.set_segment_base(Segment::SS, 0);
    vcpu.set_segment_base(Segment::TR, 0);
    vcpu.set_segment_base(Segment::GDTR, 0);
    vcpu.set_segment_base(Segment::IDTR, 0);
    vcpu.set_segment_base(Segment::LDTR, 0xDEAD00);

    vcpu.set_segment_limit(Segment::CS, u32::MAX);
    vcpu.set_segment_limit(Segment::DS, u32::MAX);
    vcpu.set_segment_limit(Segment::ES, u32::MAX);
    vcpu.set_segment_limit(Segment::FS, u32::MAX);
    vcpu.set_segment_limit(Segment::GS, u32::MAX);
    vcpu.set_segment_limit(Segment::SS, u32::MAX);
    vcpu.set_segment_limit(Segment::TR, 0);
    vcpu.set_segment_limit(Segment::GDTR, 0);
    vcpu.set_segment_limit(Segment::IDTR, 0);
    vcpu.set_segment_limit(Segment::LDTR, 0);

    vcpu.set_segment_selector(Segment::CS, cs_selector);
    vcpu.set_segment_selector(Segment::DS, 0);
    vcpu.set_segment_selector(Segment::ES, 0);
    vcpu.set_segment_selector(Segment::FS, 0);
    vcpu.set_segment_selector(Segment::GS, 0);
    vcpu.set_segment_selector(Segment::SS, 0);
    vcpu.set_segment_selector(Segment::TR, 0);
    vcpu.set_segment_selector(Segment::LDTR, 0);
}

} // verus!
