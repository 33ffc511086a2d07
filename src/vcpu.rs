//! The Intel VCPU: its state, and what it does on each VM exit.
use vstd::prelude::*;

use crate::cpuid::{cpuid_answer, handle_cpuid_vmexit, CpuidResult};
use crate::cr::{cr_access_outcome, handle_cr_access, CrState, FixedBits, QualCr};
use crate::ept::{ADDR_MASK, lemma_index_bounds, lemma_region_indices, linked, lv1_index, lv2_index, lv3_index, lv4_index, EPT, EPTP};
use crate::io::{command_ok, is_known_command, pic_after_out, pic_port, io_in_value, QualIo, IOBitmap, PIC};
use crate::msr::{
    concat_spec, entry_for, msr_read_policy, msr_write_policy, read_msr_outcome, read_msr_source, MsrRead,
    MsrWrite, SavedMsr, ShadowMsr, pos_of,
};
use crate::regs::GuestRegisters;
use crate::err::{instruction_error_of, instruction_error_text, InstructionError};
use crate::memory::BitmapMemoryTable;
use crate::table::MAX_TABLES;
use crate::vmx::{Vmcs, Vmxon};

verus! {

/// The basic exit reasons the dispatcher tells apart.
#[derive(Debug, Clone, Copy, PartialEq, Eq, Structural)]
pub enum VmxExitReason {
    Exception,
    TripleFault,
    Cpuid,
    Hlt,
    CrAccess,
    Io,
    Rdmsr,
    Wrmsr,
    EptViolation,
    Other(u16),
}

/// The exit reason with basic number `v`.
pub open spec fn exit_reason_of(v: u16) -> VmxExitReason {
    if v == 0 {
        VmxExitReason::Exception
    } else if v == 2 {
        VmxExitReason::TripleFault
    } else if v == 10 {
        VmxExitReason::Cpuid
    } else if v == 12 {
        VmxExitReason::Hlt
    } else if v == 28 {
        VmxExitReason::CrAccess
    } else if v == 30 {
        VmxExitReason::Io
    } else if v == 31 {
        VmxExitReason::Rdmsr
    } else if v == 32 {
        VmxExitReason::Wrmsr
    } else if v == 48 {
        VmxExitReason::EptViolation
    } else {
        VmxExitReason::Other(v)
    }
}

impl VmxExitReason {
    /// The exit reason with basic number `v`.
    pub fn from_basic(v: u16) -> (r: Self)
        ensures
            r == exit_reason_of(v),
    {
        match v {
            0 => VmxExitReason::Exception,
            2 => VmxExitReason::TripleFault,
            10 => VmxExitReason::Cpuid,
            12 => VmxExitReason::Hlt,
            28 => VmxExitReason::CrAccess,
            30 => VmxExitReason::Io,
            31 => VmxExitReason::Rdmsr,
            32 => VmxExitReason::Wrmsr,
            48 => VmxExitReason::EptViolation,
            _ => VmxExitReason::Other(v),
        }
    }
}

/// What the processor reports about one VM exit.
#[derive(Clone, Copy)]
pub struct ExitInfo {
    /// The exit-reason field; bit 31 marks a failed VM entry.
    pub reason: u32,
    /// The exit qualification.
    pub qualification: u64,
    /// The length of the instruction that caused the exit.
    pub instruction_len: u64,
    /// The time-stamp counter, for an RDMSR of it.
    pub tsc: u64,
}

/// The guest-state fields of the VMCS that exit handling reads and writes.
#[derive(Clone, Copy)]
pub struct GuestVmcs {
    pub rip: u64,
    pub cr: CrState,
    pub fs_base: u64,
    pub gs_base: u64,
    pub sysenter_cs: u64,
    pub sysenter_esp: u64,
    pub sysenter_eip: u64,
}

/// The value of guest field `f` (the control registers and EFER through
/// `cr`).
pub open spec fn field_value(g: GuestVmcs, f: u32) -> u64 {
    if f == 0x2806 {
        g.cr.efer
    } else if f == 0x680E {
        g.fs_base
    } else if f == 0x6810 {
        g.gs_base
    } else if f == 0x482A {
        g.sysenter_cs
    } else if f == 0x6824 {
        g.sysenter_esp
    } else if f == 0x6826 {
        g.sysenter_eip
    } else {
        0
    }
}

/// The guest fields with field `f` set to `v`.
pub open spec fn with_field(g: GuestVmcs, f: u32, v: u64) -> GuestVmcs {
    if f == 0x2806 {
        GuestVmcs { cr: CrState { efer: v, ..g.cr }, ..g }
    } else if f == 0x680E {
        GuestVmcs { fs_base: v, ..g }
    } else if f == 0x6810 {
        GuestVmcs { gs_base: v, ..g }
    } else if f == 0x482A {
        GuestVmcs { sysenter_cs: v, ..g }
    } else if f == 0x6824 {
        GuestVmcs { sysenter_esp: v, ..g }
    } else if f == 0x6826 {
        GuestVmcs { sysenter_eip: v, ..g }
    } else {
        g
    }
}

impl GuestVmcs {
    /// The value of guest field `f`.
    pub fn read_field(&self, f: u32) -> (r: u64)
        ensures
            r == field_value(*self, f),
    {
        if f == 0x2806 {
            self.cr.efer
        } else if f == 0x680E {
            self.fs_base
        } else if f == 0x6810 {
            self.gs_base
        } else if f == 0x482A {
            self.sysenter_cs
        } else if f == 0x6824 {
            self.sysenter_esp
        } else if f == 0x6826 {
            self.sysenter_eip
        } else {
            0
        }
    }

    /// Sets guest field `f` to `v`.
    pub fn write_field(&mut self, f: u32, v: u64)
        ensures
            *final(self) == with_field(*old(self), f, v),
    {
        if f == 0x2806 {
            self.cr.efer = v;
        } else if f == 0x680E {
            self.fs_base = v;
        } else if f == 0x6810 {
            self.gs_base = v;
        } else if f == 0x482A {
            self.sysenter_cs = v;
        } else if f == 0x6824 {
            self.sysenter_esp = v;
        } else if f == 0x6826 {
            self.sysenter_eip = v;
        }
    }
}

/// RIP advanced past an instruction of `len` bytes, wrapping at 2^64.
pub open spec fn next_rip(rip: u64, len: u64) -> u64 {
    ((rip + len) % 0x1_0000_0000_0000_0000) as u64
}

/// The guest fields with RIP moved past an instruction of `len` bytes.
pub open spec fn stepped(g: GuestVmcs, len: u64) -> GuestVmcs {
    GuestVmcs { rip: next_rip(g.rip, len), ..g }
}

/// The frame guest address `g` lands in.
pub open spec fn frame_of(e: EPT, g: u64) -> int {
    e.translate(g).unwrap() as int / 4096
}

/// `g` translates, at its own page offset, into a frame that was free in
/// `a0` and is in use in `a`.
pub open spec fn backed(e: EPT, g: u64, a0: BitmapMemoryTable, a: BitmapMemoryTable) -> bool {
    e.translate(g) matches Some(x) && x as int % 4096 == g as int % 4096 && a0.is_free(x as int / 4096) && !a.is_free(
        x as int / 4096,
    )
}

/// A page-aligned frame address with the page offset of `g` lies in that
/// frame at that offset.
pub proof fn lemma_page_of(hpa: u64, g: u64)
    requires
        hpa % 4096 == 0,
    ensures
        ((hpa & ADDR_MASK) | (g & 0xFFF)) as int / 4096 == hpa as int / 4096,
        ((hpa & ADDR_MASK) | (g & 0xFFF)) as int % 4096 == g as int % 4096,
{
    let x = (hpa & ADDR_MASK) | (g & 0xFFF);
    assert(x / 4096 == hpa / 4096 && x % 4096 == g % 4096) by (bit_vector)
        requires
            hpa % 4096 == 0,
            x == (hpa & 0xFFFF_FFFF_FFFF_F000) | (g & 0xFFF),
    ;
}

/// `t` is `s`, the guest MSR area holding the same entries.
pub open spec fn unchanged(s: IntelVCpu, t: IntelVCpu) -> bool {
    t == (IntelVCpu { guest_msr: t.guest_msr, ..s }) && t.guest_msr.ents@ == s.guest_msr.ents@
}

/// What handling exit `exit` does, for an exit that is not a failed VM
/// entry: `s` and `g` before, `t` and `h` after, `r` the result.
pub open spec fn exit_outcome(
    s: IntelVCpu,
    g: GuestVmcs,
    exit: ExitInfo,
    t: IntelVCpu,
    h: GuestVmcs,
    r: Result<(), &'static str>,
) -> bool {
    let regs = s.guest_registers;
    let len = exit.instruction_len;
    &&& r is Err ==> unchanged(s, t) && h == g
    &&& match exit_reason_of((exit.reason & 0xFFFF) as u16) {
        VmxExitReason::Hlt => r is Ok && h == stepped(g, len) && unchanged(s, t),
        VmxExitReason::Cpuid => exists|h1: CpuidResult, hx: CpuidResult|
            match #[trigger] cpuid_answer(regs.rax, regs.rcx, h1, hx) {
                Some((a, b, c, d)) => r is Ok && t == (IntelVCpu {
                    guest_registers: regs.with_abcd(a, b, c, d),
                    ..s
                }) && h == stepped(g, len),
                None => r is Err,
            },
        VmxExitReason::Rdmsr => {
            let fetched = match msr_read_policy(regs.rcx as u32) {
                MsrRead::GuestField(f) => field_value(g, f),
                _ => exit.tsc,
            };
            match read_msr_outcome(regs, s.guest_msr, fetched) {
                Some(after) => r is Ok && t == (IntelVCpu { guest_registers: after, ..s }) && h == stepped(g, len),
                None => r is Err,
            }
        },
        VmxExitReason::Wrmsr => {
            let value = concat_spec(regs.rdx, regs.rax);
            let index = regs.rcx as u32;
            match msr_write_policy(index) {
                MsrWrite::GuestField(f) => r is Ok && unchanged(s, t) && h == stepped(with_field(g, f, value), len),
                MsrWrite::Efer => r is Ok && unchanged(s, t) && h == if value == 0xd01 || value == 0x100 {
                    stepped(with_field(g, 0x2806, value), len)
                } else {
                    stepped(g, len)
                },
                MsrWrite::Shadow => match entry_for(s.guest_msr.ents@, index) {
                    Some(e) => {
                        &&& r is Ok
                        &&& entry_for(t.guest_msr.ents@, index) == Some(SavedMsr { data: value, ..e })
                        &&& forall|i: int|
                            pos_of(s.guest_msr.ents@, index, i) ==> t.guest_msr.ents@ == s.guest_msr.ents@.update(
                                i,
                                SavedMsr { data: value, ..s.guest_msr.ents@[i] },
                            )
                        &&& t == (IntelVCpu { guest_msr: t.guest_msr, ..s })
                        &&& h == stepped(g, len)
                    },
                    None => r is Err,
                },
                MsrWrite::Unhandled => r is Err,
            }
        },
        VmxExitReason::Io => {
            let port = ((exit.qualification >> 16u64) & 0xFFFF) as u16;
            if (exit.qualification >> 3u64) & 1 == 0 {
                if !command_ok(port, regs.rax as u8) {
                    r is Err
                } else {
                    r is Ok && h == stepped(g, len) && t == (IntelVCpu {
                        pic: if pic_port(port) {
                            pic_after_out(s.pic, port, regs.rax as u8).unwrap()
                        } else {
                            s.pic
                        },
                        ..s
                    })
                }
            } else {
                r is Ok && h == stepped(g, len) && t == (IntelVCpu {
                    guest_registers: GuestRegisters { rax: io_in_value(s.pic, port, regs.rax), ..regs },
                    ..s
                })
            }
        },
        VmxExitReason::CrAccess => match cr_access_outcome(regs, g.cr, s.fixed, exit.qualification) {
            Some((after, cr)) => r is Ok && t == (IntelVCpu { guest_registers: after, ..s }) && h == stepped(
                GuestVmcs { cr, ..g },
                len,
            ),
            None => r is Err,
        },
        _ => r is Err,
    }
}

/// Bytes of memory a guest gets.
pub const GUEST_MEMORY_SIZE: u64 = 0x1000_0000;

/// The Intel VCPU.
pub struct IntelVCpu {
    pub launch_done: bool,
    pub guest_registers: GuestRegisters,
    pub activated: bool,
    pub vmxon: Vmxon,
    pub vmcs: Vmcs,
    pub ept: EPT,
    pub eptp: EPTP,
    pub guest_memory_size: u64,
    pub host_msr: ShadowMsr,
    pub guest_msr: ShadowMsr,
    pub pic: PIC,
    pub io_bitmap: IOBitmap,
    /// The CR0 and CR4 bits that VMX operation fixes on this processor.
    pub fixed: FixedBits,
    /// The guest's XCR0.
    pub guest_xcr0: u64,
}

impl IntelVCpu {
    pub open spec fn wf(&self) -> bool {
        &&& self.ept.wf()
        &&& self.host_msr.wf()
        &&& self.guest_msr.wf()
    }

    /// Builds the VCPU: the VMXON and VMCS regions, an empty EPT, the I/O
    /// bitmaps, the stub PIC and empty MSR areas; 256 MiB of guest memory.
    pub fn new(frame_allocator: &mut BitmapMemoryTable, fixed: FixedBits) -> (r: Result<Self, &'static str>)
        requires
            old(frame_allocator).wf(),
        ensures
            final(frame_allocator).wf(),
            r matches Ok(v) ==> {
                &&& v.wf()
                &&& !v.launch_done && !v.activated
                &&& v.guest_memory_size == GUEST_MEMORY_SIZE
                &&& v.host_msr.ents@.len() == 0 && v.guest_msr.ents@.len() == 0
                &&& v.pic == PIC::new_spec()
                &&& v.ept.tree_ok()
                &&& v.ept.tables_in_use(*final(frame_allocator))
                &&& v.ept.lv3.addrs@.len() == 0 && v.ept.lv2.addrs@.len() == 0 && v.ept.lv1.addrs@.len() == 0
                &&& forall|gpa: u64| #[trigger] v.ept.translate(gpa) is None
            },
            r is Err ==> forall|g: int| !#[trigger] final(frame_allocator).available(g),
    {
        let vmxon = match Vmxon::new(frame_allocator) {
            Ok(v) => v,
            Err(e) => {
                return Err(e);
            },
        };
        let vmcs = match Vmcs::new(frame_allocator) {
            Ok(v) => v,
            Err(e) => {
                return Err(e);
            },
        };
        let ept = match EPT::new(frame_allocator) {
            Ok(v) => v,
            Err(e) => {
                return Err(e);
            },
        };
        let io_bitmap = match IOBitmap::new(frame_allocator) {
            Ok(v) => v,
            Err(e) => {
                return Err(e);
            },
        };
        let eptp = EPTP::init(ept.root_table);
        Ok(IntelVCpu {
            launch_done: false,
            guest_registers: GuestRegisters::new(),
            activated: false,
            vmxon,
            vmcs,
            ept,
            eptp,
            guest_memory_size: GUEST_MEMORY_SIZE,
            host_msr: ShadowMsr::new(),
            guest_msr: ShadowMsr::new(),
            pic: PIC::new(),
            io_bitmap,
            fixed,
            guest_xcr0: 1,
        })
    }

    /// Whether VT-x can be used: CPUID leaf 1 reports VMX (ECX bit 5), and
    /// IA32_FEATURE_CONTROL is not locked with VMX outside SMX disabled.
    pub fn is_supported(leaf1_ecx: u32, feature_control: u64) -> (r: bool)
        ensures
            r == (leaf1_ecx & 0x20 != 0 && !(feature_control & 0x4 == 0 && feature_control & 1 != 0)),
    {
        if leaf1_ecx & 0x20 == 0 {
            return false;
        }
        if feature_control & 0x4 == 0 && feature_control & 1 != 0 {
            return false;
        }
        true
    }

    /// Bytes of guest memory.
    pub fn get_guest_memory_size(&self) -> (r: u64)
        ensures
            r == self.guest_memory_size,
    {
        self.guest_memory_size
    }

    /// Backs the guest's memory: each 4 KiB guest page below
    /// `guest_memory_size` gets a host frame of its own through the EPT, and
    /// every guest address below the last whole page then translates.
    pub fn init_guest_memory(&mut self, frame_allocator: &mut BitmapMemoryTable) -> (r: Result<(), &'static str>)
        requires
            old(self).wf(),
            old(frame_allocator).wf(),
            old(self).ept.tree_ok(),
            old(self).ept.tables_in_use(*old(frame_allocator)),
            old(self).guest_memory_size <= 0x1_0000_0000_0000,
            old(self).ept.lv3.addrs@.len() + old(self).guest_memory_size / 0x1000 < MAX_TABLES,
            old(self).ept.lv2.addrs@.len() + old(self).guest_memory_size / 0x1000 < MAX_TABLES,
            old(self).ept.lv1.addrs@.len() + old(self).guest_memory_size / 0x1000 < MAX_TABLES,
        ensures
            final(self).wf(),
            final(frame_allocator).wf(),
            final(self).guest_memory_size == old(self).guest_memory_size,
            r is Err ==> forall|f: int| !#[trigger] final(frame_allocator).available(f),
            r is Ok ==> forall|g: u64|
                g < final(self).guest_memory_size / 0x1000 * 0x1000 ==> #[trigger] backed(
                    final(self).ept,
                    g,
                    *old(frame_allocator),
                    *final(frame_allocator),
                ),
            r is Ok ==> forall|g1: u64, g2: u64|
                g1 < final(self).guest_memory_size / 0x1000 * 0x1000 && g2 < final(self).guest_memory_size / 0x1000
                    * 0x1000 && g1 / 0x1000 != g2 / 0x1000 ==> #[trigger] frame_of(final(self).ept, g1)
                    != #[trigger] frame_of(final(self).ept, g2),
    {
        let pages = self.guest_memory_size / 0x1000;
        let mut k: u64 = 0;
        while k < pages
            invariant
                self.wf(),
                frame_allocator.wf(),
                self.guest_memory_size == old(self).guest_memory_size,
                self.guest_memory_size <= 0x1_0000_0000_0000,
                pages == self.guest_memory_size / 0x1000,
                k <= pages,
                self.ept.tree_ok(),
                self.ept.tables_in_use(*frame_allocator),
                self.ept.lv3.addrs@.len() + (pages - k) < MAX_TABLES,
                self.ept.lv2.addrs@.len() + (pages - k) < MAX_TABLES,
                self.ept.lv1.addrs@.len() + (pages - k) < MAX_TABLES,
                forall|f: int| #[trigger] frame_allocator.is_free(f) ==> old(frame_allocator).is_free(f),
                forall|g: u64| g < k * 0x1000 ==> #[trigger] backed(self.ept, g, *old(frame_allocator), *frame_allocator),
                forall|g1: u64, g2: u64|
                    g1 < k * 0x1000 && g2 < k * 0x1000 && g1 / 0x1000 != g2 / 0x1000 ==> #[trigger] frame_of(self.ept, g1)
                        != #[trigger] frame_of(self.ept, g2),
                k > 0 ==> (self.ept.leaf_2m(((k - 1) * 0x1000) as u64) matches Some(e) && linked(e, true)),
            decreases pages - k,
        {
            let gpa = k * 0x1000;
            let ghost ab = *frame_allocator;
            let hpa = match frame_allocator.allocate_frame() {
                Some(f) => f,
                None => {
                    return Err("No free frames");
                },
            };
            let ghost pre = self.ept;
            let ghost a1 = *frame_allocator;
            assert(self.ept.tables_in_use(*frame_allocator)) by {
                assert forall|a: u64| (#[trigger] self.ept.lv3.find(a)) is Some implies !frame_allocator.is_free(a as int / 4096) by {}
                assert forall|a: u64| (#[trigger] self.ept.lv2.find(a)) is Some implies !frame_allocator.is_free(a as int / 4096) by {}
                assert forall|a: u64| (#[trigger] self.ept.lv1.find(a)) is Some implies !frame_allocator.is_free(a as int / 4096) by {}
            }
            match self.ept.map_4k(gpa, hpa, frame_allocator) {
                Ok(()) => {},
                Err(e) => {
                    return Err(e);
                },
            }
            proof {
                assert(gpa < 0x1_0000_0000_0000);
                assert(gpa & 0xFFF == 0) by (bit_vector)
                    requires
                        gpa == k * 0x1000,
                        k < 0x10_0000_0000,
                ;
                let x0 = (hpa & ADDR_MASK) | (gpa & 0xFFF);
                assert(!a1.is_free(hpa as int / 4096));
                assert forall|g: u64| g < (k + 1) * 0x1000 implies #[trigger] self.ept.translate(g) == if g < gpa {
                    pre.translate(g)
                } else {
                    Some((hpa & ADDR_MASK) | (g & 0xFFF))
                } by {
                    lemma_index_bounds(g);
                    lemma_index_bounds(gpa);
                    if g < gpa {
                        lemma_region_indices(g, gpa);
                        if g >> 21u64 == gpa >> 21u64 {
                            let prev = (gpa - 0x1000) as u64;
                            assert(prev >> 21u64 == gpa >> 21u64 && g >> 12u64 != gpa >> 12u64) by (bit_vector)
                                requires
                                    g < gpa,
                                    gpa & 0xFFF == 0,
                                    g >> 21u64 == gpa >> 21u64,
                                    prev == gpa - 0x1000,
                            ;
                            lemma_region_indices(prev, gpa);
                            assert(prev == ((k - 1) * 0x1000) as u64);
                        }
                    } else {
                        assert(g >> 12u64 == gpa >> 12u64 && (g & 0xFFF) < 0x1000) by (bit_vector)
                            requires
                                gpa <= g,
                                g < gpa + 0x1000,
                                gpa & 0xFFF == 0,
                        ;
                        assert(lv4_index(g) == lv4_index(gpa) && lv3_index(g) == lv3_index(gpa) && lv2_index(g)
                            == lv2_index(gpa) && lv1_index(g) == lv1_index(gpa)) by (bit_vector)
                            requires
                                g >> 12u64 == gpa >> 12u64,
                        ;
                    }
                }
                assert forall|g: u64| g < (k + 1) * 0x1000 implies #[trigger] backed(
                    self.ept,
                    g,
                    *old(frame_allocator),
                    *frame_allocator,
                ) by {
                    if g < gpa {
                        assert(backed(pre, g, *old(frame_allocator), ab));
                    } else {
                        lemma_page_of(hpa, g);
                    }
                }
                assert forall|g1: u64, g2: u64|
                    g1 < (k + 1) * 0x1000 && g2 < (k + 1) * 0x1000 && g1 / 0x1000 != g2 / 0x1000 implies #[trigger] frame_of(
                    self.ept,
                    g1,
                ) != #[trigger] frame_of(self.ept, g2) by {
                    if g1 < gpa && g2 < gpa {
                        assert(frame_of(pre, g1) != frame_of(pre, g2));
                    } else if g1 < gpa {
                        assert(backed(pre, g1, *old(frame_allocator), ab));
                        lemma_page_of(hpa, g2);
                    } else if g2 < gpa {
                        assert(backed(pre, g2, *old(frame_allocator), ab));
                        lemma_page_of(hpa, g1);
                    } else {
                        assert(g1 / 0x1000 == g2 / 0x1000) by (bit_vector)
                            requires
                                gpa <= g1 < gpa + 0x1000,
                                gpa <= g2 < gpa + 0x1000,
                                gpa & 0xFFF == 0,
                        ;
                    }
                }
            }
            k = k + 1;
        }
        Ok(())
    }

    /// Records the outcome of VMLAUNCH or VMRESUME: success marks the VMCS
    /// launched; every failure is fatal and returned with the meaning of the
    /// VM-instruction error where there is one.
    pub fn vmentry(&mut self, success: bool, error: u32) -> (r: Result<(), &'static str>)
        ensures
            *final(self) == (IntelVCpu { launch_done: old(self).launch_done || success, ..*old(self) }),
            success <==> r is Ok,
            !success ==> r == Err::<(), &'static str>(
                match instruction_error_of(error) {
                    Some(e) => if error == 0 {
                        "VM entry failed"
                    } else {
                        instruction_error_text(e)
                    },
                    None => "Unknown instruction error",
                },
            ),
    {
        if success {
            self.launch_done = true;
            return Ok(());
        }
        match InstructionError::read(error) {
            Ok(e) => {
                if error == 0 {
                    Err("VM entry failed")
                } else {
                    Err(e.to_str())
                }
            },
            Err(_) => Err("Unknown instruction error"),
        }
    }

    /// Moves RIP past the instruction that caused the exit.
    pub fn step_next_inst(guest: &mut GuestVmcs, instruction_len: u64)
        ensures
            *final(guest) == stepped(*old(guest), instruction_len),
    {
        if guest.rip <= u64::MAX - instruction_len {
            guest.rip = guest.rip + instruction_len;
        } else {
            guest.rip = guest.rip - (u64::MAX - instruction_len) - 1;
        }
    }

    /// Handles one VM exit: HLT, CPUID, RDMSR, WRMSR, I/O and
    /// control-register accesses are carried out and RIP moves past the
    /// instruction; a failed VM entry and every other exit reason are fatal
    /// and returned as errors.
    pub fn vmexit_handler(&mut self, guest: &mut GuestVmcs, exit: ExitInfo) -> (r: Result<(), &'static str>)
        requires
            old(self).wf(),
        ensures
            final(self).wf(),
            exit.reason & 0x8000_0000 != 0 ==> r is Err && *final(guest) == *old(guest) && unchanged(*old(self), *final(self)),
            exit.reason & 0x8000_0000 == 0 ==> exit_outcome(*old(self), *old(guest), exit, *final(self), *final(guest), r),
    {
        if exit.reason & 0x8000_0000 != 0 {
            return Err("VMEntry failure");
        }
        let basic = (exit.reason & 0xFFFF) as u16;
        match VmxExitReason::from_basic(basic) {
            VmxExitReason::Hlt => {
                Self::step_next_inst(guest, exit.instruction_len);
                Ok(())
            },
            VmxExitReason::Cpuid => {
                match handle_cpuid_vmexit(&mut self.guest_registers) {
                    Ok(()) => {},
                    Err(e) => {
                        return Err(e);
                    },
                }
                Self::step_next_inst(guest, exit.instruction_len);
                Ok(())
            },
            VmxExitReason::Rdmsr => {
                let fetched = match read_msr_source(self.guest_registers.rcx as u32) {
                    MsrRead::GuestField(f) => guest.read_field(f),
                    _ => exit.tsc,
                };
                match ShadowMsr::handle_read_msr_vmexit(&mut self.guest_registers, &self.guest_msr, fetched) {
                    Ok(()) => {},
                    Err(_) => {
                        return Err("RDMSR not handled");
                    },
                }
                Self::step_next_inst(guest, exit.instruction_len);
                Ok(())
            },
            VmxExitReason::Wrmsr => {
                let ghost pre = self.guest_msr.ents@;
                match ShadowMsr::handle_wrmsr_vmexit(&self.guest_registers, &mut self.guest_msr) {
                    Ok(Some((f, v))) => guest.write_field(f, v),
                    Ok(None) => {},
                    Err(_) => {
                        return Err("WRMSR not handled");
                    },
                }
                Self::step_next_inst(guest, exit.instruction_len);
                Ok(())
            },
            VmxExitReason::Io => {
                let qual = QualIo { raw: exit.qualification };
                if qual.direction() == 0 {
                    let port = qual.port();
                    if (port == 0x20 || port == 0xA0) && !is_known_command(self.guest_registers.rax as u8) {
                        return Err("PIC command not handled");
                    }
                }
                self.pic.handle_io(&mut self.guest_registers, qual);
                Self::step_next_inst(guest, exit.instruction_len);
                Ok(())
            },
            VmxExitReason::CrAccess => {
                let qual = QualCr { raw: exit.qualification };
                match handle_cr_access(&mut self.guest_registers, &mut guest.cr, self.fixed, &qual) {
                    Ok(()) => {},
                    Err(e) => {
                        return Err(e);
                    },
                }
                Self::step_next_inst(guest, exit.instruction_len);
                Ok(())
            },
            VmxExitReason::EptViolation => Err("EPT Violation"),
            VmxExitReason::TripleFault => Err("Triple fault"),
            VmxExitReason::Exception => Err("VM exit due to exception"),
            VmxExitReason::Other(_) => Err("Unhandled VM exit reason"),
        }
    }
}

} // verus!
