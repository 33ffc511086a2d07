//! MSR virtualisation: the shadow MSR areas that the processor loads and
//! stores across VM transitions, and the policy for the guest's RDMSR and
//! WRMSR.
use vstd::prelude::*;

use crate::fields::{
    GUEST_FS_BASE, GUEST_GS_BASE, GUEST_IA32_EFER, GUEST_IA32_SYSENTER_CS, GUEST_IA32_SYSENTER_EIP,
    GUEST_IA32_SYSENTER_ESP,
};
use crate::fields::{
    IA32_APIC_BASE, IA32_CSTAR, IA32_FEATURE_CONTROL, IA32_FMASK, IA32_KERNEL_GSBASE, IA32_LSTAR, IA32_STAR,
    IA32_TSC_AUX,
};
use crate::regs::GuestRegisters;

verus! {

/// Most entries one MSR area holds.
pub const MAX_NUM_ENTS: usize = 512;

/// One entry of an MSR load/store area, laid out as the processor reads it.
#[derive(Clone, Copy, Debug)]
pub struct SavedMsr {
    pub index: u32,
    pub reserved: u32,
    pub data: u64,
}

impl Default for SavedMsr {
    fn default() -> (r: Self)
        ensures
            r.index == 0 && r.reserved == 0 && r.data == 0,
    {
        SavedMsr { index: 0, reserved: 0, data: 0 }
    }
}

/// Why an MSR operation failed.
#[derive(Clone, Copy, Debug, PartialEq, Eq, Structural)]
pub enum MsrError {
    /// The area already holds `MAX_NUM_ENTS` entries.
    TooManyEntries,
    BitmapAllocationFailed,
    /// The MSR is shadowed but the area holds no entry for it.
    NotShadowed,
    /// The guest touched an MSR the hypervisor does not handle.
    Unhandled,
}

/// Entry `i` of `ents` is the one for `index`.
pub open spec fn pos_of(ents: Seq<SavedMsr>, index: u32, i: int) -> bool {
    0 <= i < ents.len() && ents[i].index == index
}

/// The entry for `index`, if the area holds one.
pub open spec fn entry_for(ents: Seq<SavedMsr>, index: u32) -> Option<SavedMsr> {
    if exists|i: int| pos_of(ents, index, i) {
        Some(ents[choose|i: int| pos_of(ents, index, i)])
    } else {
        None
    }
}

/// Where the value of a guest RDMSR comes from.
#[derive(Clone, Copy, Debug, PartialEq, Eq, Structural)]
pub enum MsrRead {
    /// The guest-state field of the VMCS with this encoding.
    GuestField(u32),
    /// The processor's time-stamp counter.
    TimeStampCounter,
    /// A fixed value.
    Constant(u64),
    /// The guest's shadow copy in its MSR area.
    Shadow,
    /// Not handled: fatal.
    Unhandled,
}

/// What a guest WRMSR does.
#[derive(Clone, Copy, Debug, PartialEq, Eq, Structural)]
pub enum MsrWrite {
    /// Writes the guest-state field of the VMCS with this encoding.
    GuestField(u32),
    /// Writes IA32_EFER's guest-state field, but only the values 0x100 and
    /// 0xd01; other values are dropped.
    Efer,
    /// Writes the guest's shadow copy in its MSR area.
    Shadow,
    /// Not handled: fatal.
    Unhandled,
}

/// The RDMSR policy.
pub open spec fn msr_read_policy(index: u32) -> MsrRead {
    match index {
        0xc000_0080 => MsrRead::GuestField(0x2806),
        0x10 => MsrRead::TimeStampCounter,
        0x3a => MsrRead::Constant(0x5),
        0x48 | 0x122 | 0x560 | 0x561 | 0x570 | 0x571 | 0x572 | 0x580 | 0x581 | 0x582 | 0x583 | 0x584 | 0x585
        | 0x586 | 0x587 => MsrRead::Constant(0),
        0xc000_0100 => MsrRead::GuestField(0x680E),
        0xc000_0101 => MsrRead::GuestField(0x6810),
        0xc000_0102 | 0xc000_0081 | 0xc000_0082 | 0xc000_0083 | 0xc000_0084 | 0x1b | 0xc000_0103 => MsrRead::Shadow,
        0x174 => MsrRead::GuestField(0x482A),
        0x175 => MsrRead::GuestField(0x6824),
        0x176 => MsrRead::GuestField(0x6826),
        0x8b => MsrRead::Constant(0x0870_1021),
        0xc001_1029 => MsrRead::Constant(0x0003_0003_10e0_8202),
        0xc001_0000 => MsrRead::Constant(0x0013_0076),
        0xc001_0001 | 0xc001_0002 | 0xc001_0003 | 0xc001_0007 | 0xc001_0114 | 0xc001_0117 => MsrRead::Constant(0),
        0x277 => MsrRead::Constant(0x0007_0406_0007_0406),
        0xd90 | 0xe1 | 0x1c4 | 0x1c5 => MsrRead::Constant(0),
        _ => MsrRead::Unhandled,
    }
}

/// The WRMSR policy.
pub open spec fn msr_write_policy(index: u32) -> MsrWrite {
    match index {
        0xc000_0081 | 0xc000_0082 | 0xc000_0083 | 0xc000_0103 | 0xc000_0084 | 0xc000_0102 | 0xda0 | 0x1b
        | 0xc001_0007 | 0xc001_0117 => MsrWrite::Shadow,
        0x174 => MsrWrite::GuestField(0x482A),
        0x176 => MsrWrite::GuestField(0x6826),
        0x175 => MsrWrite::GuestField(0x6824),
        0xc000_0080 => MsrWrite::Efer,
        0xc000_0100 => MsrWrite::GuestField(0x680E),
        0xc000_0101 => MsrWrite::GuestField(0x6810),
        _ => MsrWrite::Unhandled,
    }
}

/// Where the value of RDMSR of MSR `index` comes from.
pub fn read_msr_source(index: u32) -> (r: MsrRead)
    ensures
        r == msr_read_policy(index),
{
    match index {
        0xc000_0080 => MsrRead::GuestField(GUEST_IA32_EFER),
        0x10 => MsrRead::TimeStampCounter,
        0x3a => MsrRead::Constant(0x5),
        0x48 | 0x122 | 0x560 | 0x561 | 0x570 | 0x571 | 0x572 | 0x580 | 0x581 | 0x582 | 0x583 | 0x584 | 0x585
        | 0x586 | 0x587 => MsrRead::Constant(0),
        0xc000_0100 => MsrRead::GuestField(GUEST_FS_BASE),
        0xc000_0101 => MsrRead::GuestField(GUEST_GS_BASE),
        0xc000_0102 | 0xc000_0081 | 0xc000_0082 | 0xc000_0083 | 0xc000_0084 | 0x1b | 0xc000_0103 => MsrRead::Shadow,
        0x174 => MsrRead::GuestField(GUEST_IA32_SYSENTER_CS),
        0x175 => MsrRead::GuestField(GUEST_IA32_SYSENTER_ESP),
        0x176 => MsrRead::GuestField(GUEST_IA32_SYSENTER_EIP),
        0x8b => MsrRead::Constant(0x0870_1021),
        0xc001_1029 => MsrRead::Constant(0x0003_0003_10e0_8202),
        0xc001_0000 => MsrRead::Constant(0x0013_0076),
        0xc001_0001 | 0xc001_0002 | 0xc001_0003 | 0xc001_0007 | 0xc001_0114 | 0xc001_0117 => MsrRead::Constant(0),
        0x277 => MsrRead::Constant(0x0007_0406_0007_0406),
        0xd90 | 0xe1 | 0x1c4 | 0x1c5 => MsrRead::Constant(0),
        _ => MsrRead::Unhandled,
    }
}

/// What WRMSR of MSR `index` does.
pub fn write_msr_target(index: u32) -> (r: MsrWrite)
    ensures
        r == msr_write_policy(index),
{
    match index {
        0xc000_0081 | 0xc000_0082 | 0xc000_0083 | 0xc000_0103 | 0xc000_0084 | 0xc000_0102 | 0xda0 | 0x1b
        | 0xc001_0007 | 0xc001_0117 => MsrWrite::Shadow,
        0x174 => MsrWrite::GuestField(GUEST_IA32_SYSENTER_CS),
        0x176 => MsrWrite::GuestField(GUEST_IA32_SYSENTER_EIP),
        0x175 => MsrWrite::GuestField(GUEST_IA32_SYSENTER_ESP),
        0xc000_0080 => MsrWrite::Efer,
        0xc000_0100 => MsrWrite::GuestField(GUEST_FS_BASE),
        0xc000_0101 => MsrWrite::GuestField(GUEST_GS_BASE),
        _ => MsrWrite::Unhandled,
    }
}

/// Reading IA32_FEATURE_CONTROL always yields 0x5 (locked, VMXON allowed
/// inside and outside SMX), whatever the state of the guest.
pub proof fn lemma_feature_control_read(regs: GuestRegisters, guest_msr: ShadowMsr, fetched: u64)
    requires
        regs.rcx as u32 == IA32_FEATURE_CONTROL,
    ensures
        read_msr_outcome(regs, guest_msr, fetched) == Some(with_ret_val(regs, 0x5)),
{
}

/// The registers after RDMSR, or `None` when it is fatal; `fetched` is
/// the value of the VMCS field or time-stamp counter the policy names.
pub open spec fn read_msr_outcome(regs: GuestRegisters, guest_msr: ShadowMsr, fetched: u64) -> Option<GuestRegisters> {
    match msr_read_policy(regs.rcx as u32) {
        MsrRead::GuestField(_) => Some(with_ret_val(regs, fetched)),
        MsrRead::TimeStampCounter => Some(with_ret_val(regs, fetched)),
        MsrRead::Constant(v) => Some(with_ret_val(regs, v)),
        MsrRead::Shadow => match entry_for(guest_msr.ents@, regs.rcx as u32) {
            Some(e) => Some(with_ret_val(regs, e.data)),
            None => None,
        },
        MsrRead::Unhandled => None,
    }
}

/// An MSR area: at most one entry per MSR, in the order they were added.
pub struct ShadowMsr {
    pub ents: Vec<SavedMsr>,
}

/// The value RDX:RAX carries: the low dwords of `r1` and `r2`.
pub open spec fn concat_spec(r1: u64, r2: u64) -> u64 {
    ((r1 & 0xFFFF_FFFF) << 32u64) | (r2 & 0xFFFF_FFFF)
}

/// RDMSR returns `val` in EDX:EAX, each zero-extended.
pub open spec fn with_ret_val(regs: GuestRegisters, val: u64) -> GuestRegisters {
    regs.with_ad((val as u32) as u64, ((val >> 32u64) as u32) as u64)
}

impl ShadowMsr {
    pub open spec fn wf(&self) -> bool {
        &&& self.ents@.len() <= MAX_NUM_ENTS
        &&& forall|i: int| 0 <= i < self.ents@.len() ==> (#[trigger] self.ents@[i]).reserved == 0
        &&& forall|i: int, j: int|
            0 <= i < j < self.ents@.len() ==> #[trigger] self.ents@[i].index != #[trigger] self.ents@[j].index
    }

    /// Every position for `index` holds the same entry.
    pub proof fn lemma_entry_for(&self, index: u32, i: int)
        requires
            self.wf(),
            pos_of(self.ents@, index, i),
        ensures
            entry_for(self.ents@, index) == Some(self.ents@[i]),
    {
        let j = choose|j: int| pos_of(self.ents@, index, j);
        if i < j {
            assert(self.ents@[i].index != self.ents@[j].index);
        } else if j < i {
            assert(self.ents@[j].index != self.ents@[i].index);
        }
    }

    /// An empty area.
    pub fn new() -> (r: Self)
        ensures
            r.wf(),
            r.ents@.len() == 0,
    {
        ShadowMsr { ents: Vec::new() }
    }

    /// The entries, in the order they were added.
    pub fn saved_ents(&self) -> (r: &Vec<SavedMsr>)
        ensures
            r@ == self.ents@,
    {
        &self.ents
    }

    fn position(&self, index: u32) -> (r: Option<usize>)
        ensures
            r matches Some(i) ==> pos_of(self.ents@, index, i as int),
            r is None ==> forall|i: int| !pos_of(self.ents@, index, i),
    {
        let mut k: usize = 0;
        while k < self.ents.len()
            invariant
                k <= self.ents@.len(),
                forall|i: int| 0 <= i < k ==> !pos_of(self.ents@, index, i),
            decreases self.ents@.len() - k,
        {
            if self.ents[k].index == index {
                return Some(k);
            }
            k = k + 1;
        }
        None
    }

    /// The entry for `index`.
    pub fn find(&self, index: u32) -> (r: Option<SavedMsr>)
        requires
            self.wf(),
        ensures
            r == entry_for(self.ents@, index),
    {
        match self.position(index) {
            Some(i) => {
                proof {
                    self.lemma_entry_for(index, i as int);
                }
                Some(self.ents[i])
            },
            None => None,
        }
    }

    /// Sets the value of MSR `index`, adding an entry for it if there is
    /// none; fails when a new entry would not fit.
    pub fn set_by_index(&mut self, index: u32, data: u64) -> (r: Result<(), MsrError>)
        requires
            old(self).wf(),
        ensures
            final(self).wf(),
            forall|i: int|
                pos_of(old(self).ents@, index, i) ==> r is Ok && final(self).ents@ == old(self).ents@.update(
                    i,
                    SavedMsr { data, ..old(self).ents@[i] },
                ),
            (forall|i: int| !pos_of(old(self).ents@, index, i)) ==> if old(self).ents@.len() >= MAX_NUM_ENTS {
                r == Err::<(), MsrError>(MsrError::TooManyEntries) && final(self).ents@ == old(self).ents@
            } else {
                r is Ok && final(self).ents@ == old(self).ents@.push(SavedMsr { index, reserved: 0, data })
            },
    {
        match self.position(index) {
            Some(i) => {
                let e = self.ents[i];
                self.ents.set(i, SavedMsr { data, ..e });
                proof {
                    assert forall|k: int| 0 <= k < self.ents@.len() implies #[trigger] self.ents@[k].index == old(
                        self,
                    ).ents@[k].index by {}
                    assert forall|j: int| pos_of(old(self).ents@, index, j) implies j == i by {
                        if j < i {
                            assert(old(self).ents@[j].index != old(self).ents@[i as int].index);
                        } else if i < j {
                            assert(old(self).ents@[i as int].index != old(self).ents@[j].index);
                        }
                    }
                }
                Ok(())
            },
            None => {
                if self.ents.len() >= MAX_NUM_ENTS {
                    return Err(MsrError::TooManyEntries);
                }
                self.ents.push(SavedMsr { index, reserved: 0, data });
                proof {
                    assert forall|a: int, b: int| 0 <= a < b < self.ents@.len() implies #[trigger] self.ents@[a].index
                        != #[trigger] self.ents@[b].index by {
                        if b == self.ents@.len() - 1 {
                            assert(!pos_of(old(self).ents@, index, a));
                        } else {
                            assert(old(self).ents@[a].index != old(self).ents@[b].index);
                        }
                    }
                }
                Ok(())
            },
        }
    }

    /// Sets the value of MSR `index`, as `set_by_index` does.
    pub fn set(&mut self, index: u32, data: u64) -> (r: Result<(), MsrError>)
        requires
            old(self).wf(),
        ensures
            final(self).wf(),
            forall|i: int|
                pos_of(old(self).ents@, index, i) ==> r is Ok && final(self).ents@ == old(self).ents@.update(
                    i,
                    SavedMsr { data, ..old(self).ents@[i] },
                ),
            (forall|i: int| !pos_of(old(self).ents@, index, i)) ==> if old(self).ents@.len() >= MAX_NUM_ENTS {
                r == Err::<(), MsrError>(MsrError::TooManyEntries) && final(self).ents@ == old(self).ents@
            } else {
                r is Ok && final(self).ents@ == old(self).ents@.push(SavedMsr { index, reserved: 0, data })
            },
    {
        self.set_by_index(index, data)
    }

    /// The 64-bit value whose high dword is the low dword of `r1` and whose
    /// low dword is the low dword of `r2` (EDX:EAX).
    pub fn concat(r1: u64, r2: u64) -> (r: u64)
        ensures
            r == concat_spec(r1, r2),
    {
        ((r1 & 0xFFFF_FFFF) << 32u64) | (r2 & 0xFFFF_FFFF)
    }

    /// Returns `val` to the guest in EDX:EAX.
    pub fn set_ret_val(regs: &mut GuestRegisters, val: u64)
        ensures
            *final(regs) == with_ret_val(*old(regs), val),
    {
        regs.rdx = (val >> 32u64) as u32 as u64;
        regs.rax = val as u32 as u64;
    }

    /// Returns the guest's shadow copy of MSR `msr_kind` in EDX:EAX. An MSR
    /// without a shadow entry is fatal, and excluded here.
    pub fn shadow_read(regs: &mut GuestRegisters, guest_msr: &ShadowMsr, msr_kind: u32)
        requires
            guest_msr.wf(),
            entry_for(guest_msr.ents@, msr_kind) is Some,
        ensures
            *final(regs) == with_ret_val(*old(regs), entry_for(guest_msr.ents@, msr_kind).unwrap().data),
    {
        match guest_msr.find(msr_kind) {
            Some(msr) => Self::set_ret_val(regs, msr.data),
            None => {},
        }
    }

    /// Stores EDX:EAX into the guest's shadow copy of MSR `msr_kind`; the
    /// other entries stay. An MSR without a shadow entry is fatal, and
    /// excluded here.
    pub fn shadow_write(regs: &GuestRegisters, guest_msr: &mut ShadowMsr, msr_kind: u32)
        requires
            old(guest_msr).wf(),
            entry_for(old(guest_msr).ents@, msr_kind) is Some,
        ensures
            final(guest_msr).wf(),
            forall|i: int|
                pos_of(old(guest_msr).ents@, msr_kind, i) ==> final(guest_msr).ents@ == old(guest_msr).ents@.update(
                    i,
                    SavedMsr { data: concat_spec(regs.rdx, regs.rax), ..old(guest_msr).ents@[i] },
                ),
    {
        let value = Self::concat(regs.rdx, regs.rax);
        let _ = guest_msr.set(msr_kind, value);
    }

    /// Handles an RDMSR exit for the MSR that RCX names. `fetched` is the
    /// value of the VMCS field or time-stamp counter that `read_msr_source`
    /// names (any value otherwise). Fails, changing nothing, on an MSR the
    /// policy does not handle or a shadowed one without an entry.
    pub fn handle_read_msr_vmexit(regs: &mut GuestRegisters, guest_msr: &ShadowMsr, fetched: u64) -> (r: Result<
        (),
        MsrError,
    >)
        requires
            guest_msr.wf(),
        ensures
            match read_msr_outcome(*old(regs), *guest_msr, fetched) {
                Some(after) => r is Ok && *final(regs) == after,
                None => r is Err && *final(regs) == *old(regs),
            },
    {
        let msr_kind = regs.rcx as u32;
        match read_msr_source(msr_kind) {
            MsrRead::GuestField(_) => {
                Self::set_ret_val(regs, fetched);
                Ok(())
            },
            MsrRead::TimeStampCounter => {
                Self::set_ret_val(regs, fetched);
                Ok(())
            },
            MsrRead::Constant(v) => {
                Self::set_ret_val(regs, v);
                Ok(())
            },
            MsrRead::Shadow => {
                if guest_msr.find(msr_kind).is_none() {
                    return Err(MsrError::NotShadowed);
                }
                Self::shadow_read(regs, guest_msr, msr_kind);
                Ok(())
            },
            MsrRead::Unhandled => Err(MsrError::Unhandled),
        }
    }

    /// Handles a WRMSR exit for the MSR that RCX names, with the value in
    /// EDX:EAX. Returns the VMCS guest-state write to perform, if any.
    /// Fails on an MSR the policy does not handle or a shadowed one without
    /// an entry, changing nothing.
    pub fn handle_wrmsr_vmexit(regs: &GuestRegisters, guest_msr: &mut ShadowMsr) -> (r: Result<
        Option<(u32, u64)>,
        MsrError,
    >)
        requires
            old(guest_msr).wf(),
        ensures
            final(guest_msr).wf(),
            ({
                let value = concat_spec(regs.rdx, regs.rax);
                let index = regs.rcx as u32;
                match msr_write_policy(index) {
                    MsrWrite::GuestField(f) => r == Ok::<Option<(u32, u64)>, MsrError>(Some((f, value)))
                        && final(guest_msr).ents@ == old(guest_msr).ents@,
                    MsrWrite::Efer => r == Ok::<Option<(u32, u64)>, MsrError>(
                        if value == 0xd01 || value == 0x100 {
                            Some((GUEST_IA32_EFER, value))
                        } else {
                            None
                        },
                    ) && final(guest_msr).ents@ == old(guest_msr).ents@,
                    MsrWrite::Shadow => match entry_for(old(guest_msr).ents@, index) {
                        Some(_) => r == Ok::<Option<(u32, u64)>, MsrError>(None) && entry_for(
                            final(guest_msr).ents@,
                            index,
                        ) == Some(SavedMsr { data: value, ..entry_for(old(guest_msr).ents@, index).unwrap() })
                            && forall|i: int|
                            pos_of(old(guest_msr).ents@, index, i) ==> final(guest_msr).ents@ == old(
                                guest_msr,
                            ).ents@.update(i, SavedMsr { data: value, ..old(guest_msr).ents@[i] }),
                        None => r is Err && final(guest_msr).ents@ == old(guest_msr).ents@,
                    },
                    MsrWrite::Unhandled => r is Err && final(guest_msr).ents@ == old(guest_msr).ents@,
                }
            }),
    {
        let value = Self::concat(regs.rdx, regs.rax);
        let msr_kind = regs.rcx as u32;
        match write_msr_target(msr_kind) {
            MsrWrite::GuestField(f) => Ok(Some((f, value))),
            MsrWrite::Efer => {
                if value == 0xd01 || value == 0x100 {
                    Ok(Some((GUEST_IA32_EFER, value)))
                } else {
                    Ok(None)
                }
            },
            MsrWrite::Shadow => {
                let ghost pre = guest_msr.ents@;
                match guest_msr.position(msr_kind) {
                    Some(i) => {
                        proof {
                            guest_msr.lemma_entry_for(msr_kind, i as int);
                        }
                        Self::shadow_write(regs, guest_msr, msr_kind);
                        proof {
                            assert(pos_of(guest_msr.ents@, msr_kind, i as int));
                            guest_msr.lemma_entry_for(msr_kind, i as int);
                        }
                        Ok(None)
                    },
                    None => Err(MsrError::NotShadowed),
                }
            },
            MsrWrite::Unhandled => Err(MsrError::Unhandled),
        }
    }
}

/// The host's values of the MSRs the processor switches on VM exit.
#[derive(Clone, Copy)]
pub struct HostMsrValues {
    pub tsc_aux: u64,
    pub star: u64,
    pub lstar: u64,
    pub cstar: u64,
    pub fmask: u64,
    pub kernel_gsbase: u64,
}

/// The host area after registration.
pub open spec fn host_area(h: HostMsrValues) -> Seq<SavedMsr> {
    seq![
        SavedMsr { index: 0xc000_0103, reserved: 0, data: h.tsc_aux },
        SavedMsr { index: 0xc000_0081, reserved: 0, data: h.star },
        SavedMsr { index: 0xc000_0082, reserved: 0, data: h.lstar },
        SavedMsr { index: 0xc000_0083, reserved: 0, data: h.cstar },
        SavedMsr { index: 0xc000_0084, reserved: 0, data: h.fmask },
        SavedMsr { index: 0xc000_0102, reserved: 0, data: h.kernel_gsbase },
    ]
}

/// The guest area after registration: the same MSRs at zero, then
/// IA32_APIC_BASE and two AMD MSRs the guest probes.
pub open spec fn guest_area() -> Seq<SavedMsr> {
    seq![
        SavedMsr { index: 0xc000_0103, reserved: 0, data: 0 },
        SavedMsr { index: 0xc000_0081, reserved: 0, data: 0 },
        SavedMsr { index: 0xc000_0082, reserved: 0, data: 0 },
        SavedMsr { index: 0xc000_0083, reserved: 0, data: 0 },
        SavedMsr { index: 0xc000_0084, reserved: 0, data: 0 },
        SavedMsr { index: 0xc000_0102, reserved: 0, data: 0 },
        SavedMsr { index: 0x1b, reserved: 0, data: 0 },
        SavedMsr { index: 0xc001_0007, reserved: 0, data: 0 },
        SavedMsr { index: 0xc001_0117, reserved: 0, data: 0 },
    ]
}

fn add_new(area: &mut ShadowMsr, index: u32, data: u64)
    requires
        old(area).wf(),
        old(area).ents@.len() < MAX_NUM_ENTS,
        forall|i: int| 0 <= i < old(area).ents@.len() ==> #[trigger] old(area).ents@[i].index != index,
    ensures
        final(area).wf(),
        final(area).ents@ == old(area).ents@.push(SavedMsr { index, reserved: 0, data }),
{
    let r = area.set_by_index(index, data);
}

/// Fills the two MSR areas of a fresh VCPU: the host area with the host's
/// SYSCALL-related MSRs, the guest area with those MSRs at zero and a few
/// the guest probes.
pub fn register_msrs(host_msr: &mut ShadowMsr, guest_msr: &mut ShadowMsr, host: HostMsrValues)
    requires
        old(host_msr).wf(),
        old(guest_msr).wf(),
        old(host_msr).ents@.len() == 0,
        old(guest_msr).ents@.len() == 0,
    ensures
        final(host_msr).wf(),
        final(guest_msr).wf(),
        final(host_msr).ents@ == host_area(host),
        final(guest_msr).ents@ == guest_area(),
{
    add_new(host_msr, IA32_TSC_AUX, host.tsc_aux);
    add_new(host_msr, IA32_STAR, host.star);
    add_new(host_msr, IA32_LSTAR, host.lstar);
    add_new(host_msr, IA32_CSTAR, host.cstar);
    add_new(host_msr, IA32_FMASK, host.fmask);
    add_new(host_msr, IA32_KERNEL_GSBASE, host.kernel_gsbase);
    assert(host_msr.ents@ =~= host_area(host));

    add_new(guest_msr, IA32_TSC_AUX, 0);
    add_new(guest_msr, IA32_STAR, 0);
    add_new(guest_msr, IA32_LSTAR, 0);
    add_new(guest_msr, IA32_CSTAR, 0);
    add_new(guest_msr, IA32_FMASK, 0);
    add_new(guest_msr, IA32_KERNEL_GSBASE, 0);
    add_new(guest_msr, IA32_APIC_BASE, 0);
    add_new(guest_msr, 0xc001_0007, 0);
    add_new(guest_msr, 0xc001_0117, 0);
    assert(guest_msr.ents@ =~= guest_area());
}

/// Refreshes the host area with the host's current values, given in the
/// order of its entries; returns how many entries the host area and the
/// guest area hold (the VM-exit load count, and the VM-exit store and
/// VM-entry load counts).
pub fn update_msrs(host_msr: &mut ShadowMsr, guest_msr: &ShadowMsr, values: &Vec<u64>) -> (r: (usize, usize))
    requires
        old(host_msr).wf(),
        values@.len() == old(host_msr).ents@.len(),
    ensures
        final(host_msr).wf(),
        final(host_msr).ents@.len() == old(host_msr).ents@.len(),
        forall|i: int|
            0 <= i < values@.len() ==> #[trigger] final(host_msr).ents@[i] == (SavedMsr {
                data: values@[i],
                ..old(host_msr).ents@[i]
            }),
        r.0 == final(host_msr).ents@.len() && r.1 == guest_msr.ents@.len(),
{
    let n = host_msr.ents.len();
    let mut k: usize = 0;
    while k < n
        invariant
            k <= n,
            n == old(host_msr).ents@.len(),
            values@.len() == n,
            host_msr.ents@.len() == n,
            host_msr.wf(),
            forall|i: int| 0 <= i < n ==> #[trigger] host_msr.ents@[i].index == old(host_msr).ents@[i].index,
            forall|i: int| 0 <= i < n ==> #[trigger] host_msr.ents@[i].reserved == old(host_msr).ents@[i].reserved,
            forall|i: int| 0 <= i < k ==> #[trigger] host_msr.ents@[i].data == values@[i],
            forall|i: int| k <= i < n ==> #[trigger] host_msr.ents@[i] == old(host_msr).ents@[i],
        decreases n - k,
    {
        let index = host_msr.ents[k].index;
        let ghost pre = host_msr.ents@;
        let _ = host_msr.set_by_index(index, values[k]);
        proof {
            assert(pos_of(pre, index, k as int));
        }
        k = k + 1;
    }
    proof {
        assert forall|i: int| 0 <= i < values@.len() implies #[trigger] host_msr.ents@[i] == (SavedMsr {
            data: values@[i],
            ..old(host_msr).ents@[i]
        }) by {
            assert(host_msr.ents@[i].index == old(host_msr).ents@[i].index);
            assert(host_msr.ents@[i].reserved == old(host_msr).ents@[i].reserved);
            assert(host_msr.ents@[i].data == values@[i]);
        }
    }
    (host_msr.ents.len(), guest_msr.ents.len())
}

} // verus!
