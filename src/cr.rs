//! Control-register accesses of the guest: the exit qualification, and how
//! MOV to and from CR0, CR3 and CR4 are carried out.
use vstd::prelude::*;

use crate::regs::GuestRegisters;

verus! {

/// How a control register was accessed.
#[derive(Debug, Clone, Copy, PartialEq, Eq, Structural)]
pub enum AccessType {
    MovTo,
    MovFrom,
    Clts,
    Lmsw,
}

/// Where LMSW took its operand from.
#[derive(Debug, Clone, Copy, PartialEq, Eq, Structural)]
pub enum LmswOperandType {
    Reg,
    Mem,
}

/// A general-purpose register, numbered as the exit qualification numbers
/// it.
#[derive(Debug, Clone, Copy, PartialEq, Eq, Structural)]
pub enum Register {
    Rax,
    Rcx,
    Rdx,
    Rbx,
    Rsp,
    Rbp,
    Rsi,
    Rdi,
    R8,
    R9,
    R10,
    R11,
    R12,
    R13,
    R14,
    R15,
}

/// The access type numbered `v`.
pub open spec fn access_type_of(v: u8) -> Option<AccessType> {
    if v == 0 {
        Some(AccessType::MovTo)
    } else if v == 1 {
        Some(AccessType::MovFrom)
    } else if v == 2 {
        Some(AccessType::Clts)
    } else if v == 3 {
        Some(AccessType::Lmsw)
    } else {
        None
    }
}

/// The register numbered `v`.
pub open spec fn register_of(v: u8) -> Option<Register> {
    if v == 0 { Some(Register::Rax) }
    else if v == 1 { Some(Register::Rcx) }
    else if v == 2 { Some(Register::Rdx) }
    else if v == 3 { Some(Register::Rbx) }
    else if v == 4 { Some(Register::Rsp) }
    else if v == 5 { Some(Register::Rbp) }
    else if v == 6 { Some(Register::Rsi) }
    else if v == 7 { Some(Register::Rdi) }
    else if v == 8 { Some(Register::R8) }
    else if v == 9 { Some(Register::R9) }
    else if v == 10 { Some(Register::R10) }
    else if v == 11 { Some(Register::R11) }
    else if v == 12 { Some(Register::R12) }
    else if v == 13 { Some(Register::R13) }
    else if v == 14 { Some(Register::R14) }
    else if v == 15 { Some(Register::R15) }
    else { None }
}

impl AccessType {
    /// The access type numbered `value`; values above 3 are refused.
    pub fn try_from(value: u8) -> (r: Result<AccessType, &'static str>)
        ensures
            match access_type_of(value) {
                Some(a) => r == Ok::<AccessType, &'static str>(a),
                None => r is Err,
            },
    {
        match value {
            0 => Ok(AccessType::MovTo),
            1 => Ok(AccessType::MovFrom),
            2 => Ok(AccessType::Clts),
            3 => Ok(AccessType::Lmsw),
            _ => Err("Invalid AccessType value"),
        }
    }
}

impl LmswOperandType {
    /// The operand type numbered `value`; values above 1 are refused.
    pub fn try_from(value: u8) -> (r: Result<LmswOperandType, &'static str>)
        ensures
            value == 0 ==> r == Ok::<LmswOperandType, &'static str>(LmswOperandType::Reg),
            value == 1 ==> r == Ok::<LmswOperandType, &'static str>(LmswOperandType::Mem),
            value > 1 ==> r is Err,
    {
        match value {
            0 => Ok(LmswOperandType::Reg),
            1 => Ok(LmswOperandType::Mem),
            _ => Err("Invalid LmswOperandType value"),
        }
    }
}

impl Register {
    /// The register numbered `value`; values above 15 are refused.
    pub fn try_from(value: u8) -> (r: Result<Register, &'static str>)
        ensures
            match register_of(value) {
                Some(g) => r == Ok::<Register, &'static str>(g),
                None => r is Err,
            },
    {
        match value {
            0 => Ok(Register::Rax),
            1 => Ok(Register::Rcx),
            2 => Ok(Register::Rdx),
            3 => Ok(Register::Rbx),
            4 => Ok(Register::Rsp),
            5 => Ok(Register::Rbp),
            6 => Ok(Register::Rsi),
            7 => Ok(Register::Rdi),
            8 => Ok(Register::R8),
            9 => Ok(Register::R9),
            10 => Ok(Register::R10),
            11 => Ok(Register::R11),
            12 => Ok(Register::R12),
            13 => Ok(Register::R13),
            14 => Ok(Register::R14),
            15 => Ok(Register::R15),
            _ => Err("Invalid Register value"),
        }
    }
}

/// The exit qualification of a control-register access.
#[derive(Clone, Copy)]
pub struct QualCr {
    pub raw: u64,
}

impl QualCr {
    /// The control register (bits 3:0).
    pub fn index(&self) -> (r: u8)
        ensures
            r == (self.raw & 0xF) as u8,
    {
        (self.raw & 0xF) as u8
    }

    /// The access type (bits 5:4).
    pub fn access_type(&self) -> (r: u8)
        ensures
            r == ((self.raw >> 4u64) & 0x3) as u8,
            r <= 3,
    {
        proof {
            let x = self.raw;
            assert((x >> 4u64) & 0x3 <= 3) by (bit_vector);
        }
        ((self.raw >> 4u64) & 0x3) as u8
    }

    /// The general-purpose register (bits 11:8).
    pub fn register(&self) -> (r: Register)
        ensures
            Some(r) == register_of(((self.raw >> 8u64) & 0xF) as u8),
    {
        proof {
            let x = self.raw;
            assert((x >> 8u64) & 0xF <= 15) by (bit_vector);
        }
        match Register::try_from(((self.raw >> 8u64) & 0xF) as u8) {
            Ok(g) => g,
            Err(_) => Register::Rax,
        }
    }

    /// The LMSW source data (bits 31:16).
    pub fn lmsw_source(&self) -> (r: u16)
        ensures
            r == ((self.raw >> 16u64) & 0xFFFF) as u16,
    {
        ((self.raw >> 16u64) & 0xFFFF) as u16
    }
}

/// The guest-state and control fields of the VMCS that control-register
/// accesses read and write.
#[derive(Clone, Copy)]
pub struct CrState {
    pub cr0: u64,
    pub cr3: u64,
    pub cr4: u64,
    pub cr0_read_shadow: u64,
    pub cr4_read_shadow: u64,
    pub rsp: u64,
    pub efer: u64,
    pub entry_controls: u32,
    pub ia32e_enabled: bool,
}

/// The bits that VMX operation fixes in CR0 and CR4
/// (IA32_VMX_CR0_FIXED0/1, IA32_VMX_CR4_FIXED0/1).
#[derive(Clone, Copy)]
pub struct FixedBits {
    pub cr0_fixed0: u64,
    pub cr0_fixed1: u64,
    pub cr4_fixed0: u64,
    pub cr4_fixed1: u64,
}

/// A value with the bits of `fixed0` set and the bits outside `fixed1`
/// cleared.
pub open spec fn adjust_spec(value: u64, fixed0: u64, fixed1: u64) -> u64 {
    (value | fixed0) & fixed1
}

/// CR0 as VMX operation allows it.
pub fn adjust_cr0(value: u64, fixed: FixedBits) -> (r: u64)
    ensures
        r == adjust_spec(value, fixed.cr0_fixed0, fixed.cr0_fixed1),
{
    (value | fixed.cr0_fixed0) & fixed.cr0_fixed1
}

/// CR4 as VMX operation allows it.
pub fn adjust_cr4(value: u64, fixed: FixedBits) -> (r: u64)
    ensures
        r == adjust_spec(value, fixed.cr4_fixed0, fixed.cr4_fixed1),
{
    (value | fixed.cr4_fixed0) & fixed.cr4_fixed1
}

/// The value of register `g`; RSP comes from the VMCS.
pub open spec fn reg_value(regs: GuestRegisters, rsp: u64, g: Register) -> u64 {
    match g {
        Register::Rax => regs.rax,
        Register::Rcx => regs.rcx,
        Register::Rdx => regs.rdx,
        Register::Rbx => regs.rbx,
        Register::Rsp => rsp,
        Register::Rbp => regs.rbp,
        Register::Rsi => regs.rsi,
        Register::Rdi => regs.rdi,
        Register::R8 => regs.r8,
        Register::R9 => regs.r9,
        Register::R10 => regs.r10,
        Register::R11 => regs.r11,
        Register::R12 => regs.r12,
        Register::R13 => regs.r13,
        Register::R14 => regs.r14,
        Register::R15 => regs.r15,
    }
}

/// The registers with `g` set to `v` (RSP is not among them).
pub open spec fn with_reg(regs: GuestRegisters, g: Register, v: u64) -> GuestRegisters {
    match g {
        Register::Rax => GuestRegisters { rax: v, ..regs },
        Register::Rcx => GuestRegisters { rcx: v, ..regs },
        Register::Rdx => GuestRegisters { rdx: v, ..regs },
        Register::Rbx => GuestRegisters { rbx: v, ..regs },
        Register::Rsp => regs,
        Register::Rbp => GuestRegisters { rbp: v, ..regs },
        Register::Rsi => GuestRegisters { rsi: v, ..regs },
        Register::Rdi => GuestRegisters { rdi: v, ..regs },
        Register::R8 => GuestRegisters { r8: v, ..regs },
        Register::R9 => GuestRegisters { r9: v, ..regs },
        Register::R10 => GuestRegisters { r10: v, ..regs },
        Register::R11 => GuestRegisters { r11: v, ..regs },
        Register::R12 => GuestRegisters { r12: v, ..regs },
        Register::R13 => GuestRegisters { r13: v, ..regs },
        Register::R14 => GuestRegisters { r14: v, ..regs },
        Register::R15 => GuestRegisters { r15: v, ..regs },
    }
}

/// The value of register `g`.
pub fn get_value(regs: &GuestRegisters, state: &CrState, g: Register) -> (r: u64)
    ensures
        r == reg_value(*regs, state.rsp, g),
{
    match g {
        Register::Rax => regs.rax,
        Register::Rcx => regs.rcx,
        Register::Rdx => regs.rdx,
        Register::Rbx => regs.rbx,
        Register::Rsp => state.rsp,
        Register::Rbp => regs.rbp,
        Register::Rsi => regs.rsi,
        Register::Rdi => regs.rdi,
        Register::R8 => regs.r8,
        Register::R9 => regs.r9,
        Register::R10 => regs.r10,
        Register::R11 => regs.r11,
        Register::R12 => regs.r12,
        Register::R13 => regs.r13,
        Register::R14 => regs.r14,
        Register::R15 => regs.r15,
    }
}

/// Sets register `g` to `v`; RSP goes to the VMCS.
pub fn set_value(regs: &mut GuestRegisters, state: &mut CrState, g: Register, v: u64)
    ensures
        *final(regs) == with_reg(*old(regs), g, v),
        *final(state) == if g == Register::Rsp {
            CrState { rsp: v, ..*old(state) }
        } else {
            *old(state)
        },
{
    match g {
        Register::Rax => regs.rax = v,
        Register::Rcx => regs.rcx = v,
        Register::Rdx => regs.rdx = v,
        Register::Rbx => regs.rbx = v,
        Register::Rsp => state.rsp = v,
        Register::Rbp => regs.rbp = v,
        Register::Rsi => regs.rsi = v,
        Register::Rdi => regs.rdi = v,
        Register::R8 => regs.r8 = v,
        Register::R9 => regs.r9 = v,
        Register::R10 => regs.r10 = v,
        Register::R11 => regs.r11 = v,
        Register::R12 => regs.r12 = v,
        Register::R13 => regs.r13 = v,
        Register::R14 => regs.r14 = v,
        Register::R15 => regs.r15 = v,
    }
}

/// Long mode is active: CR0.PG and CR4.PAE are both set.
pub open spec fn ia32e_spec(cr0: u64, cr4: u64) -> bool {
    (cr0 & (1u64 << 31u64)) != 0 && (cr4 & (1u64 << 5u64)) != 0
}

/// IA32_EFER after a control-register write: LMA (bit 10) is set when long
/// mode is active; then, when CR0.PG is set and LMA is clear, or CR0.PG is
/// clear and no bit but SCE (bit 8) is set, the register is cleared.
pub open spec fn efer_after(cr0: u64, cr4: u64, efer: u64) -> u64 {
    let e = if ia32e_spec(cr0, cr4) {
        efer | (1u64 << 10u64)
    } else {
        efer
    };
    let lme = if cr0 & (1u64 << 31u64) != 0 {
        e & (1u64 << 10u64)
    } else {
        e & !(1u64 << 8u64)
    };
    if lme != 0 {
        e
    } else {
        0
    }
}

/// The state after long mode is recomputed from CR0 and CR4: the
/// IA-32e-mode-guest entry control (bit 9) follows it, and so does EFER.
pub open spec fn ia32e_update(s: CrState) -> CrState {
    let on = ia32e_spec(s.cr0, s.cr4);
    CrState {
        ia32e_enabled: on,
        entry_controls: if on {
            s.entry_controls | (1u32 << 9u32)
        } else {
            s.entry_controls & !(1u32 << 9u32)
        },
        efer: efer_after(s.cr0, s.cr4, s.efer),
        ..s
    }
}

/// Recomputes whether long mode is active after CR0 or CR4 changed.
pub fn update_ia32e(state: &mut CrState)
    ensures
        *final(state) == ia32e_update(*old(state)),
{
    let cr0 = state.cr0;
    let cr4 = state.cr4;
    let ia32e_enabled = (cr0 & (1u64 << 31u64)) != 0 && (cr4 & (1u64 << 5u64)) != 0;
    state.ia32e_enabled = ia32e_enabled;
    if ia32e_enabled {
        state.entry_controls = state.entry_controls | (1u32 << 9u32);
    } else {
        state.entry_controls = state.entry_controls & !(1u32 << 9u32);
    }
    let mut efer = state.efer;
    if ia32e_enabled {
        efer = efer | (1u64 << 10u64);
    }
    let lme = if cr0 & (1u64 << 31u64) != 0 {
        efer & (1u64 << 10u64)
    } else {
        efer & !(1u64 << 8u64)
    };
    if lme == 0 {
        efer = 0;
    }
    state.efer = efer;
}

/// The registers and state after a control-register access, or `None`
/// when the access is fatal: only MOV to CR0 or CR4 and MOV from CR3 are
/// handled.
pub open spec fn cr_access_outcome(regs: GuestRegisters, s: CrState, fixed: FixedBits, qual: u64) -> Option<
    (GuestRegisters, CrState),
> {
    let index = (qual & 0xF) as u8;
    let g = register_of(((qual >> 8u64) & 0xF) as u8).unwrap();
    let access = ((qual >> 4u64) & 0x3) as u8;
    if access == 0 {
        let v = reg_value(regs, s.rsp, g);
        if index == 0 {
            Some(
                (
                    regs,
                    ia32e_update(
                        CrState {
                            cr0: adjust_spec(v, fixed.cr0_fixed0, fixed.cr0_fixed1),
                            cr0_read_shadow: v,
                            ..s
                        },
                    ),
                ),
            )
        } else if index == 4 {
            Some(
                (
                    regs,
                    ia32e_update(
                        CrState {
                            cr4: adjust_spec(v, fixed.cr4_fixed0, fixed.cr4_fixed1),
                            cr4_read_shadow: v,
                            ..s
                        },
                    ),
                ),
            )
        } else {
            None
        }
    } else if access == 1 && index == 3 {
        Some(
            (
                with_reg(regs, g, s.cr3),
                if g == Register::Rsp {
                    CrState { rsp: s.cr3, ..s }
                } else {
                    s
                },
            ),
        )
    } else {
        None
    }
}

/// Handles a control-register access exit. Fails, changing nothing, on an
/// access that is not handled.
pub fn handle_cr_access(regs: &mut GuestRegisters, state: &mut CrState, fixed: FixedBits, qual: &QualCr) -> (r:
    Result<(), &'static str>)
    ensures
        match cr_access_outcome(*old(regs), *old(state), fixed, qual.raw) {
            Some((g, s)) => r is Ok && *final(regs) == g && *final(state) == s,
            None => r is Err && *final(regs) == *old(regs) && *final(state) == *old(state),
        },
{
    let access = qual.access_type();
    let index = qual.index();
    let g = qual.register();
    if access == 0 {
        let value = get_value(regs, state, g);
        if index == 0 {
            state.cr0 = adjust_cr0(value, fixed);
            state.cr0_read_shadow = value;
        } else if index == 4 {
            state.cr4 = adjust_cr4(value, fixed);
            state.cr4_read_shadow = value;
        } else {
            return Err("Unsupported CR index");
        }
        update_ia32e(state);
        Ok(())
    } else if access == 1 {
        if index == 3 {
            let v = state.cr3;
            set_value(regs, state, g, v);
            Ok(())
        } else {
            Err("Unsupported CR index")
        }
    } else {
        Err("Unsupported CR access type")
    }
}

} // verus!
