//! The guest registers that the hardware does not save on a VM exit.
use vstd::prelude::*;

verus! {

/// One XMM register.
#[derive(Clone, Copy, Default)]
pub struct M128 {
    pub data: u128,
}

/// The guest's general-purpose registers other than RSP and RIP (which the
/// VMCS holds), and XMM0 to XMM7. The exit trampoline saves them here and
/// restores them on entry; the layout is fixed by the trampoline.
#[derive(Clone, Copy, Default)]
pub struct GuestRegisters {
    pub rax: u64,
    pub rcx: u64,
    pub rdx: u64,
    pub rbx: u64,
    pub rbp: u64,
    pub rsi: u64,
    pub rdi: u64,
    pub r8: u64,
    pub r9: u64,
    pub r10: u64,
    pub r11: u64,
    pub r12: u64,
    pub r13: u64,
    pub r14: u64,
    pub r15: u64,
    pub xmm0: M128,
    pub xmm1: M128,
    pub xmm2: M128,
    pub xmm3: M128,
    pub xmm4: M128,
    pub xmm5: M128,
    pub xmm6: M128,
    pub xmm7: M128,
}

impl GuestRegisters {
    /// `self` with RAX, RBX, RCX and RDX replaced.
    pub open spec fn with_abcd(self, a: u64, b: u64, c: u64, d: u64) -> GuestRegisters {
        GuestRegisters { rax: a, rbx: b, rcx: c, rdx: d, ..self }
    }

    /// `self` with RAX and RDX replaced.
    pub open spec fn with_ad(self, a: u64, d: u64) -> GuestRegisters {
        GuestRegisters { rax: a, rdx: d, ..self }
    }

    /// All registers zero.
    pub fn new() -> (r: Self)
        ensures
            r.rax == 0 && r.rcx == 0 && r.rdx == 0 && r.rbx == 0 && r.rbp == 0 && r.rsi == 0 && r.rdi == 0,
            r.r8 == 0 && r.r9 == 0 && r.r10 == 0 && r.r11 == 0 && r.r12 == 0 && r.r13 == 0 && r.r14 == 0 && r.r15 == 0,
    {
        GuestRegisters {
            rax: 0,
            rcx: 0,
            rdx: 0,
            rbx: 0,
            rbp: 0,
            rsi: 0,
            rdi: 0,
            r8: 0,
            r9: 0,
            r10: 0,
            r11: 0,
            r12: 0,
            r13: 0,
            r14: 0,
            r15: 0,
            xmm0: M128 { data: 0 },
            xmm1: M128 { data: 0 },
            xmm2: M128 { data: 0 },
            xmm3: M128 { data: 0 },
            xmm4: M128 { data: 0 },
            xmm5: M128 { data: 0 },
            xmm6: M128 { data: 0 },
            xmm7: M128 { data: 0 },
        }
    }
}

} // verus!
