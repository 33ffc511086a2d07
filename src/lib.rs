//! The verified core of a small type-1 hypervisor: the physical frame
//! allocator, host and second-level page tables, and the decision logic of
//! the Intel VT-x and AMD-V back-ends (VM-exit handlers, MSR and CPUID
//! virtualisation, the 8259 stub and the Linux boot protocol).
pub mod amd;
pub mod auditor;
pub mod bits;
pub mod boot;
pub mod controls;
pub mod cpuid;
pub mod cr;
pub mod ept;
pub mod err;
pub mod fields;
pub mod fpu;
pub mod graphics;
pub mod guest;
pub mod io;
pub mod linux;
pub mod memory;
pub mod msr;
pub mod paging;
pub mod platform;
pub mod regs;
pub mod segment;
pub mod table;
pub mod vcpu;
pub mod vmm;
pub mod vmx;
