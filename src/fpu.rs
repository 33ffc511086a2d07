//! XSETBV from the guest: which XCR0 values it may set.
use vstd::prelude::*;

use crate::vcpu::IntelVCpu;

verus! {

/// The checks an XCR0 value passes: x87 on; AVX only with SSE; the MPX
/// bits (3 and 4) clear; the AVX-512 bits all or none, and only with AVX.
pub open spec fn xcr0_ok(xcr: u64) -> bool {
    &&& xcr & 0b1 != 0
    &&& !(xcr & 0b100 != 0 && xcr & 0b10 == 0)
    &&& (xcr & 0b1000) == 0 && (xcr & 0b1_0000) == 0
    &&& (xcr & 0b1110_0000 != 0 ==> xcr & 0b100 != 0 && xcr & 0b1110_0000 == 0b1110_0000)
}

/// Sets the guest's XCR0 (only XCR index 0 exists); fails, changing
/// nothing, on any other index or a value that breaks the rules above.
pub fn set_xcr(vcpu: &mut IntelVCpu, index: u32, xcr: u64) -> (r: Result<(), &'static str>)
    ensures
        r is Ok <==> index == 0 && xcr0_ok(xcr),
        r is Ok ==> *final(vcpu) == (IntelVCpu { guest_xcr0: xcr, ..*old(vcpu) }),
        r is Err ==> *final(vcpu) == *old(vcpu),
{
    if index != 0 {
        return Err("Invalid XCR index");
    }
    if xcr & 0b1 == 0 {
        return Err("X87 is not enabled");
    }
    if (xcr & 0b100 != 0) && (xcr & 0b10 == 0) {
        return Err("SSE is not enabled");
    }
    if !(xcr & 0b1000) != !(xcr & 0b1_0000) {
        proof {
            let x = xcr;
            assert((!(x & 0b1000) != !(x & 0b1_0000)) == !((x & 0b1000) == 0 && (x & 0b1_0000) == 0)) by (bit_vector);
        }
        return Err("BNDREGS and BNDCSR are not both enabled");
    }
    proof {
        let x = xcr;
        assert((!(x & 0b1000) == !(x & 0b1_0000)) ==> ((x & 0b1000) == 0 && (x & 0b1_0000) == 0)) by (bit_vector);
    }
    if xcr & 0b1110_0000 != 0 {
        if xcr & 0b100 == 0 {
            return Err("YMM bits are not enabled");
        }
        if (xcr & 0b1110_0000) != 0b1110_0000 {
            return Err("Invalid bits set in XCR0");
        }
    }
    vcpu.guest_xcr0 = xcr;
    Ok(())
}

} // verus!
