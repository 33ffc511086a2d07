//! Bit-level facts shared by the bitmap, page-table and register code.
use vstd::prelude::*;

verus! {

/// Whether bit `b` of `w` is set.
pub open spec fn bit64(w: u64, b: u64) -> bool {
    w & (1u64 << b) != 0
}

/// Setting or clearing one bit of a word leaves every other bit alone.
pub proof fn lemma_bit64_update(w: u64, a: u64, b: u64)
    by (bit_vector)
    requires
        a < 64,
        b < 64,
    ensures
        bit64(w | (1u64 << a), b) == (a == b || bit64(w, b)),
        bit64(w & !(1u64 << a), b) == (a != b && bit64(w, b)),
{
}

/// No bit of zero is set.
pub proof fn lemma_bit64_zero(b: u64)
    by (bit_vector)
    requires
        b < 64,
    ensures
        !bit64(0, b),
{
}

} // verus!
