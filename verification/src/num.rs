//! Integer facts shared by the programs.
use vstd::prelude::*;

verus! {

/// The value that a `u64` takes when reinterpreted as an `i64` (two's
/// complement): unchanged up to `i64::MAX`, else shifted down by 2^64.
pub open spec fn signed(x: u64) -> int {
    if x <= i64::MAX {
        x as int
    } else {
        x as int - 0x1_0000_0000_0000_0000int
    }
}

/// The cast `x as i64` gives `signed(x)`.
pub proof fn lemma_as_i64(x: u64)
    ensures
        (x as i64) as int == signed(x),
{
    let r = x as i64;
    assert(x <= 0x7fff_ffff_ffff_ffffu64 ==> r == x) by (bit_vector)
        requires
            r == x as i64,
    ;
    assert(x > 0x7fff_ffff_ffff_ffffu64 ==> r == x - 0x1_0000_0000_0000_0000int) by (bit_vector)
        requires
            r == x as i64,
    ;
}

/// Whether an integer fits in an `i64`.
pub open spec fn fits_i64(v: int) -> bool {
    i64::MIN <= v <= i64::MAX
}

} // verus!
