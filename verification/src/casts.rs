//! Checked conversions between integer types.
use numeric_cast::NumericCast;
use vstd::prelude::*;

verus! {

/// `numeric_cast::NumericCast::numeric_cast` from `i32` to `usize`: the same
/// number. The call panics on a negative number, which is left out here.
#[verifier::external_body]
pub(crate) fn count_to_usize(n: i32) -> (r: usize)
    requires
        n >= 0,
    ensures
        r == n,
{
    n.numeric_cast()
}

/// `numeric_cast::NumericCast::numeric_cast` from `usize` to `u64`: the same
/// number.
#[verifier::external_body]
pub(crate) fn addr_to_u64(a: usize) -> (r: u64)
    ensures
        r == a,
{
    a.numeric_cast()
}

} // verus!
