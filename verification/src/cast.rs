//! Integer conversions, made by the `az` crate.

use vstd::prelude::*;

verus! {

/// `az::cast` from `i32` to `u32`. For a value that fits, `az` returns the
/// same number in the new type; for a negative one it panics or wraps, so
/// those are left out.
#[verifier::external_body]
pub(crate) fn to_u32(value: i32) -> (out: u32)
    requires
        value >= 0,
    ensures
        out == value,
{
    az::cast::<i32, u32>(value)
}

/// `az::cast` from `u32` to `usize`. For a value that fits, `az` returns the
/// same number in the new type.
#[verifier::external_body]
pub(crate) fn to_usize(value: u32) -> (out: usize)
    requires
        value <= usize::MAX,
    ensures
        out == value,
{
    az::cast::<u32, usize>(value)
}

} // verus!
