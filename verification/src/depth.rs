//! Depth samples as bit patterns.

use vstd::prelude::*;

verus! {

/// Positive infinity: the mark of an output cell that no sample reached.
pub const NO_DEPTH: u32 = 0x7f80_0000;

/// Whether the single-precision number with these bits compares as less than
/// or equal to zero: either zero, or any negative number down to negative
/// infinity. Not-a-number compares as neither, whatever its sign bit.
pub open spec fn spec_at_most_zero(bits: u32) -> bool {
    bits == 0 || 0x8000_0000 <= bits <= 0xff80_0000
}

/// Whether these bits are one of the two zeros, `0.0` and `-0.0`.
pub open spec fn spec_is_zero(bits: u32) -> bool {
    bits == 0 || bits == 0x8000_0000
}

/// Whether a sample is one that the sensor uses for "no reading": zero or
/// below.
pub fn at_most_zero(bits: u32) -> (out: bool)
    ensures
        out == spec_at_most_zero(bits),
{
    bits == 0 || (0x8000_0000 <= bits && bits <= 0xff80_0000)
}

} // verus!
