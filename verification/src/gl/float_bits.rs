//! The equality of `f32` values held as their IEEE 754 bit patterns (as
//! given by `f32::to_bits`).

use vstd::prelude::*;

verus! {

/// Whether the bit pattern `a` is a NaN: all exponent bits set and a
/// non-zero mantissa.
pub open spec fn bits_are_nan(a: u32) -> bool {
    (a & 0x7F80_0000u32) == 0x7F80_0000u32 && (a & 0x007F_FFFFu32) != 0
}

/// Whether the bit pattern `a` is a zero, positive or negative.
pub open spec fn bits_are_zero(a: u32) -> bool {
    (a & 0x7FFF_FFFFu32) == 0
}

/// Whether the `f32` values of the bit patterns `a` and `b` are equal as
/// `f32` compares them: a NaN equals nothing, the two zeros are equal, and
/// otherwise equal values have equal bit patterns.
pub open spec fn f32_bits_equal(a: u32, b: u32) -> bool {
    &&& !bits_are_nan(a)
    &&& !bits_are_nan(b)
    &&& (a == b || (bits_are_zero(a) && bits_are_zero(b)))
}

/// Compares the `f32` values of two bit patterns as `f32` compares them.
pub fn bits_equal(a: u32, b: u32) -> (r: bool)
    ensures
        r == f32_bits_equal(a, b),
{
    let a_nan = (a & 0x7F80_0000u32) == 0x7F80_0000u32 && (a & 0x007F_FFFFu32) != 0;
    let b_nan = (b & 0x7F80_0000u32) == 0x7F80_0000u32 && (b & 0x007F_FFFFu32) != 0;
    !a_nan && !b_nan && (a == b || ((a & 0x7FFF_FFFFu32) == 0 && (b & 0x7FFF_FFFFu32) == 0))
}

} // verus!
