//! Floating-point values carried by their IEEE 754 bit patterns, compared as
//! the floats they stand for: no NaN equals anything, and 0.0 equals -0.0.

use vstd::prelude::*;
use vstd::std_specs::cmp::PartialEqSpecImpl;

verus! {

/// The bits of an `f32` are those of a NaN.
pub open spec fn f32_bits_nan(b: u32) -> bool {
    b & 0x7f80_0000 == 0x7f80_0000 && b & 0x007f_ffff != 0
}

/// The `f32` values of two bit patterns are equal.
pub open spec fn f32_bits_eq(a: u32, b: u32) -> bool {
    !f32_bits_nan(a) && !f32_bits_nan(b) && (a == b || (a | b) & 0x7fff_ffff == 0)
}

/// The bits of an `f64` are those of a NaN.
pub open spec fn f64_bits_nan(b: u64) -> bool {
    b & 0x7ff0_0000_0000_0000 == 0x7ff0_0000_0000_0000 && b & 0x000f_ffff_ffff_ffff != 0
}

/// The `f64` values of two bit patterns are equal.
pub open spec fn f64_bits_eq(a: u64, b: u64) -> bool {
    !f64_bits_nan(a) && !f64_bits_nan(b) && (a == b || (a | b) & 0x7fff_ffff_ffff_ffff == 0)
}

/// An `f32` by its bits (`f32::to_bits`).
#[derive(Clone, Copy, Debug)]
pub struct F32Bits(pub u32);

/// An `f64` by its bits (`f64::to_bits`).
#[derive(Clone, Copy, Debug)]
pub struct F64Bits(pub u64);

impl PartialEq for F32Bits {
    fn eq(&self, other: &Self) -> (r: bool) {
        let a = self.0;
        let b = other.0;
        let a_nan = a & 0x7f80_0000 == 0x7f80_0000 && a & 0x007f_ffff != 0;
        let b_nan = b & 0x7f80_0000 == 0x7f80_0000 && b & 0x007f_ffff != 0;
        !a_nan && !b_nan && (a == b || (a | b) & 0x7fff_ffff == 0)
    }
}

impl PartialEqSpecImpl for F32Bits {
    open spec fn obeys_eq_spec() -> bool {
        true
    }

    open spec fn eq_spec(&self, other: &F32Bits) -> bool {
        f32_bits_eq(self.0, other.0)
    }
}

impl PartialEq for F64Bits {
    fn eq(&self, other: &Self) -> (r: bool) {
        let a = self.0;
        let b = other.0;
        let a_nan = a & 0x7ff0_0000_0000_0000 == 0x7ff0_0000_0000_0000 && a & 0x000f_ffff_ffff_ffff != 0;
        let b_nan = b & 0x7ff0_0000_0000_0000 == 0x7ff0_0000_0000_0000 && b & 0x000f_ffff_ffff_ffff != 0;
        !a_nan && !b_nan && (a == b || (a | b) & 0x7fff_ffff_ffff_ffff == 0)
    }
}

impl PartialEqSpecImpl for F64Bits {
    open spec fn obeys_eq_spec() -> bool {
        true
    }

    open spec fn eq_spec(&self, other: &F64Bits) -> bool {
        f64_bits_eq(self.0, other.0)
    }
}

} // verus!
