//! Numbers and colour coordinates of the resource model.
use vstd::prelude::*;

verus! {

/// A real number in IEEE 754 double precision, held by its bit pattern.
/// The library stores such numbers and hands them on; it never computes
/// with them. Two are the same where their bit patterns are.
#[derive(Debug, Clone, Copy, PartialEq, Eq, Structural, Hash)]
pub struct Real {
    pub bits: u64,
}

impl Real {
    /// The number with the bit pattern `bits`.
    pub fn from_bits(bits: u64) -> (r: Real)
        ensures
            r.bits == bits,
    {
        Real { bits }
    }

    /// The bit pattern of the number.
    pub fn to_bits(self) -> (bits: u64)
        ensures
            bits == self.bits,
    {
        self.bits
    }
}

/// Colour coordinates in the CIE xy plane.
#[derive(Debug, Clone, Copy, PartialEq, Eq, Structural, Hash)]
pub struct XY {
    pub x: Real,
    pub y: Real,
}

impl XY {
    pub fn new(x: Real, y: Real) -> (xy: XY)
        ensures
            xy == (XY { x, y }),
    {
        XY { x, y }
    }
}

/// Which of its two colour settings a light goes by.
#[derive(Debug, Clone, Copy, PartialEq, Eq, Structural, Hash)]
pub enum DeviceColorMode {
    ColorTemp,
    Xy,
}

} // verus!
