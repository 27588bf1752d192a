//! Fixed-point vertical offsets, as consumed by the glyph blitting backend.

use vstd::prelude::*;

verus! {

/// A fixed-point number with eight fractional bits.  The represented value
/// is `whole + frac / 256`, where `whole` may be negative: glyphs that
/// extend below the baseline carry a negative vertical offset, and such
/// offsets must survive the conversion from integer metrics exactly.
#[derive(Clone, Copy, PartialEq, Eq, Structural, Debug)]
pub struct Fixed {
    pub whole: i16,
    pub frac: u8,
}

impl Fixed {
    /// The raw fixed-point bits: the represented value scaled by 256.
    pub open spec fn spec_bits(self) -> int {
        self.whole * 256 + self.frac
    }

    /// Converts an integer to fixed point without loss.
    pub fn from_integer(i: i16) -> (r: Fixed)
        ensures
            r == (Fixed { whole: i, frac: 0 }),
            r.spec_bits() == i * 256,
    {
        Fixed { whole: i, frac: 0 }
    }

    /// The integer part (rounding towards negative infinity).
    pub fn truncate(&self) -> (r: i16)
        ensures
            r == self.whole,
    {
        self.whole
    }

    /// The raw bits, for a backend that positions glyphs in fixed point.
    pub fn bits(&self) -> (r: i32)
        ensures
            r == self.spec_bits(),
    {
        (self.whole as i32) * 256 + (self.frac as i32)
    }
}

} // verus!
