//! Linear RGB radiance in fixed point, and its luminance.

use vstd::prelude::*;

use crate::fixed::{greatest, product, saturate, ONE};
use crate::fixed::{greater, times};

verus! {

/// Share of red in the luminance.
pub const LUMA_RED: u64 = 212_600;

/// Share of green in the luminance.
pub const LUMA_GREEN: u64 = 715_200;

/// Share of blue in the luminance.
pub const LUMA_BLUE: u64 = 72_200;

/// A radiance or a contribution; every channel is in millionths.
#[derive(Clone, Copy, Debug, PartialEq, Eq, Structural)]
pub struct Rgb {
    pub r: u64,
    pub g: u64,
    pub b: u64,
}

/// The luminance of three channels: their dot product with the shares of
/// red, green and blue, which add up to one.
pub open spec fn luma(r: int, g: int, b: int) -> int {
    saturate((r * (LUMA_RED as int) + g * (LUMA_GREEN as int) + b * (LUMA_BLUE as int)) / (
    ONE as int))
}

impl Rgb {
    /// The colour with every channel multiplied by `factor`.
    pub open spec fn scaled(self, factor: u64) -> Rgb {
        Rgb {
            r: product(self.r as int, factor as int) as u64,
            g: product(self.g as int, factor as int) as u64,
            b: product(self.b as int, factor as int) as u64,
        }
    }

    /// The colour with every channel raised to at least `floor`.
    pub open spec fn raised(self, floor: u64) -> Rgb {
        Rgb {
            r: greatest(self.r as int, floor as int) as u64,
            g: greatest(self.g as int, floor as int) as u64,
            b: greatest(self.b as int, floor as int) as u64,
        }
    }

    /// The luminance of the colour.
    pub open spec fn luminance_value(self) -> int {
        luma(self.r as int, self.g as int, self.b as int)
    }

    /// The colour without light.
    pub fn black() -> (c: Rgb)
        ensures
            c == (Rgb { r: 0, g: 0, b: 0 }),
    {
        Rgb { r: 0, g: 0, b: 0 }
    }

    /// Multiplies every channel by `factor`.
    pub fn scale(self, factor: u64) -> (c: Rgb)
        ensures
            c == self.scaled(factor),
    {
        Rgb { r: times(self.r, factor), g: times(self.g, factor), b: times(self.b, factor) }
    }

    /// Raises every channel to at least `floor`.
    pub fn max(self, floor: u64) -> (c: Rgb)
        ensures
            c == self.raised(floor),
    {
        Rgb { r: greater(self.r, floor), g: greater(self.g, floor), b: greater(self.b, floor) }
    }

    /// The luminance of the colour.
    pub fn luminance(self) -> (y: u64)
        ensures
            y as int == self.luminance_value(),
    {
        let red: u128 = (self.r as u128) * 212_600u128;
        let green: u128 = (self.g as u128) * 715_200u128;
        let blue: u128 = (self.b as u128) * 72_200u128;
        let y: u128 = (red + green + blue) / 1_000_000u128;
        if y > u64::MAX as u128 {
            u64::MAX
        } else {
            y as u64
        }
    }
}

} // verus!
