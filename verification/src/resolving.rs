//! Turning reservoirs into the radiance that is written to the images.

use vstd::prelude::*;

use crate::color::Rgb;
use crate::fixed::{product, times};
use crate::sample::{DirectReservoir, IndirectReservoir};

verus! {

/// The least radiance that direct lighting writes in any channel: one
/// millionth.
pub const MIN_DIRECT_RADIANCE: u64 = 1;

/// The colour of the light chosen for a pixel, as the initial shading
/// writes it: its unshadowed contribution where the shadow ray reached it,
/// and `MIN_DIRECT_RADIANCE` in every channel at least.
pub open spec fn lit(contribution: Rgb, visibility: u64) -> Rgb {
    contribution.scaled(visibility).raised(MIN_DIRECT_RADIANCE)
}

/// The direct radiance of a pixel: the contribution of the light its
/// reservoir kept, times the reservoir's factor.
pub open spec fn direct_radiance(reservoir: DirectReservoir) -> Rgb {
    reservoir.sample.light_contribution.scaled(reservoir.w)
}

/// The indirect radiance of a pixel: the radiance of the sample its
/// reservoir kept, times the cosine between the surface's normal and the
/// direction to the sample, times the reservoir's factor.
pub open spec fn indirect_radiance(reservoir: IndirectReservoir, cosine: u64) -> Rgb {
    reservoir.sample.radiance.scaled(product(reservoir.w as int, cosine as int) as u64)
}

/// The colour of the light chosen for a pixel. `visibility` is one where
/// the shadow ray reached the light and zero where it did not.
pub fn shade_direct(contribution: Rgb, visibility: u64) -> (color: Rgb)
    ensures
        color == lit(contribution, visibility),
{
    contribution.scale(visibility).max(MIN_DIRECT_RADIANCE)
}

/// The direct radiance of a pixel.
pub fn resolve_direct(reservoir: &DirectReservoir) -> (radiance: Rgb)
    ensures
        radiance == direct_radiance(*reservoir),
{
    reservoir.sample.light_contribution.scale(reservoir.w)
}

/// The indirect radiance of a pixel. `cosine` is the cosine between the
/// normal of the surface seen through the pixel and the direction from it
/// to the sample, zero where they face apart.
pub fn resolve_indirect(reservoir: &IndirectReservoir, cosine: u64) -> (radiance: Rgb)
    ensures
        radiance == indirect_radiance(*reservoir, cosine),
{
    reservoir.sample.radiance.scale(times(reservoir.w, cosine))
}

} // verus!
