//! Choosing the light that shades a surface: every light of the scene and
//! the sky are streamed through a reservoir, weighted by what each would
//! contribute if nothing stood in its way.

use vstd::prelude::*;

use crate::color::Rgb;
use crate::fixed::{greater, greatest, product, sum, times, ONE, QUARTER};
use crate::noise::Noise;
use crate::reservoir::{admits, Reservoir};
use crate::sample::{DirectReservoir, DirectReservoirSample, LightId, SKY};

verus! {

/// By how much the sky is brightened where the ray met no surface: nine.
pub const SKY_EXPOSURE_ESCAPED: u64 = 9_000_000;

/// By how much the sky is brightened where the ray met a surface: four and
/// a half.
pub const SKY_EXPOSURE_HIT: u64 = 4_500_000;

/// A reservoir that has seen nothing yet.
pub open spec fn vacant() -> DirectReservoir {
    Reservoir {
        sample: DirectReservoirSample {
            light_id: LightId { id: 0 },
            light_contribution: Rgb { r: 0, g: 0, b: 0 },
        },
        w_sum: 0,
        m_sum: 0,
        w: 0,
    }
}

/// The sample for light `index` with the given unshadowed contribution.
pub open spec fn candidate(index: int, contribution: Rgb) -> DirectReservoirSample {
    DirectReservoirSample { light_id: LightId { id: index as u32 }, light_contribution: contribution }
}

/// The reservoir and the noise after the lights with the given unshadowed
/// contributions have been streamed in order, each weighted by the
/// luminance of its contribution.
pub open spec fn lights_streamed(noise: Noise, contributions: Seq<Rgb>) -> (DirectReservoir, Noise)
    decreases contributions.len(),
{
    if contributions.len() == 0 {
        (vacant(), noise)
    } else {
        let last = contributions.len() - 1;
        let (reservoir, drawn) = lights_streamed(noise, contributions.drop_last());
        (
            reservoir.added(
                drawn.upcoming(),
                candidate(last, contributions[last]),
                contributions[last].luminance_value() as u64,
            ),
            drawn.advanced(),
        )
    }
}

/// The weight with which the sky enters a reservoir whose weights sum to
/// `w_sum`: a quarter of that sum and one millionth at least, or one where
/// the sum is zero. It is never zero.
pub open spec fn sky_weight_of(w_sum: int) -> int {
    if w_sum == 0 {
        ONE as int
    } else {
        greatest(product(QUARTER as int, w_sum), 1)
    }
}

/// By how much the sky is brightened, to make up for the bounces of light
/// that are not traced.
pub open spec fn sky_exposure_of(escaped: bool) -> u64 {
    if escaped {
        SKY_EXPOSURE_ESCAPED
    } else {
        SKY_EXPOSURE_HIT
    }
}

/// The sample that stands for the sky, given the radiance of the atmosphere
/// towards the sky direction.
pub open spec fn sky_candidate(atmosphere: Rgb, escaped: bool) -> DirectReservoirSample {
    DirectReservoirSample {
        light_id: LightId { id: SKY },
        light_contribution: atmosphere.scaled(sky_exposure_of(escaped)),
    }
}

/// The reservoir after the sky has been offered to it.
pub open spec fn with_sky(reservoir: DirectReservoir, u: int, atmosphere: Rgb, escaped: bool)
    -> DirectReservoir {
    reservoir.added(
        u,
        sky_candidate(atmosphere, escaped),
        sky_weight_of(reservoir.w_sum as int) as u64,
    )
}

/// Streams the lights through a new reservoir. `contributions[i]` is what
/// light `i` would contribute if nothing shadowed it.
pub fn stream_lights(noise: &mut Noise, contributions: &[Rgb]) -> (reservoir: DirectReservoir)
    requires
        contributions@.len() <= u32::MAX,
    ensures
        reservoir == lights_streamed(*old(noise), contributions@).0,
        *final(noise) == lights_streamed(*old(noise), contributions@).1,
{
    let ghost start = *noise;
    let mut reservoir = Reservoir::empty(DirectReservoirSample::placeholder());
    let mut light_idx: usize = 0;
    while light_idx < contributions.len()
        invariant
            light_idx <= contributions@.len() <= u32::MAX,
            reservoir == lights_streamed(start, contributions@.take(light_idx as int)).0,
            *noise == lights_streamed(start, contributions@.take(light_idx as int)).1,
        decreases contributions@.len() - light_idx,
    {
        let light_contribution = contributions[light_idx];
        let sample = DirectReservoirSample {
            light_id: LightId::new(light_idx as u32),
            light_contribution,
        };
        let weight = sample.p_hat();
        assert(contributions@.take(light_idx + 1).drop_last() == contributions@.take(
            light_idx as int,
        ));
        reservoir.add(noise, sample, weight);
        light_idx += 1;
    }
    assert(contributions@.take(light_idx as int) == contributions@);
    reservoir
}

/// The weight with which the sky enters a reservoir whose weights sum to
/// `w_sum`.
pub fn sky_weight(w_sum: u64) -> (weight: u64)
    ensures
        weight as int == sky_weight_of(w_sum as int),
        weight > 0,
{
    if w_sum == 0 {
        ONE
    } else {
        greater(times(QUARTER, w_sum), 1)
    }
}

/// By how much the sky is brightened: nine where the ray escaped, four and
/// a half where it hit a surface.
pub fn sky_exposure(escaped: bool) -> (exposure: u64)
    ensures
        exposure == sky_exposure_of(escaped),
{
    if escaped {
        SKY_EXPOSURE_ESCAPED
    } else {
        SKY_EXPOSURE_HIT
    }
}

/// Offers the sky to the reservoir. `atmosphere` is the radiance of the
/// atmosphere towards the sky direction, `escaped` tells whether the ray
/// that is being shaded met no surface. Returns whether the sky was chosen
/// over what the reservoir held.
pub fn add_sky(
    reservoir: &mut DirectReservoir,
    noise: &mut Noise,
    atmosphere: Rgb,
    escaped: bool,
) -> (chosen: bool)
    ensures
        *final(reservoir) == with_sky(*old(reservoir), old(noise).upcoming(), atmosphere, escaped),
        *final(noise) == old(noise).advanced(),
        chosen == admits(
            old(noise).upcoming(),
            sky_weight_of(old(reservoir).w_sum as int),
            sum(old(reservoir).w_sum as int, sky_weight_of(old(reservoir).w_sum as int)),
        ),
{
    let weight = sky_weight(reservoir.w_sum);
    let sample = DirectReservoirSample::sky(atmosphere.scale(sky_exposure(escaped)));
    reservoir.add(noise, sample, weight)
}

/// Where the atmosphere is to be looked up for the sky's contribution.
#[derive(Clone, Copy, Debug, PartialEq, Eq, Structural)]
pub enum SkyLookup {
    /// In the direction in which the ray escaped.
    Escape,
    /// In a direction round the normal of the surface that the ray hit,
    /// formed from these two numbers of the unit interval.
    Around { first: u64, second: u64 },
}

/// A choice of light that waits for the radiance of the atmosphere.
#[derive(Clone, Copy, Debug)]
pub struct AwaitingSky {
    pub noise: Noise,
    /// The reservoir after the lights.
    pub reservoir: DirectReservoir,
    /// Whether the ray that is being shaded met no surface.
    pub escaped: bool,
    /// Where the atmosphere is to be looked up.
    pub lookup: SkyLookup,
}

/// A choice of light that is made.
#[derive(Clone, Copy, Debug)]
pub struct Chosen {
    pub noise: Noise,
    /// The reservoir after the lights and the sky; its sample is the light
    /// towards which the shadow ray is cast.
    pub reservoir: DirectReservoir,
}

/// The choice after the lights. Where the ray escaped there is no surface
/// to light, and the lights are left out. Where the ray hit a surface, two
/// numbers are drawn for the direction of the lookup.
pub open spec fn begun(noise: Noise, escaped: bool, contributions: Seq<Rgb>) -> AwaitingSky {
    if escaped {
        AwaitingSky { noise, reservoir: vacant(), escaped, lookup: SkyLookup::Escape }
    } else {
        let (reservoir, drawn) = lights_streamed(noise, contributions);
        AwaitingSky {
            noise: drawn.advanced().advanced(),
            reservoir,
            escaped,
            lookup: SkyLookup::Around {
                first: drawn.upcoming() as u64,
                second: drawn.advanced().upcoming() as u64,
            },
        }
    }
}

impl AwaitingSky {
    /// The choice after the sky, given the radiance of the atmosphere where
    /// it was looked up.
    pub open spec fn completed(self, atmosphere: Rgb) -> Chosen {
        Chosen {
            noise: self.noise.advanced(),
            reservoir: with_sky(self.reservoir, self.noise.upcoming(), atmosphere, self.escaped),
        }
    }

    /// Offers the sky, whose radiance where it was looked up is
    /// `atmosphere`, and so completes the choice.
    pub fn sky_evaluated(self, atmosphere: Rgb) -> (chosen: Chosen)
        ensures
            chosen == self.completed(atmosphere),
    {
        let mut noise = self.noise;
        let mut reservoir = self.reservoir;
        add_sky(&mut reservoir, &mut noise, atmosphere, self.escaped);
        Chosen { noise, reservoir }
    }
}

/// Begins the choice of the light that shades the end of a ray: streams
/// the lights and tells where to look the atmosphere up. `escaped` tells
/// whether the ray met no surface; `contributions[i]` is what light `i`
/// would contribute at the surface if nothing shadowed it, and counts only
/// where the ray hit one.
pub fn begin(noise: Noise, escaped: bool, contributions: &[Rgb]) -> (waiting: AwaitingSky)
    requires
        contributions@.len() <= u32::MAX,
    ensures
        waiting == begun(noise, escaped, contributions@),
{
    let mut noise = noise;
    if escaped {
        let reservoir = Reservoir::empty(DirectReservoirSample::placeholder());
        AwaitingSky { noise, reservoir, escaped, lookup: SkyLookup::Escape }
    } else {
        let reservoir = stream_lights(&mut noise, contributions);
        let first = noise.sample();
        let second = noise.sample();
        AwaitingSky { noise, reservoir, escaped, lookup: SkyLookup::Around { first, second } }
    }
}

/// A ray that escaped is shaded by the sky alone, brightened ninefold:
/// whatever numbers are drawn, the light chosen for it is the sky, with
/// nine times the radiance of the atmosphere as its contribution.
pub proof fn escaped_ray_is_lit_by_the_sky(noise: Noise, contributions: Seq<Rgb>, atmosphere: Rgb)
    ensures
        begun(noise, true, contributions).completed(atmosphere).reservoir.sample == (
        DirectReservoirSample {
            light_id: LightId { id: SKY },
            light_contribution: atmosphere.scaled(SKY_EXPOSURE_ESCAPED),
        }),
        begun(noise, true, contributions).lookup == SkyLookup::Escape,
{
    assert(noise.upcoming() <= ONE) by {
        assert(noise.upcoming_word() <= u32::MAX);
        assert((noise.upcoming_word() as int * (ONE as int)) / (u32::MAX as int) <= ONE as int)
            by (nonlinear_arith)
            requires
                0 <= noise.upcoming_word() as int <= u32::MAX as int,
                ONE as int == 1_000_000,
        ;
    }
    assert(noise.upcoming() * (ONE as int) <= (ONE as int) * (ONE as int)) by (nonlinear_arith)
        requires
            noise.upcoming() <= ONE as int,
    ;
}

} // verus!
