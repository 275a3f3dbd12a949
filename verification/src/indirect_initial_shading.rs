//! Shading of the surface that a bounced ray hit, which yields the sample a
//! pixel offers to its indirect reservoirs.
//!
//! The steps of one pixel, in order: the lights are streamed through a
//! reservoir (`lighting::begin`), the atmosphere is looked up and the sky
//! is offered (`AwaitingSky::sky_evaluated`), a shadow ray is cast towards
//! the light that was chosen, and the sample is formed (`initial_sample`).
//! Tracing rays and evaluating lights and the atmosphere is the caller's
//! part.

use vstd::prelude::*;

use crate::bvh::Point;
use crate::camera::ScreenPos;
use crate::color::Rgb;
use crate::fixed::ONE;
use crate::lighting::{
    begin, begun, escaped_ray_is_lit_by_the_sky, SkyLookup, SKY_EXPOSURE_ESCAPED,
};
use crate::noise::{seeded_state, Noise};
use crate::sample::{DirectReservoirSample, IndirectReservoirSample, LightId, Normal, SKY};

verus! {

/// The least radiance a sample carries in any channel: one millionth. It
/// keeps the target function of every sample positive.
pub const MIN_RADIANCE: u64 = 1;

/// Where a bounced ray ended.
#[derive(Clone, Copy, Debug, PartialEq, Eq, Structural)]
pub enum Bounce {
    /// It hit a surface at `point`, whose normal there is `normal`.
    Hit { point: Point, normal: Normal },
    /// It met nothing. `toward` is the direction back along the ray and
    /// `far_point` a distant point in the direction of the sky.
    Escaped { toward: Normal, far_point: Point },
}

/// The radiance that the chosen light sends along the bounced ray:
/// its contribution times its visibility, times the cosine between the ray
/// and the primary surface's normal unless the sky was chosen, and at least
/// `MIN_RADIANCE` in every channel.
pub open spec fn radiance_of(chosen: DirectReservoirSample, visibility: u64, cosine: u64) -> Rgb {
    let lit = chosen.light_contribution.scaled(visibility);
    if chosen.light_id.id == SKY {
        lit.raised(MIN_RADIANCE)
    } else {
        lit.scaled(cosine).raised(MIN_RADIANCE)
    }
}

/// The sample formed from the chosen light and the end of the bounced ray.
pub open spec fn sample_of(
    chosen: DirectReservoirSample,
    visibility: u64,
    cosine: u64,
    hit_point: Point,
    bounce: Bounce,
    frame: u32,
) -> IndirectReservoirSample {
    IndirectReservoirSample {
        radiance: radiance_of(chosen, visibility, cosine),
        hit_point,
        sample_point: match bounce {
            Bounce::Hit { point, .. } => point,
            Bounce::Escaped { far_point, .. } => far_point,
        },
        sample_normal: match bounce {
            Bounce::Hit { normal, .. } => normal,
            Bounce::Escaped { toward, .. } => toward,
        },
        frame,
    }
}

impl Bounce {
    /// Whether the ray met no surface.
    pub fn is_none(&self) -> (escaped: bool)
        ensures
            escaped == (*self is Escaped),
    {
        match self {
            Bounce::Hit { .. } => false,
            Bounce::Escaped { .. } => true,
        }
    }

    /// Whether the ray hit a surface.
    pub fn is_some(&self) -> (hit: bool)
        ensures
            hit == (*self is Hit),
    {
        !self.is_none()
    }
}

/// The radiance that the chosen light sends along the bounced ray.
/// `visibility` is one where the shadow ray reached the light and zero
/// where it did not; `cosine` is the cosine between the bounced ray and the
/// primary surface's normal, zero where they face apart.
pub fn shade(chosen: DirectReservoirSample, visibility: u64, cosine: u64) -> (radiance: Rgb)
    ensures
        radiance == radiance_of(chosen, visibility, cosine),
        radiance.r >= MIN_RADIANCE && radiance.g >= MIN_RADIANCE && radiance.b >= MIN_RADIANCE,
{
    let mut color = chosen.light_contribution.scale(visibility);
    if chosen.is_sky() {
        // The cosine is left out on purpose: only one bounce is traced, and
        // the sky would come out too dark with it.
    } else {
        color = color.scale(cosine);
    }
    color.max(MIN_RADIANCE)
}

/// Forms the sample that the pixel offers to its indirect reservoirs.
/// `direct_hit` is where the primary ray hit, if it hit; without a primary
/// hit there is no sample.
pub fn initial_sample(
    direct_hit: Option<Point>,
    bounce: Bounce,
    chosen: DirectReservoirSample,
    visibility: u64,
    cosine: u64,
    frame: u32,
) -> (sample: Option<IndirectReservoirSample>)
    ensures
        sample == match direct_hit {
            None => None::<IndirectReservoirSample>,
            Some(hit_point) => Some(
                sample_of(chosen, visibility, cosine, hit_point, bounce, frame),
            ),
        },
{
    match direct_hit {
        None => None,
        Some(hit_point) => {
            let radiance = shade(chosen, visibility, cosine);
            let (sample_point, sample_normal) = match bounce {
                Bounce::Hit { point, normal } => (point, normal),
                Bounce::Escaped { toward, far_point } => (far_point, toward),
            };
            Some(IndirectReservoirSample { radiance, hit_point, sample_point, sample_normal, frame })
        },
    }
}

/// The noise of a pixel after the two numbers for the direction of its
/// bounced ray have been drawn from it.
pub open spec fn noise_after_ray(seed: u32, global_id: ScreenPos) -> Noise {
    (Noise { state: seeded_state(seed, global_id.x, global_id.y) }).advanced().advanced()
}

/// Where the atmosphere is looked up for a pixel.
pub open spec fn lookup_of(
    seed: u32,
    global_id: ScreenPos,
    bounce: Bounce,
    contributions: Seq<Rgb>,
) -> SkyLookup {
    begun(noise_after_ray(seed, global_id), bounce is Escaped, contributions).lookup
}

/// The light that is chosen for a pixel, given the radiance `sky` of the
/// atmosphere where it was looked up.
pub open spec fn light_of(
    seed: u32,
    global_id: ScreenPos,
    bounce: Bounce,
    contributions: Seq<Rgb>,
    sky: Rgb,
) -> DirectReservoirSample {
    begun(noise_after_ray(seed, global_id), bounce is Escaped, contributions).completed(
        sky,
    ).reservoir.sample
}

/// The sample of a pixel whose primary ray hit at `hit_point`, given the
/// radiance `sky` of the atmosphere where it was looked up and whether the
/// shadow ray has `seen` the light that was chosen.
pub open spec fn shaded(
    seed: u32,
    global_id: ScreenPos,
    frame: u32,
    hit_point: Point,
    bounce: Bounce,
    contributions: Seq<Rgb>,
    cosine: u64,
    sky: Rgb,
    seen: u64,
) -> IndirectReservoirSample {
    sample_of(
        light_of(seed, global_id, bounce, contributions, sky),
        seen,
        cosine,
        hit_point,
        bounce,
        frame,
    )
}

/// Shades the end of the bounced ray of pixel `global_id` and forms the
/// sample that the pixel offers to its indirect reservoirs; a pixel whose
/// primary ray hit nothing has none.
///
/// `bounce` tells where the bounced ray ended, `cosine` the cosine between
/// it and the normal of the primary surface. `contributions[i]` is what
/// light `i` would contribute where the ray ended if nothing shadowed it.
/// `atmosphere` gives the radiance of the atmosphere where it is looked
/// up, and `visibility` tells, by one or zero, whether a shadow ray
/// reaches a light; each is asked once at most.
pub fn main_inner(
    seed: u32,
    global_id: ScreenPos,
    frame: u32,
    direct_hit: Option<Point>,
    bounce: Bounce,
    contributions: &[Rgb],
    cosine: u64,
    atmosphere: impl Fn(SkyLookup) -> Rgb,
    visibility: impl Fn(LightId, SkyLookup) -> u64,
) -> (sample: Option<IndirectReservoirSample>)
    requires
        contributions@.len() <= u32::MAX,
        forall|lookup: SkyLookup| atmosphere.requires((lookup,)),
        forall|light: LightId, lookup: SkyLookup| visibility.requires((light, lookup)),
    ensures
        match direct_hit {
            None => sample is None,
            Some(hit_point) => exists|sky: Rgb, seen: u64|
                {
                    &&& atmosphere.ensures(
                        (lookup_of(seed, global_id, bounce, contributions@),),
                        sky,
                    )
                    &&& visibility.ensures(
                        (
                            light_of(seed, global_id, bounce, contributions@, sky).light_id,
                            lookup_of(seed, global_id, bounce, contributions@),
                        ),
                        seen,
                    )
                    &&& sample == Some(
                        #[trigger] shaded(
                            seed,
                            global_id,
                            frame,
                            hit_point,
                            bounce,
                            contributions@,
                            cosine,
                            sky,
                            seen,
                        ),
                    )
                },
        },
        sample matches Some(formed) ==> formed.radiance.r >= MIN_RADIANCE && formed.radiance.g
            >= MIN_RADIANCE && formed.radiance.b >= MIN_RADIANCE && formed.frame == frame,
{
    let mut noise = Noise::new(seed, global_id.x, global_id.y);
    let hit_point = match direct_hit {
        None => {
            return None;
        },
        Some(hit_point) => hit_point,
    };
    // The direction of the bounced ray was drawn from these two numbers.
    noise.sample();
    noise.sample();

    let waiting = begin(noise, bounce.is_none(), contributions);
    let sky = atmosphere(waiting.lookup);
    let chosen = waiting.sky_evaluated(sky).reservoir.sample;
    let seen = visibility(chosen.light_id, waiting.lookup);
    let sample = initial_sample(Some(hit_point), bounce, chosen, seen, cosine, frame);
    assert(sample == Some(
        shaded(seed, global_id, frame, hit_point, bounce, contributions@, cosine, sky, seen),
    ));
    sample
}

/// A pixel whose bounced ray escaped shows the sky, brightened exactly
/// ninefold and not dimmed by the cosine: where the shadow ray reaches
/// the sun, every channel of its sample is nine times that of the
/// atmosphere, and one millionth at least.
pub proof fn escaped_pixel_shows_nine_times_the_sky(
    seed: u32,
    global_id: ScreenPos,
    frame: u32,
    hit_point: Point,
    toward: Normal,
    far_point: Point,
    contributions: Seq<Rgb>,
    cosine: u64,
    sky: Rgb,
)
    ensures
        shaded(
            seed,
            global_id,
            frame,
            hit_point,
            Bounce::Escaped { toward, far_point },
            contributions,
            cosine,
            sky,
            ONE,
        ).radiance == sky.scaled(SKY_EXPOSURE_ESCAPED).scaled(ONE).raised(MIN_RADIANCE),
        sky.scaled(SKY_EXPOSURE_ESCAPED).scaled(ONE) == sky.scaled(SKY_EXPOSURE_ESCAPED),
{
    escaped_ray_is_lit_by_the_sky(noise_after_ray(seed, global_id), contributions, sky);
    let bright = sky.scaled(SKY_EXPOSURE_ESCAPED);
    assert(bright.scaled(ONE) == bright) by {
        assert((bright.r as int * (ONE as int)) / (ONE as int) == bright.r as int)
            by (nonlinear_arith);
        assert((bright.g as int * (ONE as int)) / (ONE as int) == bright.g as int)
            by (nonlinear_arith);
        assert((bright.b as int * (ONE as int)) / (ONE as int) == bright.b as int)
            by (nonlinear_arith);
    }
}

} // verus!
