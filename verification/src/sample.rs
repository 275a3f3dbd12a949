//! The samples that reservoirs keep: a light for direct lighting, a path
//! vertex for indirect lighting.

use vstd::prelude::*;

use crate::bvh::Point;
use crate::color::Rgb;
use crate::reservoir::Reservoir;

verus! {

/// Light id that stands for the sky.
pub const SKY: u32 = 0xffff_ffff;

/// Age at which a sample stops growing older.
pub const MAX_AGE: u32 = 64;

/// Index into the table of lights, or the sky.
#[derive(Clone, Copy, Debug, PartialEq, Eq, Structural)]
pub struct LightId {
    pub id: u32,
}

/// A light together with what it would contribute if nothing shadowed it.
#[derive(Clone, Copy, Debug, PartialEq, Eq, Structural)]
pub struct DirectReservoirSample {
    pub light_id: LightId,
    pub light_contribution: Rgb,
}

/// A unit normal in its two-word octahedral encoding.
#[derive(Clone, Copy, Debug, PartialEq, Eq, Structural)]
pub struct Normal {
    pub x: u32,
    pub y: u32,
}

/// One bounce of light: what arrives at `hit_point` from `sample_point`.
#[derive(Clone, Copy, Debug, PartialEq, Eq, Structural)]
pub struct IndirectReservoirSample {
    pub radiance: Rgb,
    /// Where the primary ray hit.
    pub hit_point: Point,
    /// Where the bounced ray hit, or a far point along it if it escaped.
    pub sample_point: Point,
    /// Normal at `sample_point`.
    pub sample_normal: Normal,
    /// Frame in which the sample was traced.
    pub frame: u32,
}

/// A reservoir that keeps a light.
pub type DirectReservoir = Reservoir<DirectReservoirSample>;

/// A reservoir that keeps one bounce of light.
pub type IndirectReservoir = Reservoir<IndirectReservoirSample>;

/// Number of frames from `born` to `now`, counted round the 32-bit frame
/// counter and capped at `MAX_AGE`.
pub open spec fn age_between(born: u32, now: u32) -> u32 {
    let elapsed = if now >= born {
        now - born
    } else {
        now - born + 0x1_0000_0000
    };
    if elapsed > MAX_AGE as int {
        MAX_AGE
    } else {
        elapsed as u32
    }
}

impl LightId {
    /// The id of light number `id` of the table of lights.
    pub fn new(id: u32) -> (r: Self)
        ensures
            r.id == id,
    {
        LightId { id }
    }

    /// The id that stands for the sky.
    pub fn sky() -> (r: Self)
        ensures
            r.id == SKY,
    {
        LightId { id: SKY }
    }

    /// The light's number, or `SKY`.
    pub fn get(self) -> (id: u32)
        ensures
            id == self.id,
    {
        self.id
    }
}

impl DirectReservoirSample {
    /// The value of the target function: the luminance of the contribution.
    pub open spec fn target(self) -> int {
        self.light_contribution.luminance_value()
    }

    /// The sample that stands for the sky with the given contribution.
    pub fn sky(light_contribution: Rgb) -> (s: Self)
        ensures
            s == (DirectReservoirSample { light_id: LightId { id: SKY }, light_contribution }),
    {
        DirectReservoirSample { light_id: LightId::sky(), light_contribution }
    }

    /// A sample that only fills the slot of a vacant reservoir.
    pub fn placeholder() -> (s: Self)
        ensures
            s == (DirectReservoirSample {
                light_id: LightId { id: 0 },
                light_contribution: Rgb { r: 0, g: 0, b: 0 },
            }),
    {
        DirectReservoirSample { light_id: LightId::new(0), light_contribution: Rgb::black() }
    }

    /// Whether the sample stands for the sky.
    pub fn is_sky(&self) -> (sky: bool)
        ensures
            sky == (self.light_id.id == SKY),
    {
        self.light_id.id == SKY
    }

    /// The value of the target function for this sample.
    pub fn p_hat(&self) -> (p: u64)
        ensures
            p as int == self.target(),
    {
        self.light_contribution.luminance()
    }
}

impl IndirectReservoirSample {
    /// The value of the target function: the luminance of the radiance.
    pub open spec fn target(self) -> int {
        self.radiance.luminance_value()
    }

    /// A sample that only fills the slot of a vacant reservoir.
    pub fn placeholder() -> (s: Self)
        ensures
            s == (IndirectReservoirSample {
                radiance: Rgb { r: 0, g: 0, b: 0 },
                hit_point: Point { x: 0, y: 0, z: 0 },
                sample_point: Point { x: 0, y: 0, z: 0 },
                sample_normal: Normal { x: 0, y: 0 },
                frame: 0,
            }),
    {
        IndirectReservoirSample {
            radiance: Rgb::black(),
            hit_point: Point { x: 0, y: 0, z: 0 },
            sample_point: Point { x: 0, y: 0, z: 0 },
            sample_normal: Normal { x: 0, y: 0 },
            frame: 0,
        }
    }

    /// The value of the target function for this sample.
    pub fn p_hat(&self) -> (p: u64)
        ensures
            p as int == self.target(),
    {
        self.radiance.luminance()
    }

    /// The value of the target function when the sample is reused in a
    /// later frame. It is that of `p_hat`.
    pub fn temporal_p_hat(&self) -> (p: u64)
        ensures
            p as int == self.target(),
    {
        self.radiance.luminance()
    }

    /// Age of the sample in frame `now`.
    pub fn age(&self, now: u32) -> (age: u32)
        ensures
            age == age_between(self.frame, now),
            age <= MAX_AGE,
    {
        let elapsed: u32 = now.wrapping_sub(self.frame);
        if elapsed > MAX_AGE {
            MAX_AGE
        } else {
            elapsed
        }
    }
}

impl Default for DirectReservoirSample {
    /// The sample that only fills the slot of a vacant reservoir.
    fn default() -> (s: Self)
        ensures
            s == (DirectReservoirSample {
                light_id: LightId { id: 0 },
                light_contribution: Rgb { r: 0, g: 0, b: 0 },
            }),
    {
        DirectReservoirSample::placeholder()
    }
}

impl Default for IndirectReservoirSample {
    /// The sample that only fills the slot of a vacant reservoir.
    fn default() -> (s: Self)
        ensures
            s == (IndirectReservoirSample {
                radiance: Rgb { r: 0, g: 0, b: 0 },
                hit_point: Point { x: 0, y: 0, z: 0 },
                sample_point: Point { x: 0, y: 0, z: 0 },
                sample_normal: Normal { x: 0, y: 0 },
                frame: 0,
            }),
    {
        IndirectReservoirSample::placeholder()
    }
}

} // verus!
