//! Tracing one bounce of light: which way the bounced ray goes, and how
//! the material it hits is seen by it.

use vstd::prelude::*;

use crate::fixed::{greatest, product, HALF};
use crate::fixed::{greater, times};
use crate::surface::{cosine, cosine_between, Direction};

verus! {

/// Least roughness of a material as a bounced ray sees it: three quarters.
pub const INDIRECT_ROUGHNESS_FLOOR: u64 = 750_000;

/// Share of its reflectance that a material keeps as a bounced ray sees
/// it: one half.
pub const INDIRECT_REFLECTANCE_SHARE: u64 = HALF;

/// Which kind of indirect lighting a pass gathers.
#[derive(Clone, Copy, Debug, PartialEq, Eq, Structural)]
pub enum Domain {
    Diffuse,
    Specular,
}

/// What a pass does for one pixel.
#[derive(Clone, Copy, Debug, PartialEq, Eq, Structural)]
pub enum Trace {
    /// No ray is traced; the pixel's ray is written as all zero.
    Skip,
    /// A ray is traced in `direction`.
    Cast { direction: Direction },
}

/// The parameters of a material that shading a bounced ray depends on.
#[derive(Clone, Copy, Debug, PartialEq, Eq, Structural)]
pub struct Shininess {
    pub roughness: u64,
    pub reflectance: u64,
}

/// Whether a direction drawn from the specular lobe is of no use: it does
/// not rise above the surface with normal `normal`.
pub open spec fn is_invalid(direction: Direction, normal: Direction) -> bool {
    cosine_between(direction, normal) == 0
}

/// The direction of the bounced ray. The diffuse domain takes the
/// cosine-weighted direction drawn for it. The specular domain takes the
/// direction drawn from the specular lobe, or, where that is of no use,
/// the cosine-weighted direction drawn as a fallback.
pub open spec fn direction_of(
    domain: Domain,
    normal: Direction,
    diffuse: Direction,
    specular: Direction,
    fallback: Direction,
) -> Direction {
    match domain {
        Domain::Diffuse => diffuse,
        Domain::Specular => if is_invalid(specular, normal) {
            fallback
        } else {
            specular
        },
    }
}

/// What the pass does for a pixel: it traces a bounced ray only where the
/// primary ray hit a surface that needs this kind of lighting.
pub open spec fn trace_of(
    domain: Domain,
    hit: bool,
    needs_shading: bool,
    normal: Direction,
    diffuse: Direction,
    specular: Direction,
    fallback: Direction,
) -> Trace {
    if hit && needs_shading {
        Trace::Cast { direction: direction_of(domain, normal, diffuse, specular, fallback) }
    } else {
        Trace::Skip
    }
}

/// A material as a bounced ray sees it: no smoother than
/// `INDIRECT_ROUGHNESS_FLOOR` and with `INDIRECT_REFLECTANCE_SHARE` of its
/// reflectance, which keeps single bright reflections out of the bounce.
pub open spec fn adjusted(material: Shininess) -> Shininess {
    Shininess {
        roughness: greatest(material.roughness as int, INDIRECT_ROUGHNESS_FLOOR as int) as u64,
        reflectance: product(material.reflectance as int, INDIRECT_REFLECTANCE_SHARE as int) as u64,
    }
}

/// Decides what the pass does for a pixel. `hit` tells whether the primary
/// ray hit a surface, `needs_shading` whether that surface needs this kind
/// of lighting; `normal` is the surface's normal, `diffuse`, `specular` and
/// `fallback` are the directions drawn for the pixel.
pub fn trace(
    domain: Domain,
    hit: bool,
    needs_shading: bool,
    normal: Direction,
    diffuse: Direction,
    specular: Direction,
    fallback: Direction,
) -> (decision: Trace)
    ensures
        decision == trace_of(domain, hit, needs_shading, normal, diffuse, specular, fallback),
{
    if !hit || !needs_shading {
        return Trace::Skip;
    }
    let direction = match domain {
        Domain::Diffuse => diffuse,
        Domain::Specular => {
            if cosine(specular, normal) == 0 {
                fallback
            } else {
                specular
            }
        },
    };
    Trace::Cast { direction }
}

impl Shininess {
    /// Adjusts the material to how a bounced ray sees it.
    pub fn adjust_for_indirect(&mut self)
        ensures
            *final(self) == adjusted(*old(self)),
    {
        self.roughness = greater(self.roughness, INDIRECT_ROUGHNESS_FLOOR);
        self.reflectance = times(self.reflectance, INDIRECT_REFLECTANCE_SHARE);
    }
}

/// Where the direction drawn from the specular lobe rises above the
/// surface, the specular domain traces it unchanged.
pub proof fn useful_specular_sample_is_kept(
    normal: Direction,
    diffuse: Direction,
    specular: Direction,
    fallback: Direction,
)
    requires
        !is_invalid(specular, normal),
    ensures
        trace_of(Domain::Specular, true, true, normal, diffuse, specular, fallback) == (
        Trace::Cast { direction: specular }),
{
}

/// Where the direction drawn from the specular lobe is of no use, the
/// specular domain traces the fallback direction.
pub proof fn useless_specular_sample_falls_back(
    normal: Direction,
    diffuse: Direction,
    specular: Direction,
    fallback: Direction,
)
    requires
        is_invalid(specular, normal),
    ensures
        trace_of(Domain::Specular, true, true, normal, diffuse, specular, fallback) == (
        Trace::Cast { direction: fallback }),
{
}

} // verus!
