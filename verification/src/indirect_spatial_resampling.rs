//! Spatial reuse of indirect samples: a pixel's reservoir is merged with
//! those of a few pixels round it.

use vstd::prelude::*;

use crate::camera::{Camera, ScreenPos};
use crate::indirect_tracing::Domain;
use crate::noise::Noise;
use crate::pattern::MAX_RADIUS;
use crate::sample::{IndirectReservoir, IndirectReservoirSample};
use crate::spatial_resampling::{neighbour_at, neighbour_position, Gathered, Neighbour, TRIES};
use crate::surface::Surface;

verus! {

/// Cap on the reweighting factor: ten.
pub const MAX_W: u64 = 10_000_000;

/// Cap on the count of a diffuse reservoir: five hundred.
pub const DIFFUSE_MAX_M_SUM: u64 = 500_000_000;

/// Cap on the count of a specular reservoir: thirty.
pub const SPECULAR_MAX_M_SUM: u64 = 30_000_000;

/// Radius, in pixels, of the disk in which the neighbours of a diffuse
/// reservoir are looked for.
pub const DIFFUSE_RADIUS: u32 = 32;

/// Radius, in pixels, of the disk in which the neighbours of a specular
/// reservoir are looked for.
pub const SPECULAR_RADIUS: u32 = 8;

/// What one pixel's pass reads.
pub struct Surroundings {
    pub camera: Camera,
    pub screen_pos: ScreenPos,
    pub frame: u32,
    pub domain: Domain,
    /// The surface seen through the pixel.
    pub surface: Surface,
    /// The reservoirs of all pixels before the pass, row by row.
    pub reservoirs: Seq<IndirectReservoir>,
    /// The surfaces seen through all pixels, row by row.
    pub surfaces: Seq<Surface>,
}

/// Radius of the disk in which neighbours are looked for.
pub open spec fn radius_of(domain: Domain) -> u32 {
    match domain {
        Domain::Diffuse => DIFFUSE_RADIUS,
        Domain::Specular => SPECULAR_RADIUS,
    }
}

/// Cap on the count of a reservoir.
pub open spec fn max_m_sum_of(domain: Domain) -> u64 {
    match domain {
        Domain::Diffuse => DIFFUSE_MAX_M_SUM,
        Domain::Specular => SPECULAR_MAX_M_SUM,
    }
}

impl Surroundings {
    /// Whether both buffers hold the whole viewport.
    pub open spec fn is_valid(self) -> bool {
        &&& self.camera.is_valid()
        &&& self.reservoirs.len() == self.camera.viewport_size.x * self.camera.viewport_size.y
        &&& self.surfaces.len() == self.camera.viewport_size.x * self.camera.viewport_size.y
    }

    /// The pass after it has tried one more neighbour. The neighbour's
    /// sample is weighed by its own target function, which does not depend
    /// on the surface that reuses it.
    pub open spec fn visited(self, before: Gathered<IndirectReservoirSample>) -> Gathered<
        IndirectReservoirSample,
    > {
        let (pos, drawn) = neighbour_position(
            before.noise,
            self.camera,
            self.screen_pos,
            self.frame,
            radius_of(self.domain),
        );
        let idx = pos.y * self.camera.viewport_size.x + pos.x;
        (Gathered { reservoir: before.reservoir, noise: drawn, p_hat: before.p_hat }).tried(
            self.surface,
            Neighbour {
                reservoir: self.reservoirs[idx],
                surface: self.surfaces[idx],
                p_hat: self.reservoirs[idx].sample.target() as u64,
            },
        )
    }

    /// The pass after it has tried `tries` neighbours.
    pub open spec fn searched(self, before: Gathered<IndirectReservoirSample>, tries: nat)
        -> Gathered<IndirectReservoirSample>
        decreases tries,
    {
        if tries == 0 {
            before
        } else {
            self.visited(self.searched(before, (tries - 1) as nat))
        }
    }

    /// The pixel's reservoir after the pass.
    pub open spec fn resampled(self, noise: Noise, reservoir: IndirectReservoir) -> (
        IndirectReservoir,
        Noise,
    ) {
        let after = self.searched(
            Gathered { reservoir, noise, p_hat: reservoir.sample.target() as u64 },
            TRIES as nat,
        );
        (after.reservoir.normalized(after.p_hat, MAX_W, max_m_sum_of(self.domain)), after.noise)
    }
}

/// Merges the reservoirs of `TRIES` pixels round `screen_pos` into
/// `reservoir`, each only if its surface is similar enough to `surface`,
/// and normalises the result with the caps of `domain`. `reservoirs` and
/// `surfaces` hold the reservoirs and the surfaces of the whole viewport,
/// row by row.
pub fn resample(
    noise: &mut Noise,
    camera: &Camera,
    screen_pos: ScreenPos,
    frame: u32,
    domain: Domain,
    surface: &Surface,
    reservoir: IndirectReservoir,
    reservoirs: &[IndirectReservoir],
    surfaces: &[Surface],
) -> (merged: IndirectReservoir)
    requires
        (Surroundings {
            camera: *camera,
            screen_pos,
            frame,
            domain,
            surface: *surface,
            reservoirs: reservoirs@,
            surfaces: surfaces@,
        }).is_valid(),
    ensures
        (merged, *final(noise)) == (Surroundings {
            camera: *camera,
            screen_pos,
            frame,
            domain,
            surface: *surface,
            reservoirs: reservoirs@,
            surfaces: surfaces@,
        }).resampled(*old(noise), reservoir),
        merged.w <= MAX_W,
        merged.m_sum <= max_m_sum_of(domain),
{
    let ghost around = Surroundings {
        camera: *camera,
        screen_pos,
        frame,
        domain,
        surface: *surface,
        reservoirs: reservoirs@,
        surfaces: surfaces@,
    };
    let (radius, max_m_sum) = match domain {
        Domain::Diffuse => (DIFFUSE_RADIUS, DIFFUSE_MAX_M_SUM),
        Domain::Specular => (SPECULAR_RADIUS, SPECULAR_MAX_M_SUM),
    };
    let mut reservoir = reservoir;
    let mut p_hat = reservoir.sample.p_hat();
    let ghost begun = Gathered { reservoir, noise: *noise, p_hat };
    let mut tried: usize = 0;
    while tried < TRIES
        invariant
            tried <= TRIES,
            around.is_valid(),
            around == (Surroundings {
                camera: *camera,
                screen_pos,
                frame,
                domain,
                surface: *surface,
                reservoirs: reservoirs@,
                surfaces: surfaces@,
            }),
            radius == radius_of(domain),
            radius <= MAX_RADIUS,
            (Gathered { reservoir, noise: *noise, p_hat }) == around.searched(begun, tried as nat),
        decreases TRIES - tried,
    {
        let pos = neighbour_at(noise, camera, screen_pos, frame, radius);
        let idx = camera.screen_to_idx(pos);
        let neighbour = reservoirs[idx];
        if surfaces[idx].evaluate_similarity_to(surface) >= crate::surface::SIMILARITY_THRESHOLD {
            let neighbour_p_hat = neighbour.sample.p_hat();
            if reservoir.merge(noise, &neighbour, neighbour_p_hat) {
                p_hat = neighbour_p_hat;
            }
        }
        tried += 1;
    }
    reservoir.normalize(p_hat, MAX_W, max_m_sum);
    reservoir
}

} // verus!
