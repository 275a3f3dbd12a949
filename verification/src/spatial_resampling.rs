//! Spatial reuse: the reservoirs of a few neighbouring pixels are merged
//! into a pixel's own, each only if its surface is similar enough.

use vstd::prelude::*;

use crate::camera::{clamped, Camera, Offset, ScreenPos};
use crate::noise::Noise;
use crate::pattern::{disk, drawn_in_disk, scramble_position, scrambled, DISK_TRIES, MAX_RADIUS};
use crate::reservoir::Reservoir;
use crate::surface::{similarity_of, Surface, SIMILARITY_THRESHOLD};

verus! {

/// Number of neighbours tried at most.
pub const TRIES: usize = 5;

/// Cap on the reweighting factor of a direct reservoir: five.
pub const DIRECT_MAX_W: u64 = 5_000_000;

/// Cap on the count of a direct reservoir: ten.
pub const DIRECT_MAX_M_SUM: u64 = 10_000_000;

/// Radius, in pixels, of the disk in which the neighbours of a direct
/// reservoir are looked for.
pub const DIRECT_RADIUS: u32 = 16;

/// A neighbouring pixel that offers its reservoir.
#[derive(Clone, Copy, Debug)]
pub struct Neighbour<T> {
    /// The neighbour's reservoir.
    pub reservoir: Reservoir<T>,
    /// The surface seen through the neighbour.
    pub surface: Surface,
    /// The target function of the neighbour's sample, evaluated at the
    /// surface of the pixel that reuses it.
    pub p_hat: u64,
}

/// What a pixel's pass carries from neighbour to neighbour.
pub struct Gathered<T> {
    pub reservoir: Reservoir<T>,
    pub noise: Noise,
    /// The target function of the sample the reservoir keeps.
    pub p_hat: u64,
}

impl<T: Copy> Neighbour<T> {
    /// Whether the neighbour is passed over: its surface is less similar
    /// to `surface` than the threshold asks.
    pub open spec fn rejected_at(self, surface: Surface) -> bool {
        similarity_of(self.surface, surface) < SIMILARITY_THRESHOLD as int
    }
}

impl<T: Copy> Gathered<T> {
    /// The pass after it has tried `neighbour`.
    pub open spec fn tried(self, surface: Surface, neighbour: Neighbour<T>) -> Self {
        if neighbour.rejected_at(surface) {
            self
        } else {
            Gathered {
                reservoir: self.reservoir.merged(
                    self.noise.upcoming(),
                    neighbour.reservoir,
                    neighbour.p_hat,
                ),
                noise: if neighbour.reservoir.m_sum == 0 {
                    self.noise
                } else {
                    self.noise.advanced()
                },
                p_hat: if self.reservoir.takes(
                    self.noise.upcoming(),
                    neighbour.reservoir,
                    neighbour.p_hat,
                ) {
                    neighbour.p_hat
                } else {
                    self.p_hat
                },
            }
        }
    }

    /// The pass after it has tried the neighbours in order.
    pub open spec fn gathered(self, surface: Surface, neighbours: Seq<Neighbour<T>>) -> Self
        decreases neighbours.len(),
    {
        if neighbours.len() == 0 {
            self
        } else {
            self.gathered(surface, neighbours.drop_last()).tried(surface, neighbours.last())
        }
    }
}

/// The neighbours that are tried: the first `TRIES` of those offered.
pub open spec fn tried_of<T>(neighbours: Seq<Neighbour<T>>) -> Seq<Neighbour<T>> {
    if neighbours.len() > TRIES {
        neighbours.take(TRIES as int)
    } else {
        neighbours
    }
}

/// Merges the reservoirs of up to `TRIES` neighbours into `reservoir` and
/// normalises the result with the given caps. `p_hat` is the target
/// function of the sample that `reservoir` holds, `surface` the surface
/// seen through its pixel.
pub fn resample<T: Copy>(
    noise: &mut Noise,
    reservoir: Reservoir<T>,
    p_hat: u64,
    surface: &Surface,
    neighbours: &[Neighbour<T>],
    max_w: u64,
    max_m_sum: u64,
) -> (merged: Reservoir<T>)
    ensures
        ({
            let after = (Gathered { reservoir, noise: *old(noise), p_hat }).gathered(
                *surface,
                tried_of(neighbours@),
            );
            merged == after.reservoir.normalized(after.p_hat, max_w, max_m_sum) && *final(noise)
                == after.noise
        }),
        merged.w <= max_w,
        merged.m_sum <= max_m_sum,
{
    let ghost begun = Gathered { reservoir, noise: *noise, p_hat };
    let tries: usize = if neighbours.len() > TRIES {
        TRIES
    } else {
        neighbours.len()
    };
    let mut reservoir = reservoir;
    let mut p_hat = p_hat;
    let mut k: usize = 0;
    while k < tries
        invariant
            k <= tries <= neighbours@.len(),
            tries == tried_of(neighbours@).len(),
            (Gathered { reservoir, noise: *noise, p_hat }) == begun.gathered(
                *surface,
                tried_of(neighbours@).take(k as int),
            ),
        decreases tries - k,
    {
        let neighbour = neighbours[k];
        assert(tried_of(neighbours@).take(k + 1).drop_last() == tried_of(neighbours@).take(
            k as int,
        ));
        assert(tried_of(neighbours@).take(k + 1).last() == neighbour);
        if neighbour.surface.evaluate_similarity_to(surface) >= SIMILARITY_THRESHOLD {
            if reservoir.merge(noise, &neighbour.reservoir, neighbour.p_hat) {
                p_hat = neighbour.p_hat;
            }
        }
        k += 1;
    }
    assert(tried_of(neighbours@).take(k as int) == tried_of(neighbours@));
    reservoir.normalize(p_hat, max_w, max_m_sum);
    reservoir
}

/// Spatial reuse of direct lighting: `resample` with the caps of direct
/// reservoirs.
pub fn resample_direct<T: Copy>(
    noise: &mut Noise,
    reservoir: Reservoir<T>,
    p_hat: u64,
    surface: &Surface,
    neighbours: &[Neighbour<T>],
) -> (merged: Reservoir<T>)
    ensures
        ({
            let after = (Gathered { reservoir, noise: *old(noise), p_hat }).gathered(
                *surface,
                tried_of(neighbours@),
            );
            merged == after.reservoir.normalized(after.p_hat, DIRECT_MAX_W, DIRECT_MAX_M_SUM)
                && *final(noise) == after.noise
        }),
        merged.w <= DIRECT_MAX_W,
        merged.m_sum <= DIRECT_MAX_M_SUM,
{
    resample(noise, reservoir, p_hat, surface, neighbours, DIRECT_MAX_W, DIRECT_MAX_M_SUM)
}

/// Where a neighbour of `pixel` is looked for, and the noise left after
/// choosing it: at a random point of the disk of the given radius round
/// the pixel, with its low bits changed by the pattern of the frame, or at
/// the pixel of the viewport nearest to that.
pub open spec fn neighbour_position(
    noise: Noise,
    camera: Camera,
    pixel: ScreenPos,
    frame: u32,
    radius: u32,
) -> (ScreenPos, Noise) {
    let (offset, drawn) = drawn_in_disk(noise, radius, DISK_TRIES as nat);
    let pos = scrambled(
        Offset { x: (pixel.x + offset.x) as i64, y: (pixel.y + offset.y) as i64 },
        frame,
    );
    (
        ScreenPos {
            x: clamped(pos.x as int, camera.viewport_size.x as int) as u32,
            y: clamped(pos.y as int, camera.viewport_size.y as int) as u32,
        },
        drawn,
    )
}

/// Chooses where a neighbour of `pixel` is looked for.
pub fn neighbour_at(noise: &mut Noise, camera: &Camera, pixel: ScreenPos, frame: u32, radius: u32)
    -> (pos: ScreenPos)
    requires
        camera.is_valid(),
        radius <= MAX_RADIUS,
    ensures
        pos == neighbour_position(*old(noise), *camera, pixel, frame, radius).0,
        *final(noise) == neighbour_position(*old(noise), *camera, pixel, frame, radius).1,
        camera.holds(pos),
{
    let offset = disk(noise, radius);
    camera.contain(
        scramble_position(
            Offset { x: pixel.x as i64 + offset.x, y: pixel.y as i64 + offset.y },
            frame,
        ),
    )
}

/// A neighbour whose surface is less similar than the threshold asks
/// leaves the pass as it was: it adds nothing to the reservoir and draws no
/// number.
pub proof fn dissimilar_neighbour_contributes_nothing<T: Copy>(
    before: Gathered<T>,
    surface: Surface,
    neighbour: Neighbour<T>,
)
    requires
        similarity_of(neighbour.surface, surface) < SIMILARITY_THRESHOLD as int,
    ensures
        before.tried(surface, neighbour) == before,
{
}

} // verus!
