//! Temporal reuse of diffuse indirect samples. Besides the pixel's own
//! place in the previous frame, a few of its neighbours there are merged
//! as well, each only if its surface is similar enough.

use vstd::prelude::*;

use crate::bvh::Point;
use crate::camera::{clamped, Camera, Offset, ScreenPos};
use crate::color::Rgb;
use crate::fixed::{least, lesser, plus, root, sqrt, sum, HALF};
use crate::noise::Noise;
use crate::pattern::{disk, drawn_in_disk, scramble_position, scrambled, DISK_TRIES};
use crate::reprojection::Reprojection;
use crate::reservoir::Reservoir;
use crate::sample::{IndirectReservoir, IndirectReservoirSample, Normal};
use crate::surface::{similarity_of, Surface, SIMILARITY_THRESHOLD};

verus! {

/// Cap on the reweighting factor: ten.
pub const MAX_W: u64 = 10_000_000;

/// Cap on the number of samples a reservoir stands for: twenty.
pub const MAX_M_SUM: u64 = 20_000_000;

/// Count at which a reservoir has seen enough and visits no more
/// neighbours: twenty-five.
pub const ENOUGH: u64 = 25_000_000;

/// Number of neighbours visited at most.
pub const TRIES: u32 = 5;

/// Radius, in pixels, of the disk in which the search starts where the
/// pixel has no place in the previous frame.
pub const JITTER_RADIUS: u32 = 16;

/// What one pixel's pass reads.
pub struct Neighbourhood {
    pub camera: Camera,
    pub screen_pos: ScreenPos,
    pub frame: u32,
    /// The surface seen through the pixel.
    pub surface: Surface,
    /// The pixel's entry of the reprojection map.
    pub reprojection: Reprojection,
    /// The reservoirs of the previous frame, row by row.
    pub reservoirs: Seq<IndirectReservoir>,
    /// The surfaces of the previous frame, row by row.
    pub surfaces: Seq<Surface>,
}

/// What one pixel's pass carries from neighbour to neighbour.
pub struct Progress {
    pub reservoir: IndirectReservoir,
    pub noise: Noise,
    /// The count of the first neighbour, if it was merged; zero otherwise.
    pub first_m_sum: u64,
}

/// The four diagonal steps.
pub open spec fn diagonal(i: int) -> Offset {
    if i % 4 == 0 {
        Offset { x: -1i64, y: -1i64 }
    } else if i % 4 == 1 {
        Offset { x: 1, y: 1 }
    } else if i % 4 == 2 {
        Offset { x: -1i64, y: 1 }
    } else {
        Offset { x: 1, y: -1i64 }
    }
}

/// Where neighbour number `sample_idx` is looked for when the search
/// starts at `start`. The first neighbour is the start itself; each later
/// one lies two diagonal steps away, the first step chosen by the frame and
/// the second by the neighbour's number, and has its low bits scrambled.
pub open spec fn neighbour_of(start: Offset, frame: u32, sample_idx: u32) -> Offset {
    if sample_idx == 0 {
        start
    } else {
        let first = diagonal(frame as int % 4);
        let second = diagonal((sample_idx + (frame ^ 1) - 1) % 4);
        scrambled(
            Offset {
                x: (start.x + first.x + second.x) as i64,
                y: (start.y + first.y + second.y) as i64,
            },
            frame,
        )
    }
}

/// The reservoir as it enters the merge: where the pixel has no place in
/// the previous frame, a neighbour is weaker evidence and its count is
/// replaced by the square root of it.
pub open spec fn weakened(rhs: IndirectReservoir, reprojected: bool) -> IndirectReservoir {
    if reprojected {
        rhs
    } else {
        Reservoir {
            sample: rhs.sample,
            w_sum: rhs.w_sum,
            m_sum: root(rhs.m_sum as int) as u64,
            w: rhs.w,
        }
    }
}

impl Neighbourhood {
    /// Whether both buffers of the previous frame hold the whole viewport.
    pub open spec fn is_valid(self) -> bool {
        &&& self.camera.is_valid()
        &&& self.reservoirs.len() == self.camera.viewport_size.x * self.camera.viewport_size.y
        &&& self.surfaces.len() == self.camera.viewport_size.x * self.camera.viewport_size.y
    }

    /// Where the search for a neighbour starts, and the noise left after
    /// choosing it: at the pixel's place in the previous frame or, without
    /// one, at a random point of a disk round the pixel.
    pub open spec fn start(self, noise: Noise) -> (Offset, Noise) {
        if self.reprojection.valid() {
            (
                Offset { x: self.reprojection.prev_x as i64, y: self.reprojection.prev_y as i64 },
                noise,
            )
        } else {
            let (jitter, drawn) = drawn_in_disk(noise, JITTER_RADIUS, DISK_TRIES as nat);
            (
                Offset {
                    x: (self.screen_pos.x + jitter.x) as i64,
                    y: (self.screen_pos.y + jitter.y) as i64,
                },
                drawn,
            )
        }
    }

    /// Index, in the buffers of the previous frame, of the pixel nearest
    /// to `pos`.
    pub open spec fn index_of(self, pos: Offset) -> int {
        clamped(pos.y as int, self.camera.viewport_size.y as int) * self.camera.viewport_size.x
            + clamped(pos.x as int, self.camera.viewport_size.x as int)
    }

    /// The pass after it has visited neighbour number `sample_idx`. A
    /// neighbour whose reservoir is vacant or whose surface is less similar
    /// to the pixel's than the threshold is passed over.
    pub open spec fn visited(self, before: Progress, sample_idx: u32) -> Progress {
        let (start, noise) = self.start(before.noise);
        let idx = self.index_of(neighbour_of(start, self.frame, sample_idx));
        let found = self.reservoirs[idx];
        if found.m_sum == 0 || similarity_of(self.surfaces[idx], self.surface)
            < SIMILARITY_THRESHOLD as int {
            Progress { reservoir: before.reservoir, noise, first_m_sum: before.first_m_sum }
        } else {
            let rhs = weakened(found, self.reprojection.valid());
            Progress {
                reservoir: before.reservoir.merged(
                    noise.upcoming(),
                    rhs,
                    rhs.sample.target() as u64,
                ),
                noise: if rhs.m_sum == 0 {
                    noise
                } else {
                    noise.advanced()
                },
                first_m_sum: if sample_idx == 0 {
                    rhs.m_sum
                } else {
                    before.first_m_sum
                },
            }
        }
    }

    /// The pass after it has visited the neighbours from number
    /// `sample_idx` on: it goes on until it has tried `TRIES` neighbours or
    /// its reservoir has seen `ENOUGH`.
    pub open spec fn searched(self, before: Progress, sample_idx: u32) -> Progress
        decreases TRIES - sample_idx,
    {
        if sample_idx >= TRIES || before.reservoir.m_sum >= ENOUGH {
            before
        } else {
            self.searched(self.visited(before, sample_idx), (sample_idx + 1) as u32)
        }
    }

    /// The pass before it has visited any neighbour: its reservoir holds
    /// this frame's sample, if the pixel traced one.
    pub open spec fn begun(noise: Noise, sample: Option<IndirectReservoirSample>) -> Progress {
        match sample {
            None => Progress { reservoir: unseen(), noise, first_m_sum: 0 },
            Some(sample) => Progress {
                reservoir: unseen().added(noise.upcoming(), sample, sample.target() as u64),
                noise: noise.advanced(),
                first_m_sum: 0,
            },
        }
    }

    /// The pixel's reservoir for this frame: what the search ends with,
    /// normalised by the target function of the sample it kept, and with a
    /// count of half a sample more than the first neighbour's, twenty at
    /// most.
    pub open spec fn finished(self, after: Progress) -> IndirectReservoir {
        let normalized = after.reservoir.normalized(
            after.reservoir.sample.target() as u64,
            MAX_W,
            MAX_M_SUM,
        );
        Reservoir {
            sample: normalized.sample,
            w_sum: normalized.w_sum,
            m_sum: least(sum(after.first_m_sum as int, HALF as int), MAX_M_SUM as int) as u64,
            w: normalized.w,
        }
    }
}

/// A reservoir that has seen nothing yet.
pub open spec fn unseen() -> IndirectReservoir {
    Reservoir {
        sample: IndirectReservoirSample {
            radiance: Rgb { r: 0, g: 0, b: 0 },
            hit_point: Point { x: 0, y: 0, z: 0 },
            sample_point: Point { x: 0, y: 0, z: 0 },
            sample_normal: Normal { x: 0, y: 0 },
            frame: 0,
        },
        w_sum: 0,
        m_sum: 0,
        w: 0,
    }
}

/// One of the four diagonal steps.
fn diagonal_step(i: u32) -> (step: Offset)
    requires
        i < 4,
    ensures
        step == diagonal(i as int),
{
    if i == 0 {
        Offset { x: -1, y: -1 }
    } else if i == 1 {
        Offset { x: 1, y: 1 }
    } else if i == 2 {
        Offset { x: -1, y: 1 }
    } else {
        Offset { x: 1, y: -1 }
    }
}

/// Where neighbour number `sample_idx` is looked for when the search
/// starts at `start`.
pub fn neighbour(start: Offset, frame: u32, sample_idx: u32) -> (pos: Offset)
    requires
        -0x2_0000_0000 <= start.x <= 0x2_0000_0000,
        -0x2_0000_0000 <= start.y <= 0x2_0000_0000,
    ensures
        pos == neighbour_of(start, frame, sample_idx),
{
    if sample_idx == 0 {
        start
    } else {
        let first = diagonal_step(frame % 4);
        let turn: u64 = (sample_idx as u64 + (frame ^ 1) as u64 - 1) % 4;
        let second = diagonal_step(turn as u32);
        scramble_position(
            Offset { x: start.x + first.x + second.x, y: start.y + first.y + second.y },
            frame,
        )
    }
}

/// Draws the point of the disk round the pixel at which the search starts
/// where the pixel has no place in the previous frame.
pub fn jitter(noise: &mut Noise) -> (offset: Offset)
    ensures
        offset == drawn_in_disk(*old(noise), JITTER_RADIUS, DISK_TRIES as nat).0,
        *final(noise) == drawn_in_disk(*old(noise), JITTER_RADIUS, DISK_TRIES as nat).1,
        -JITTER_RADIUS <= offset.x <= JITTER_RADIUS,
        -JITTER_RADIUS <= offset.y <= JITTER_RADIUS,
{
    disk(noise, JITTER_RADIUS)
}

/// Visits neighbour number `sample_idx`: finds it, and merges its
/// reservoir if it is not vacant and its surface is similar enough.
fn visit(
    noise: &mut Noise,
    reservoir: &mut IndirectReservoir,
    first_m_sum: &mut u64,
    camera: &Camera,
    screen_pos: ScreenPos,
    frame: u32,
    surface: &Surface,
    reprojection: &Reprojection,
    prev_reservoirs: &[IndirectReservoir],
    prev_surfaces: &[Surface],
    sample_idx: u32,
)
    requires
        (Neighbourhood {
            camera: *camera,
            screen_pos,
            frame,
            surface: *surface,
            reprojection: *reprojection,
            reservoirs: prev_reservoirs@,
            surfaces: prev_surfaces@,
        }).is_valid(),
    ensures
        (Progress {
            reservoir: *final(reservoir),
            noise: *final(noise),
            first_m_sum: *final(first_m_sum),
        }) == (Neighbourhood {
            camera: *camera,
            screen_pos,
            frame,
            surface: *surface,
            reprojection: *reprojection,
            reservoirs: prev_reservoirs@,
            surfaces: prev_surfaces@,
        }).visited(
            Progress {
                reservoir: *old(reservoir),
                noise: *old(noise),
                first_m_sum: *old(first_m_sum),
            },
            sample_idx,
        ),
{
    let start = if reprojection.is_some() {
        let prev = reprojection.prev_screen_pos();
        Offset { x: prev.x as i64, y: prev.y as i64 }
    } else {
        let offset = jitter(noise);
        Offset { x: screen_pos.x as i64 + offset.x, y: screen_pos.y as i64 + offset.y }
    };
    let rhs_pos = camera.contain(neighbour(start, frame, sample_idx));
    let idx = camera.screen_to_idx(rhs_pos);
    let mut rhs = prev_reservoirs[idx];
    if rhs.is_empty() {
        return ;
    }
    if prev_surfaces[idx].evaluate_similarity_to(surface) < SIMILARITY_THRESHOLD {
        return ;
    }
    if reprojection.is_none() {
        rhs.m_sum = sqrt(rhs.m_sum);
    }
    let rhs_p_hat = rhs.sample.temporal_p_hat();
    reservoir.merge(noise, &rhs, rhs_p_hat);
    if sample_idx == 0 {
        *first_m_sum = rhs.m_sum;
    }
}

/// Builds the pixel's reservoir for `frame`. `sample` is the sample the
/// pixel traced in this frame, if it traced one; `prev_reservoirs` and
/// `prev_surfaces` hold the previous frame's reservoirs and surfaces for
/// the whole viewport, row by row.
pub fn resample(
    noise: &mut Noise,
    camera: &Camera,
    screen_pos: ScreenPos,
    frame: u32,
    surface: &Surface,
    reprojection: &Reprojection,
    sample: Option<IndirectReservoirSample>,
    prev_reservoirs: &[IndirectReservoir],
    prev_surfaces: &[Surface],
) -> (reservoir: IndirectReservoir)
    requires
        (Neighbourhood {
            camera: *camera,
            screen_pos,
            frame,
            surface: *surface,
            reprojection: *reprojection,
            reservoirs: prev_reservoirs@,
            surfaces: prev_surfaces@,
        }).is_valid(),
    ensures
        ({
            let around = Neighbourhood {
                camera: *camera,
                screen_pos,
                frame,
                surface: *surface,
                reprojection: *reprojection,
                reservoirs: prev_reservoirs@,
                surfaces: prev_surfaces@,
            };
            let after = around.searched(Neighbourhood::begun(*old(noise), sample), 0);
            reservoir == around.finished(after) && *final(noise) == after.noise
        }),
        reservoir.w <= MAX_W,
        reservoir.m_sum <= MAX_M_SUM,
{
    let ghost around = Neighbourhood {
        camera: *camera,
        screen_pos,
        frame,
        surface: *surface,
        reprojection: *reprojection,
        reservoirs: prev_reservoirs@,
        surfaces: prev_surfaces@,
    };
    let ghost begun = Neighbourhood::begun(*noise, sample);
    let mut reservoir = Reservoir::empty(IndirectReservoirSample::placeholder());
    match sample {
        Some(sample) => {
            let p_hat = sample.temporal_p_hat();
            reservoir.add(noise, sample, p_hat);
        },
        None => {},
    }
    let mut sample_idx: u32 = 0;
    let mut m_sum: u64 = 0;
    while reservoir.m_sum < ENOUGH && sample_idx < TRIES
        invariant
            sample_idx <= TRIES,
            around.is_valid(),
            around == (Neighbourhood {
                camera: *camera,
                screen_pos,
                frame,
                surface: *surface,
                reprojection: *reprojection,
                reservoirs: prev_reservoirs@,
                surfaces: prev_surfaces@,
            }),
            around.searched(Progress { reservoir, noise: *noise, first_m_sum: m_sum }, sample_idx)
                == around.searched(begun, 0),
        decreases TRIES - sample_idx,
    {
        visit(
            noise,
            &mut reservoir,
            &mut m_sum,
            camera,
            screen_pos,
            frame,
            surface,
            reprojection,
            prev_reservoirs,
            prev_surfaces,
            sample_idx,
        );
        sample_idx += 1;
    }
    let p_hat = reservoir.sample.temporal_p_hat();
    reservoir.normalize(p_hat, MAX_W, MAX_M_SUM);
    reservoir.m_sum = lesser(plus(m_sum, HALF), MAX_M_SUM);
    reservoir
}

} // verus!
