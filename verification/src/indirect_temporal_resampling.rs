//! Temporal reuse of indirect samples: the sample a pixel traced in this
//! frame is merged with the reservoir the pixel had in the previous frame.

use vstd::prelude::*;

use crate::camera::{clamped, upsample, upsampled, Camera, Offset, ScreenPos};
use crate::fixed::{product, times, ONE};
use crate::noise::Noise;
use crate::reprojection::Reprojection;
use crate::reservoir::Reservoir;
use crate::sample::{age_between, IndirectReservoir, IndirectReservoirSample};
use crate::surface::{similarity_of, Surface, SIMILARITY_THRESHOLD};

verus! {

/// The least radiance a sample enters a reservoir with, in any channel: one
/// ten-thousandth.
pub const MIN_RADIANCE: u64 = 100;

/// Cap on the reweighting factor: ten.
pub const MAX_W: u64 = 10_000_000;

/// Cap on the number of samples a reservoir stands for: thirty.
pub const MAX_M_SUM: u64 = 30_000_000;

/// Age, in frames, beyond which a reservoir's count is rescaled.
pub const AGE_LIMIT: u32 = 16;

/// Number of frames over which the rescaling runs.
pub const AGE_SPAN: u32 = 32;

/// Where a reservoir comes from and where it goes when it is carried over
/// from the previous frame.
#[derive(Clone, Copy, Debug, PartialEq, Eq, Structural)]
pub struct Migration {
    /// The full-resolution pixel that the reservoir shaded in the previous
    /// frame.
    pub from_screen_pos: ScreenPos,
    /// The full-resolution pixel that it shades in this frame.
    pub to_screen_pos: ScreenPos,
    /// The half-resolution cell that held it in the previous frame.
    pub from_cell: ScreenPos,
}

/// The frame before `frame`, counted round the 32-bit frame counter.
pub open spec fn previous_frame(frame: u32) -> u32 {
    if frame == 0 {
        u32::MAX
    } else {
        (frame - 1) as u32
    }
}

/// The migration of the reservoir of half-resolution cell `cell` whose
/// pixel was at `prev` in the previous frame.
pub open spec fn migration_of(cell: ScreenPos, frame: u32, prev: ScreenPos) -> Migration {
    let from_cell = ScreenPos { x: prev.x / 2, y: prev.y / 2 };
    Migration {
        from_screen_pos: upsampled(from_cell, previous_frame(frame)),
        to_screen_pos: upsampled(cell, frame),
        from_cell,
    }
}

/// The factor applied to the count of a reservoir of the given age:
/// `1 - (16 - age) / 32` beyond sixteen frames, one up to there. Beyond
/// sixteen frames the factor is above one and grows with the age.
pub open spec fn age_factor(age: u32) -> int {
    if age > AGE_LIMIT {
        (ONE as int) - ((AGE_LIMIT as int - age as int) * (ONE as int)) / (AGE_SPAN as int)
    } else {
        ONE as int
    }
}

/// The count with which a reservoir of the previous frame enters the
/// merge: its own count times the factor of its age, times the square of
/// the confidence in the reprojection, times its compatibility with the
/// surface it moves to. A reservoir less compatible than the threshold
/// counts for nothing.
pub open spec fn carried_m_sum(m_sum: u64, age: u32, confidence: u64, compatibility: u64) -> int {
    if compatibility < SIMILARITY_THRESHOLD {
        0
    } else {
        product(
            product(
                product(m_sum as int, age_factor(age)),
                product(confidence as int, confidence as int),
            ),
            compatibility as int,
        )
    }
}

/// The reservoir of the previous frame as it enters the merge in `frame`.
pub open spec fn carried(
    past: IndirectReservoir,
    frame: u32,
    confidence: u64,
    compatibility: u64,
) -> IndirectReservoir {
    Reservoir {
        sample: past.sample,
        w_sum: past.w_sum,
        m_sum: carried_m_sum(
            past.m_sum,
            age_between(past.sample.frame, frame),
            confidence,
            compatibility,
        ) as u64,
        w: past.w,
    }
}

/// The sample as it enters its reservoir: no channel of its radiance is
/// below `MIN_RADIANCE`.
pub open spec fn admitted(sample: IndirectReservoirSample) -> IndirectReservoirSample {
    IndirectReservoirSample {
        radiance: sample.radiance.raised(MIN_RADIANCE),
        hit_point: sample.hit_point,
        sample_point: sample.sample_point,
        sample_normal: sample.sample_normal,
        frame: sample.frame,
    }
}

/// The reservoir that starts from this frame's sample alone.
pub open spec fn started(sample: IndirectReservoirSample) -> IndirectReservoir {
    Reservoir::fresh(admitted(sample), admitted(sample).target() as u64)
}

/// The pixel's reservoir before normalisation: this frame's sample, merged
/// with the carried reservoir of the previous frame where the pixel has a
/// place there.
pub open spec fn merged_with_past(
    u: int,
    frame: u32,
    sample: IndirectReservoirSample,
    reprojection: Reprojection,
    past: IndirectReservoir,
    compatibility: u64,
) -> IndirectReservoir {
    if reprojection.valid() {
        started(sample).merged(
            u,
            carried(past, frame, reprojection.confidence, compatibility),
            past.sample.target() as u64,
        )
    } else {
        started(sample)
    }
}

/// The pixel's reservoir for this frame. The target function used to
/// normalise it is that of the sample it ends up with.
pub open spec fn resampled(
    u: int,
    frame: u32,
    sample: IndirectReservoirSample,
    reprojection: Reprojection,
    past: IndirectReservoir,
    compatibility: u64,
) -> IndirectReservoir {
    let merged = merged_with_past(u, frame, sample, reprojection, past, compatibility);
    merged.normalized(merged.sample.target() as u64, MAX_W, MAX_M_SUM)
}

/// Whether the merge with the past draws a number.
pub open spec fn draws(
    frame: u32,
    reprojection: Reprojection,
    past: IndirectReservoir,
    compatibility: u64,
) -> bool {
    reprojection.valid() && carried(past, frame, reprojection.confidence, compatibility).m_sum
        != 0
}

/// Tells where the reservoir of half-resolution cell `cell` is to be
/// fetched from, given the entry of the reprojection map for the pixel the
/// cell shaded in the previous frame.
pub fn migration(camera: &Camera, cell: ScreenPos, frame: u32, reprojection: &Reprojection) -> (m:
    Option<Migration>)
    requires
        camera.is_valid(),
        camera.holds_cell(cell),
    ensures
        m is Some <==> reprojection.valid() && camera.holds(reprojection.prev_screen_pos_value()),
        m is Some ==> m->0 == migration_of(cell, frame, reprojection.prev_screen_pos_value())
            && camera.holds_cell(m->0.from_cell),
{
    if !reprojection.is_valid() {
        return None;
    }
    let prev = reprojection.prev_screen_pos();
    if !camera.contains(prev) {
        return None;
    }
    let from_cell = ScreenPos { x: prev.x / 2, y: prev.y / 2 };
    Some(
        Migration {
            from_screen_pos: upsample(from_cell, frame.wrapping_sub(1)),
            to_screen_pos: upsample(cell, frame),
            from_cell,
        },
    )
}

/// The factor applied to the count of a reservoir of the given age.
pub fn attenuation(age: u32) -> (factor: u64)
    ensures
        factor as int == age_factor(age),
{
    if age > AGE_LIMIT {
        let beyond: u64 = (age - AGE_LIMIT) as u64;
        let per_frame: u64 = 31_250;
        ONE + beyond * per_frame
    } else {
        ONE
    }
}

/// Rescales the count of a reservoir of the previous frame for the merge
/// in `frame`.
pub fn carry(past: &IndirectReservoir, frame: u32, confidence: u64, compatibility: u64) -> (r:
    IndirectReservoir)
    ensures
        r == carried(*past, frame, confidence, compatibility),
{
    let mut r = *past;
    if compatibility < SIMILARITY_THRESHOLD {
        r.m_sum = 0;
    } else {
        let age = past.sample.age(frame);
        r.m_sum = times(r.m_sum, attenuation(age));
        r.m_sum = times(r.m_sum, times(confidence, confidence));
        r.m_sum = times(r.m_sum, compatibility);
    }
    r
}

/// Builds the pixel's reservoir for `frame` from the sample it traced in
/// this frame and the reservoir `past` it had in the previous one.
/// `compatibility` tells how alike the surface that `past` shaded and the
/// surface the pixel shades now are; `past` and `compatibility` count only
/// where `reprojection` gives the pixel a place in the previous frame.
pub fn resample(
    noise: &mut Noise,
    frame: u32,
    sample: IndirectReservoirSample,
    reprojection: &Reprojection,
    past: &IndirectReservoir,
    compatibility: u64,
) -> (reservoir: IndirectReservoir)
    ensures
        reservoir == resampled(
            old(noise).upcoming(),
            frame,
            sample,
            *reprojection,
            *past,
            compatibility,
        ),
        reservoir.w <= MAX_W,
        reservoir.m_sum <= MAX_M_SUM,
        *final(noise) == if draws(frame, *reprojection, *past, compatibility) {
            old(noise).advanced()
        } else {
            *old(noise)
        },
{
    let sample = IndirectReservoirSample {
        radiance: sample.radiance.max(MIN_RADIANCE),
        hit_point: sample.hit_point,
        sample_point: sample.sample_point,
        sample_normal: sample.sample_normal,
        frame: sample.frame,
    };
    let mut p_hat = sample.p_hat();
    let mut reservoir = Reservoir::new(sample, p_hat);

    if reprojection.is_valid() {
        let past_reservoir = carry(past, frame, reprojection.confidence, compatibility);
        let past_p_hat = past_reservoir.sample.p_hat();
        if reservoir.merge(noise, &past_reservoir, past_p_hat) {
            p_hat = past_p_hat;
        }
    }
    reservoir.normalize(p_hat, MAX_W, MAX_M_SUM);
    reservoir
}

/// What one cell's pass reads. The reservoirs and the samples are held at
/// half resolution, one for every cell; the surfaces and the reprojection
/// map at full resolution, one for every pixel; all row by row.
pub struct Frame {
    pub camera: Camera,
    pub seed: u32,
    pub frame: u32,
    /// The surfaces seen in this frame.
    pub surfaces: Seq<Surface>,
    /// The surfaces seen in the previous frame.
    pub past_surfaces: Seq<Surface>,
    pub reprojection_map: Seq<Reprojection>,
    /// The samples traced in this frame.
    pub samples: Seq<IndirectReservoirSample>,
    /// The reservoirs of the previous frame.
    pub past_reservoirs: Seq<IndirectReservoir>,
}

impl Frame {
    /// Whether every buffer holds what it is to hold.
    pub open spec fn is_valid(self) -> bool {
        let pixels = self.camera.viewport_size.x * self.camera.viewport_size.y;
        let cells = self.camera.half_size().x * self.camera.half_size().y;
        &&& self.camera.is_valid()
        &&& self.surfaces.len() == pixels
        &&& self.past_surfaces.len() == pixels
        &&& self.reprojection_map.len() == pixels
        &&& self.samples.len() == cells
        &&& self.past_reservoirs.len() == cells
    }

    /// Index of the pixel of the viewport nearest to `pos`.
    pub open spec fn pixel_index(self, pos: ScreenPos) -> int {
        clamped(pos.y as int, self.camera.viewport_size.y as int) * self.camera.viewport_size.x
            + clamped(pos.x as int, self.camera.viewport_size.x as int)
    }

    /// Index of cell `cell`.
    pub open spec fn cell_index(self, cell: ScreenPos) -> int {
        cell.y * self.camera.half_size().x + cell.x
    }

    /// The entry of the reprojection map for the pixel that `cell` shaded
    /// in the previous frame. A pixel off the viewport has none.
    pub open spec fn reprojection_of(self, cell: ScreenPos) -> Reprojection {
        let pixel = upsampled(cell, previous_frame(self.frame));
        if self.camera.holds(pixel) {
            self.reprojection_map[self.pixel_index(pixel)]
        } else {
            crate::reprojection::no_reprojection()
        }
    }

    /// The reservoir of `cell` for this frame. The past reservoir is
    /// fetched from the cell that held it, and is as compatible as the
    /// surface it shaded then and the surface it is to shade now are alike.
    pub open spec fn reservoir_of(self, cell: ScreenPos) -> IndirectReservoir {
        let noise = Noise { state: crate::noise::seeded_state(self.seed, cell.x, cell.y) };
        let sample = self.samples[self.cell_index(cell)];
        let reprojection = self.reprojection_of(cell);
        if reprojection.valid() && self.camera.holds(reprojection.prev_screen_pos_value()) {
            let moved = migration_of(cell, self.frame, reprojection.prev_screen_pos_value());
            resampled(
                noise.upcoming(),
                self.frame,
                sample,
                reprojection,
                self.past_reservoirs[self.cell_index(moved.from_cell)],
                similarity_of(
                    self.past_surfaces[self.pixel_index(moved.from_screen_pos)],
                    self.surfaces[self.pixel_index(moved.to_screen_pos)],
                ) as u64,
            )
        } else {
            started(sample).normalized(admitted(sample).target() as u64, MAX_W, MAX_M_SUM)
        }
    }
}

/// Builds the reservoir of half-resolution cell `global_id` for `frame`.
/// The buffers are those of `Frame`.
pub fn main_inner(
    global_id: ScreenPos,
    seed: u32,
    frame: u32,
    camera: &Camera,
    surfaces: &[Surface],
    past_surfaces: &[Surface],
    reprojection_map: &[Reprojection],
    samples: &[IndirectReservoirSample],
    past_reservoirs: &[IndirectReservoir],
) -> (reservoir: IndirectReservoir)
    requires
        (Frame {
            camera: *camera,
            seed,
            frame,
            surfaces: surfaces@,
            past_surfaces: past_surfaces@,
            reprojection_map: reprojection_map@,
            samples: samples@,
            past_reservoirs: past_reservoirs@,
        }).is_valid(),
        camera.holds_cell(global_id),
    ensures
        reservoir == (Frame {
            camera: *camera,
            seed,
            frame,
            surfaces: surfaces@,
            past_surfaces: past_surfaces@,
            reprojection_map: reprojection_map@,
            samples: samples@,
            past_reservoirs: past_reservoirs@,
        }).reservoir_of(global_id),
        reservoir.w <= MAX_W,
        reservoir.m_sum <= MAX_M_SUM,
{
    let mut noise = Noise::new(seed, global_id.x, global_id.y);
    let global_idx = camera.half_screen_to_idx(global_id);
    let sample = samples[global_idx];

    let shaded = upsample(global_id, frame.wrapping_sub(1));
    let reprojection = if camera.contains(shaded) {
        reprojection_map[camera.screen_to_idx(shaded)]
    } else {
        Reprojection::none()
    };

    match migration(camera, global_id, frame, &reprojection) {
        Some(moved) => {
            let from = camera.contain(
                Offset { x: moved.from_screen_pos.x as i64, y: moved.from_screen_pos.y as i64 },
            );
            let to = camera.contain(
                Offset { x: moved.to_screen_pos.x as i64, y: moved.to_screen_pos.y as i64 },
            );
            let migration_compatibility = past_surfaces[camera.screen_to_idx(
                from,
            )].evaluate_similarity_to(&surfaces[camera.screen_to_idx(to)]);
            let past_reservoir = past_reservoirs[camera.half_screen_to_idx(moved.from_cell)];
            resample(
                &mut noise,
                frame,
                sample,
                &reprojection,
                &past_reservoir,
                migration_compatibility,
            )
        },
        None => resample(
            &mut noise,
            frame,
            sample,
            &Reprojection::none(),
            &Reservoir::empty(IndirectReservoirSample::placeholder()),
            0,
        ),
    }
}

} // verus!
