//! Temporal reuse of direct lighting: a pixel's new reservoir is merged
//! with the one it had in the previous frame.

use vstd::prelude::*;

use crate::fixed::{product, times};
use crate::noise::Noise;
use crate::reprojection::Reprojection;
use crate::reservoir::Reservoir;
use crate::sample::DirectReservoir;
use crate::surface::SIMILARITY_THRESHOLD;

verus! {

/// Cap on the reweighting factor: five.
pub const MAX_W: u64 = 5_000_000;

/// Cap on the number of samples a reservoir stands for: ten.
pub const MAX_M_SUM: u64 = 10_000_000;

/// Whether the reservoir of the previous frame is merged: the pixel has a
/// place there and the surface seen there is similar enough to the one
/// seen now.
pub open spec fn reuses(reprojection: Reprojection, similarity: u64) -> bool {
    reprojection.valid() && similarity >= SIMILARITY_THRESHOLD
}

/// The reservoir of the previous frame as it enters the merge: its count
/// is multiplied by the square of the confidence in the reprojection.
pub open spec fn carried(past: DirectReservoir, confidence: u64) -> DirectReservoir {
    Reservoir {
        sample: past.sample,
        w_sum: past.w_sum,
        m_sum: product(past.m_sum as int, product(confidence as int, confidence as int)) as u64,
        w: past.w,
    }
}

/// The pixel's reservoir before normalisation.
pub open spec fn merged_with_past(
    u: int,
    current: DirectReservoir,
    past: DirectReservoir,
    reprojection: Reprojection,
    similarity: u64,
    p_hat: u64,
) -> DirectReservoir {
    if reuses(reprojection, similarity) {
        current.merged(u, carried(past, reprojection.confidence), p_hat)
    } else {
        current
    }
}

/// The target function by which the pixel's reservoir is normalised: that
/// of the past sample where the merge took it, that of the pixel's own
/// sample otherwise.
pub open spec fn target_after(
    u: int,
    current: DirectReservoir,
    past: DirectReservoir,
    reprojection: Reprojection,
    similarity: u64,
    p_hat: u64,
) -> u64 {
    if reuses(reprojection, similarity) && current.takes(
        u,
        carried(past, reprojection.confidence),
        p_hat,
    ) {
        p_hat
    } else {
        current.sample.target() as u64
    }
}

/// The pixel's reservoir for this frame.
pub open spec fn resampled(
    u: int,
    current: DirectReservoir,
    past: DirectReservoir,
    reprojection: Reprojection,
    similarity: u64,
    p_hat: u64,
) -> DirectReservoir {
    merged_with_past(u, current, past, reprojection, similarity, p_hat).normalized(
        target_after(u, current, past, reprojection, similarity, p_hat),
        MAX_W,
        MAX_M_SUM,
    )
}

/// Whether the pass draws a number.
pub open spec fn draws(past: DirectReservoir, reprojection: Reprojection, similarity: u64) -> bool {
    reuses(reprojection, similarity) && carried(past, reprojection.confidence).m_sum != 0
}

/// Builds the pixel's reservoir for this frame from the one just shaded,
/// `current`, and the one the pixel had in the previous frame, `past`.
/// `similarity` tells how alike the surface that `past` shaded and the
/// surface seen now are, `p_hat` is the target function of the sample of
/// `past` at the surface seen now; `past`, `similarity` and `p_hat` count
/// only where `reprojection` gives the pixel a place in the previous frame.
pub fn resample(
    noise: &mut Noise,
    current: DirectReservoir,
    past: &DirectReservoir,
    reprojection: &Reprojection,
    similarity: u64,
    p_hat: u64,
) -> (reservoir: DirectReservoir)
    ensures
        reservoir == resampled(
            old(noise).upcoming(),
            current,
            *past,
            *reprojection,
            similarity,
            p_hat,
        ),
        reservoir.w <= MAX_W,
        reservoir.m_sum <= MAX_M_SUM,
        *final(noise) == if draws(*past, *reprojection, similarity) {
            old(noise).advanced()
        } else {
            *old(noise)
        },
{
    let mut reservoir = current;
    let mut target = current.sample.p_hat();
    if reprojection.is_valid() && similarity >= SIMILARITY_THRESHOLD {
        let mut past_reservoir = *past;
        past_reservoir.m_sum = times(
            past_reservoir.m_sum,
            times(reprojection.confidence, reprojection.confidence),
        );
        if reservoir.merge(noise, &past_reservoir, p_hat) {
            target = p_hat;
        }
    }
    reservoir.normalize(target, MAX_W, MAX_M_SUM);
    reservoir
}

/// A pixel without a place in the previous frame keeps the reservoir it
/// was shaded with, only normalised: nothing of the past gets into it.
pub proof fn unreprojected_pixel_starts_afresh(
    u: int,
    current: DirectReservoir,
    past: DirectReservoir,
    reprojection: Reprojection,
    similarity: u64,
    p_hat: u64,
)
    requires
        !reprojection.valid(),
    ensures
        resampled(u, current, past, reprojection, similarity, p_hat) == current.normalized(
            current.sample.target() as u64,
            MAX_W,
            MAX_M_SUM,
        ),
{
}

} // verus!
