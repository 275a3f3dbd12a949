//! The stages that direct lighting takes a pixel through in one frame.

use vstd::prelude::*;

use crate::spatial_resampling::TRIES;

verus! {

/// Where a pixel stands.
#[derive(Clone, Copy, Debug, PartialEq, Eq, Structural)]
pub enum Stage {
    /// Nothing is known of the pixel yet.
    Idle,
    /// The primary ray hit a surface.
    PrimaryHit,
    /// A light was chosen and a new reservoir holds it.
    DirectReservoir,
    /// The reservoir of the previous frame was merged or passed over.
    DirectTemporal,
    /// So many neighbours were tried.
    DirectSpatial { tried: usize },
    /// The pixel's radiance is written.
    Resolved,
}

/// What happens to a pixel.
#[derive(Clone, Copy, Debug, PartialEq, Eq, Structural)]
pub enum Event {
    /// The primary ray hit a surface.
    Hit,
    /// The primary ray met nothing; the pixel shows the clear colour.
    Miss,
    /// The initial shading chose a light.
    Shaded,
    /// The previous frame's reservoir was merged.
    TemporalMerged,
    /// The previous frame's reservoir was passed over.
    TemporalSkipped,
    /// One more neighbour was tried, merged or not.
    NeighbourTried,
    /// The radiance was written.
    Written,
}

/// The stage that follows `stage` on `event`, if `event` may happen there.
pub open spec fn next(stage: Stage, event: Event) -> Option<Stage> {
    match (stage, event) {
        (Stage::Idle, Event::Hit) => Some(Stage::PrimaryHit),
        (Stage::Idle, Event::Miss) => Some(Stage::Resolved),
        (Stage::PrimaryHit, Event::Shaded) => Some(Stage::DirectReservoir),
        (Stage::DirectReservoir, Event::TemporalMerged) => Some(Stage::DirectTemporal),
        (Stage::DirectReservoir, Event::TemporalSkipped) => Some(Stage::DirectTemporal),
        (Stage::DirectTemporal, Event::NeighbourTried) => Some(Stage::DirectSpatial { tried: 1 }),
        (Stage::DirectTemporal, Event::Written) => Some(Stage::Resolved),
        (Stage::DirectSpatial { tried }, Event::NeighbourTried) => if tried < TRIES {
            Some(Stage::DirectSpatial { tried: (tried + 1) as usize })
        } else {
            None
        },
        (Stage::DirectSpatial { tried }, Event::Written) => Some(Stage::Resolved),
        _ => None,
    }
}

/// How far a stage is from the start.
pub open spec fn rank(stage: Stage) -> int {
    match stage {
        Stage::Idle => 0,
        Stage::PrimaryHit => 1,
        Stage::DirectReservoir => 2,
        Stage::DirectTemporal => 3,
        Stage::DirectSpatial { tried } => 3 + tried,
        Stage::Resolved => 4 + usize::MAX,
    }
}

/// Takes a pixel to its next stage, or tells that `event` cannot happen
/// at `stage`.
pub fn advance(stage: Stage, event: Event) -> (after: Option<Stage>)
    ensures
        after == next(stage, event),
{
    match stage {
        Stage::Idle => match event {
            Event::Hit => Some(Stage::PrimaryHit),
            Event::Miss => Some(Stage::Resolved),
            _ => None,
        },
        Stage::PrimaryHit => match event {
            Event::Shaded => Some(Stage::DirectReservoir),
            _ => None,
        },
        Stage::DirectReservoir => match event {
            Event::TemporalMerged => Some(Stage::DirectTemporal),
            Event::TemporalSkipped => Some(Stage::DirectTemporal),
            _ => None,
        },
        Stage::DirectTemporal => match event {
            Event::NeighbourTried => Some(Stage::DirectSpatial { tried: 1 }),
            Event::Written => Some(Stage::Resolved),
            _ => None,
        },
        Stage::DirectSpatial { tried } => match event {
            Event::NeighbourTried => if tried < TRIES {
                Some(Stage::DirectSpatial { tried: tried + 1 })
            } else {
                None
            },
            Event::Written => Some(Stage::Resolved),
            _ => None,
        },
        Stage::Resolved => None,
    }
}

/// A pixel never goes back: every event that may happen takes it to a
/// stage further from the start, and nothing happens to a resolved pixel.
pub proof fn stages_only_advance(stage: Stage, event: Event)
    ensures
        next(stage, event) matches Some(after) ==> rank(after) > rank(stage),
        stage == Stage::Resolved ==> next(stage, event) is None,
{
}

} // verus!
