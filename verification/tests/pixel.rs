use strolle::pixel::{advance, Event, Stage};
use strolle::spatial_resampling::TRIES;

const EVENTS: [Event; 7] = [
    Event::Hit,
    Event::Miss,
    Event::Shaded,
    Event::TemporalMerged,
    Event::TemporalSkipped,
    Event::NeighbourTried,
    Event::Written,
];

#[test]
fn pixel_with_a_hit_runs_through_every_stage() {
    let mut stage = Stage::Idle;
    for event in [Event::Hit, Event::Shaded, Event::TemporalMerged] {
        stage = advance(stage, event).unwrap();
    }
    assert_eq!(stage, Stage::DirectTemporal);
    for tried in 1..=TRIES {
        stage = advance(stage, Event::NeighbourTried).unwrap();
        assert_eq!(stage, Stage::DirectSpatial { tried });
    }
    assert_eq!(advance(stage, Event::NeighbourTried), None);
    assert_eq!(advance(stage, Event::Written), Some(Stage::Resolved));
}

#[test]
fn pixel_without_a_hit_is_resolved_at_once() {
    assert_eq!(advance(Stage::Idle, Event::Miss), Some(Stage::Resolved));
}

#[test]
fn skipped_merge_goes_on_like_a_merge() {
    assert_eq!(advance(Stage::DirectReservoir, Event::TemporalSkipped), Some(Stage::DirectTemporal));
    assert_eq!(advance(Stage::DirectReservoir, Event::TemporalMerged), Some(Stage::DirectTemporal));
}

#[test]
fn pixel_without_neighbours_is_resolved_after_the_merge() {
    assert_eq!(advance(Stage::DirectTemporal, Event::Written), Some(Stage::Resolved));
    assert_eq!(advance(Stage::DirectSpatial { tried: 2 }, Event::Written), Some(Stage::Resolved));
}

#[test]
fn nothing_happens_to_a_resolved_pixel() {
    for event in EVENTS {
        assert_eq!(advance(Stage::Resolved, event), None);
    }
}

#[test]
fn stages_cannot_be_skipped() {
    assert_eq!(advance(Stage::Idle, Event::Shaded), None);
    assert_eq!(advance(Stage::Idle, Event::Written), None);
    assert_eq!(advance(Stage::PrimaryHit, Event::Hit), None);
    assert_eq!(advance(Stage::PrimaryHit, Event::TemporalMerged), None);
    assert_eq!(advance(Stage::PrimaryHit, Event::Written), None);
    assert_eq!(advance(Stage::DirectReservoir, Event::NeighbourTried), None);
    assert_eq!(advance(Stage::DirectReservoir, Event::Written), None);
    assert_eq!(advance(Stage::DirectTemporal, Event::TemporalMerged), None);
    assert_eq!(advance(Stage::DirectSpatial { tried: 1 }, Event::Shaded), None);
}
