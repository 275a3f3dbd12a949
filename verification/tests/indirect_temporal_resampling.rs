use strolle::bvh::Point;
use strolle::camera::{Camera, Offset, ScreenPos};
use strolle::color::Rgb;
use strolle::fixed::ONE;
use strolle::indirect_temporal_resampling::{
    attenuation, carry, migration, resample, Migration, MAX_M_SUM, MAX_W, MIN_RADIANCE,
};
use strolle::noise::Noise;
use strolle::reprojection::Reprojection;
use strolle::reservoir::Reservoir;
use strolle::sample::{IndirectReservoir, IndirectReservoirSample, Normal};

fn sample(level: u64, frame: u32) -> IndirectReservoirSample {
    IndirectReservoirSample {
        radiance: Rgb { r: level, g: level, b: level },
        hit_point: Point { x: 1, y: 2, z: 3 },
        sample_point: Point { x: 4, y: 5, z: 6 },
        sample_normal: Normal { x: 7, y: 8 },
        frame,
    }
}

fn past(level: u64, frame: u32) -> IndirectReservoir {
    Reservoir { sample: sample(level, frame), w_sum: 12 * ONE, m_sum: 8 * ONE, w: 1_500_000 }
}

fn reprojection(confidence: u64) -> Reprojection {
    Reprojection { prev_x: 10, prev_y: 20, confidence }
}

#[test]
fn caps_are_ten_and_thirty() {
    assert_eq!(MAX_W, 10 * ONE);
    assert_eq!(MAX_M_SUM, 30 * ONE);
    assert_eq!(MIN_RADIANCE, 100);
}

#[test]
fn young_reservoirs_keep_their_count() {
    assert_eq!(attenuation(0), ONE);
    assert_eq!(attenuation(16), ONE);
}

#[test]
fn old_reservoirs_are_rescaled_by_their_age() {
    assert_eq!(attenuation(17), 1_031_250);
    assert_eq!(attenuation(20), 1_125_000);
    assert_eq!(attenuation(64), 2_500_000);
}

#[test]
fn carried_count_is_scaled_by_age_and_confidence() {
    // Eight samples, twenty frames old, confidence 0.8:
    // 8 * (1 - (16 - 20) / 32) * 0.8 * 0.8 = 5.76.
    let carried = carry(&past(2 * ONE, 10), 30, 800_000, ONE);
    assert_eq!(carried.m_sum, 5_760_000);
    assert_eq!(carried.w_sum, 12 * ONE);
    assert_eq!(carried.w, 1_500_000);
    assert_eq!(carried.sample, sample(2 * ONE, 10));
}

#[test]
fn carried_count_is_scaled_by_compatibility() {
    let carried = carry(&past(2 * ONE, 25), 30, ONE, 750_000);
    assert_eq!(carried.m_sum, 6 * ONE);
}

#[test]
fn incompatible_reservoir_counts_for_nothing() {
    let carried = carry(&past(2 * ONE, 10), 30, 800_000, 499_999);
    assert_eq!(carried.m_sum, 0);
    let carried = carry(&past(2 * ONE, 10), 30, 800_000, 500_000);
    assert_eq!(carried.m_sum, 2_880_000);
}

#[test]
fn merged_count_follows_age_and_confidence() {
    // The new sample counts one, the past reservoir 5.76.
    let mut noise = Noise::new(1, 2, 3);
    let r = resample(
        &mut noise,
        30,
        sample(500_000, 30),
        &reprojection(800_000),
        &past(2 * ONE, 10),
        ONE,
    );
    assert_eq!(r.m_sum, 6_760_000);
    assert_eq!(r.w_sum, 17_780_000);
    assert_eq!(r.sample, sample(2 * ONE, 10));
    assert_eq!(r.w, 1_315_088);
    assert_eq!(noise.state, 315_920_605);
}

#[test]
fn new_sample_survives_a_weak_past() {
    // The past sample's target here is 0.01, its share 0.147; the draw is
    // 0.789404.
    let mut noise = Noise::new(1, 2, 3);
    let r = resample(
        &mut noise,
        30,
        sample(500_000, 30),
        &reprojection(800_000),
        &past(10_000, 10),
        ONE,
    );
    assert_eq!(r.sample, sample(500_000, 30));
    assert_eq!(r.w_sum, 586_400);
    assert_eq!(r.m_sum, 6_760_000);
    assert_eq!(r.w, 173_491);
}

#[test]
fn past_sample_is_normalised_by_its_own_target() {
    // The draw is 0.040737, within the share of 0.147.
    let mut noise = Noise::new(1, 2, 3);
    noise.sample();
    let r = resample(
        &mut noise,
        30,
        sample(500_000, 30),
        &reprojection(800_000),
        &past(10_000, 10),
        ONE,
    );
    assert_eq!(r.sample, sample(10_000, 10));
    assert_eq!(r.w_sum, 586_400);
    assert_eq!(r.w, 8_674_556);
    assert_eq!(noise.state, 1_711_370_822);
}

#[test]
fn pixel_without_reprojection_starts_afresh() {
    let mut noise = Noise::new(1, 2, 3);
    let r = resample(
        &mut noise,
        30,
        sample(500_000, 30),
        &Reprojection::none(),
        &past(2 * ONE, 10),
        ONE,
    );
    assert_eq!(r.sample, sample(500_000, 30));
    assert_eq!((r.w_sum, r.m_sum, r.w), (500_000, ONE, ONE));
    assert_eq!(noise, Noise::new(1, 2, 3));
}

#[test]
fn incompatible_past_is_left_out() {
    let mut noise = Noise::new(1, 2, 3);
    let r = resample(
        &mut noise,
        30,
        sample(500_000, 30),
        &reprojection(800_000),
        &past(2 * ONE, 10),
        400_000,
    );
    assert_eq!(r.sample, sample(500_000, 30));
    assert_eq!((r.w_sum, r.m_sum, r.w), (500_000, ONE, ONE));
    assert_eq!(noise, Noise::new(1, 2, 3));
}

#[test]
fn dark_samples_are_raised() {
    let mut noise = Noise::new(1, 2, 3);
    let mut dark = sample(0, 30);
    dark.radiance = Rgb { r: 0, g: 50, b: 200 };
    let r = resample(&mut noise, 30, dark, &Reprojection::none(), &past(2 * ONE, 10), ONE);
    assert_eq!(r.sample.radiance, Rgb { r: 100, g: 100, b: 200 });
    assert_eq!((r.w_sum, r.m_sum, r.w), (107, ONE, 107_000));
}

#[test]
fn count_is_capped_at_thirty() {
    let mut noise = Noise::new(1, 2, 3);
    let big = Reservoir {
        sample: sample(2 * ONE, 30),
        w_sum: 1200 * ONE,
        m_sum: 100 * ONE,
        w: 1_500_000,
    };
    let r = resample(&mut noise, 30, sample(500_000, 30), &reprojection(ONE), &big, ONE);
    assert_eq!(r.m_sum, 30 * ONE);
    assert_eq!(r.w_sum, 300_500_000);
    assert_eq!(r.w, 1_487_623);
}

#[test]
fn migration_finds_the_cell_of_the_previous_frame() {
    let camera = Camera::new(640, 480).unwrap();
    let cell = ScreenPos { x: 100, y: 50 };
    let entry = Reprojection::new(&camera, Offset { x: 203, y: 99 }, ONE, ONE);
    // Frame 5 shades sub-pixel (1, 1), frame 4 sub-pixel (0, 0).
    assert_eq!(
        migration(&camera, cell, 5, &entry),
        Some(Migration {
            from_screen_pos: ScreenPos { x: 202, y: 98 },
            to_screen_pos: ScreenPos { x: 201, y: 101 },
            from_cell: ScreenPos { x: 101, y: 49 },
        })
    );
    // Before frame 0 comes the last frame of the counter, which shades
    // sub-pixel (1, 0).
    assert_eq!(
        migration(&camera, cell, 0, &entry),
        Some(Migration {
            from_screen_pos: ScreenPos { x: 203, y: 98 },
            to_screen_pos: ScreenPos { x: 200, y: 100 },
            from_cell: ScreenPos { x: 101, y: 49 },
        })
    );
}

#[test]
fn no_reprojection_means_no_migration() {
    let camera = Camera::new(640, 480).unwrap();
    let cell = ScreenPos { x: 100, y: 50 };
    assert_eq!(migration(&camera, cell, 5, &Reprojection::none()), None);
    let outside = Reprojection { prev_x: 640, prev_y: 0, confidence: ONE };
    assert_eq!(migration(&camera, cell, 5, &outside), None);
}

use strolle::indirect_temporal_resampling::main_inner;
use strolle::surface::{Direction, Surface};

const FACING_X: Direction = Direction { x: 1_000_000, y: 0, z: 0 };
const FACING_Y: Direction = Direction { x: 0, y: 1_000_000, z: 0 };

struct Buffers {
    camera: Camera,
    surfaces: Vec<Surface>,
    past_surfaces: Vec<Surface>,
    reprojection_map: Vec<Reprojection>,
    samples: Vec<IndirectReservoirSample>,
    past_reservoirs: Vec<IndirectReservoir>,
}

fn buffers() -> Buffers {
    let flat = Surface { normal: FACING_X, depth: ONE };
    let mut reprojection_map = vec![Reprojection::none(); 16];
    // In frame 4 cell (1, 0) shaded pixel (2, 0), which was at (3, 1).
    reprojection_map[2] = Reprojection { prev_x: 3, prev_y: 1, confidence: 800_000 };
    Buffers {
        camera: Camera::new(4, 4).unwrap(),
        surfaces: vec![flat; 16],
        past_surfaces: vec![flat; 16],
        reprojection_map,
        samples: (0..4).map(|i| sample(500_000 + i, 5)).collect(),
        past_reservoirs: (0..4)
            .map(|i| Reservoir {
                sample: sample(2 * ONE + i, 1),
                w_sum: 12 * ONE,
                m_sum: 8 * ONE,
                w: 1_500_000,
            })
            .collect(),
    }
}

fn run(b: &Buffers, cell: ScreenPos, seed: u32) -> IndirectReservoir {
    main_inner(
        cell,
        seed,
        5,
        &b.camera,
        &b.surfaces,
        &b.past_surfaces,
        &b.reprojection_map,
        &b.samples,
        &b.past_reservoirs,
    )
}

fn fields(r: &IndirectReservoir) -> (IndirectReservoirSample, u64, u64, u64) {
    (r.sample, r.w_sum, r.m_sum, r.w)
}

#[test]
fn cell_is_merged_with_the_cell_it_came_from() {
    let b = buffers();
    for seed in 0..50 {
        let cell = ScreenPos { x: 1, y: 0 };
        let r = run(&b, cell, seed);
        let mut noise = Noise::new(seed, 1, 0);
        let expected =
            resample(&mut noise, 5, b.samples[1], &b.reprojection_map[2], &b.past_reservoirs[1], ONE);
        assert_eq!(fields(&r), fields(&expected));
        // One new sample and eight old ones at confidence 0.8.
        assert_eq!(r.m_sum, 6_120_000);
    }
}

#[test]
fn cell_without_reprojection_keeps_its_sample() {
    let b = buffers();
    for (index, cell) in [(0, (0, 0)), (2, (0, 1)), (3, (1, 1))] {
        let r = run(&b, ScreenPos { x: cell.0, y: cell.1 }, 9);
        assert_eq!(fields(&r), (b.samples[index], 500_000 + index as u64, ONE, ONE));
    }
}

#[test]
fn cell_that_came_from_another_surface_keeps_its_sample() {
    let mut b = buffers();
    // The reservoir came from pixel (2, 0) of the previous frame.
    b.past_surfaces[2] = Surface { normal: FACING_Y, depth: ONE };
    let r = run(&b, ScreenPos { x: 1, y: 0 }, 9);
    assert_eq!(fields(&r), (b.samples[1], 500_001, ONE, ONE));
    // It goes to pixel (3, 1) of this frame.
    let mut b = buffers();
    b.surfaces[7] = Surface { normal: FACING_Y, depth: ONE };
    let r = run(&b, ScreenPos { x: 1, y: 0 }, 9);
    assert_eq!(fields(&r), (b.samples[1], 500_001, ONE, ONE));
    // Other surfaces do not matter.
    let mut b = buffers();
    for i in 0..16 {
        if i != 7 {
            b.surfaces[i] = Surface { normal: FACING_Y, depth: ONE };
        }
        if i != 2 {
            b.past_surfaces[i] = Surface { normal: FACING_Y, depth: ONE };
        }
    }
    assert_eq!(run(&b, ScreenPos { x: 1, y: 0 }, 9).m_sum, 6_120_000);
}

#[test]
fn cell_reads_the_reservoir_of_the_cell_it_came_from() {
    let mut b = buffers();
    b.reprojection_map[2] = Reprojection { prev_x: 0, prev_y: 3, confidence: ONE };
    // Pixel (0, 3) lies in cell (0, 1), whose index is 2.
    b.past_reservoirs[2].m_sum = 3 * ONE;
    let r = run(&b, ScreenPos { x: 1, y: 0 }, 9);
    assert_eq!(r.m_sum, 4 * ONE);
}
