use strolle::bvh::Point;
use strolle::color::Rgb;
use strolle::fixed::{HALF, ONE};
use strolle::indirect_initial_shading::{initial_sample, shade, Bounce, MIN_RADIANCE};
use strolle::sample::{DirectReservoirSample, LightId, Normal};

fn light(contribution: Rgb) -> DirectReservoirSample {
    DirectReservoirSample { light_id: LightId::new(4), light_contribution: contribution }
}

#[test]
fn lights_are_dimmed_by_the_cosine() {
    let c = Rgb { r: 2 * ONE, g: 4 * ONE, b: 6 * ONE };
    assert_eq!(shade(light(c), ONE, HALF), Rgb { r: ONE, g: 2 * ONE, b: 3 * ONE });
    assert_eq!(shade(light(c), ONE, ONE), c);
}

#[test]
fn sky_is_not_dimmed_by_the_cosine() {
    let c = Rgb { r: 2 * ONE, g: 4 * ONE, b: 6 * ONE };
    assert_eq!(shade(DirectReservoirSample::sky(c), ONE, HALF), c);
    assert_eq!(shade(DirectReservoirSample::sky(c), ONE, 0), c);
}

#[test]
fn shadowed_light_leaves_the_least_radiance() {
    assert_eq!(MIN_RADIANCE, 1);
    let c = Rgb { r: 2 * ONE, g: 4 * ONE, b: 6 * ONE };
    assert_eq!(shade(light(c), 0, ONE), Rgb { r: 1, g: 1, b: 1 });
    assert_eq!(shade(DirectReservoirSample::sky(c), 0, ONE), Rgb { r: 1, g: 1, b: 1 });
    assert_eq!(shade(light(c), ONE, 0), Rgb { r: 1, g: 1, b: 1 });
}

#[test]
fn no_primary_hit_gives_no_sample() {
    let bounce = Bounce::Hit { point: Point { x: 1, y: 2, z: 3 }, normal: Normal { x: 4, y: 5 } };
    let c = Rgb { r: ONE, g: ONE, b: ONE };
    assert_eq!(initial_sample(None, bounce, light(c), ONE, ONE, 7), None);
}

#[test]
fn sample_of_a_hit_points_at_the_hit() {
    let hit_point = Point { x: 10, y: 20, z: 30 };
    let bounce = Bounce::Hit { point: Point { x: 1, y: 2, z: 3 }, normal: Normal { x: 4, y: 5 } };
    assert!(bounce.is_some());
    assert!(!bounce.is_none());
    let c = Rgb { r: 2 * ONE, g: 4 * ONE, b: 6 * ONE };
    let sample = initial_sample(Some(hit_point), bounce, light(c), ONE, HALF, 7).unwrap();
    assert_eq!(sample.radiance, Rgb { r: ONE, g: 2 * ONE, b: 3 * ONE });
    assert_eq!(sample.hit_point, hit_point);
    assert_eq!(sample.sample_point, Point { x: 1, y: 2, z: 3 });
    assert_eq!(sample.sample_normal, Normal { x: 4, y: 5 });
    assert_eq!(sample.frame, 7);
}

#[test]
fn sample_of_an_escaped_ray_points_at_the_sky() {
    let hit_point = Point { x: 10, y: 20, z: 30 };
    let bounce =
        Bounce::Escaped { toward: Normal { x: 8, y: 9 }, far_point: Point { x: 5, y: 6, z: 7 } };
    assert!(bounce.is_none());
    assert!(!bounce.is_some());
    let c = Rgb { r: 900_000, g: 1_800_000, b: 2_700_000 };
    let sky = DirectReservoirSample::sky(c);
    let sample = initial_sample(Some(hit_point), bounce, sky, ONE, HALF, 3).unwrap();
    assert_eq!(sample.radiance, c);
    assert_eq!(sample.sample_point, Point { x: 5, y: 6, z: 7 });
    assert_eq!(sample.sample_normal, Normal { x: 8, y: 9 });
    assert_eq!(sample.frame, 3);
}

use strolle::camera::ScreenPos;
use strolle::indirect_initial_shading::main_inner;
use strolle::lighting::{begin, SkyLookup};
use strolle::noise::Noise;
use strolle::sample::SKY;

const PIXEL: ScreenPos = ScreenPos { x: 7, y: 9 };
const HIT_POINT: Point = Point { x: 10, y: 20, z: 30 };
const ATMOSPHERE: Rgb = Rgb { r: 100_000, g: 200_000, b: 300_000 };

fn escaped() -> Bounce {
    Bounce::Escaped { toward: Normal { x: 8, y: 9 }, far_point: Point { x: 5, y: 6, z: 7 } }
}

fn hit() -> Bounce {
    Bounce::Hit { point: Point { x: 1, y: 2, z: 3 }, normal: Normal { x: 4, y: 5 } }
}

fn lights() -> Vec<Rgb> {
    vec![Rgb { r: ONE, g: ONE, b: ONE }, Rgb { r: 2 * ONE, g: 0, b: 0 }, Rgb { r: 0, g: 3 * ONE, b: 0 }]
}

#[test]
fn pixel_without_a_primary_hit_has_no_sample() {
    let sample = main_inner(
        1,
        PIXEL,
        3,
        None,
        hit(),
        &lights(),
        ONE,
        |_| unreachable!(),
        |_, _| unreachable!(),
    );
    assert_eq!(sample, None);
}

#[test]
fn sky_only_pixel_shows_nine_times_the_sky() {
    for seed in 0..200 {
        let sample = main_inner(
            seed,
            PIXEL,
            3,
            Some(HIT_POINT),
            escaped(),
            &lights(),
            HALF,
            |lookup| {
                assert_eq!(lookup, SkyLookup::Escape);
                ATMOSPHERE
            },
            |light, lookup| {
                assert_eq!(light.get(), SKY);
                assert_eq!(lookup, SkyLookup::Escape);
                ONE
            },
        )
        .unwrap();
        assert_eq!(sample.radiance, Rgb { r: 900_000, g: 1_800_000, b: 2_700_000 });
        assert_eq!(sample.hit_point, HIT_POINT);
        assert_eq!(sample.sample_point, Point { x: 5, y: 6, z: 7 });
        assert_eq!(sample.sample_normal, Normal { x: 8, y: 9 });
        assert_eq!(sample.frame, 3);
    }
}

#[test]
fn pixel_is_shaded_step_by_step() {
    for seed in 0..200 {
        let mut noise = Noise::new(seed, PIXEL.x, PIXEL.y);
        noise.sample();
        noise.sample();
        let waiting = begin(noise, false, &lights());
        let chosen = waiting.sky_evaluated(ATMOSPHERE).reservoir.sample;
        let expected = initial_sample(Some(HIT_POINT), hit(), chosen, ONE, HALF, 3);

        let sample = main_inner(
            seed,
            PIXEL,
            3,
            Some(HIT_POINT),
            hit(),
            &lights(),
            HALF,
            |lookup| {
                assert_eq!(lookup, waiting.lookup);
                ATMOSPHERE
            },
            |light, lookup| {
                assert_eq!(light, chosen.light_id);
                assert_eq!(lookup, waiting.lookup);
                ONE
            },
        );
        assert_eq!(sample, expected);
        let sample = sample.unwrap();
        assert!(sample.radiance.r >= 1 && sample.radiance.g >= 1 && sample.radiance.b >= 1);
    }
}

#[test]
fn shadowed_pixel_keeps_the_least_radiance() {
    let sample =
        main_inner(5, PIXEL, 3, Some(HIT_POINT), hit(), &lights(), ONE, |_| ATMOSPHERE, |_, _| 0)
            .unwrap();
    assert_eq!(sample.radiance, Rgb { r: 1, g: 1, b: 1 });
}
