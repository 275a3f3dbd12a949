use strolle::color::Rgb;
use strolle::fixed::ONE;
use strolle::lighting::{
    add_sky, begin, sky_exposure, sky_weight, stream_lights, SkyLookup, SKY_EXPOSURE_ESCAPED,
    SKY_EXPOSURE_HIT,
};
use strolle::noise::Noise;
use strolle::reservoir::Reservoir;
use strolle::sample::{DirectReservoirSample, SKY};

fn lights() -> Vec<Rgb> {
    vec![
        Rgb { r: ONE, g: ONE, b: ONE },
        Rgb { r: 2 * ONE, g: 0, b: 0 },
        Rgb { r: 0, g: 3 * ONE, b: 0 },
    ]
}

#[test]
fn no_lights_leave_the_reservoir_vacant() {
    let mut noise = Noise::new(1, 2, 3);
    let before = noise;
    let r = stream_lights(&mut noise, &[]);
    assert!(r.is_empty());
    assert_eq!((r.w_sum, r.m_sum, r.w), (0, 0, 0));
    assert_eq!(noise, before);
}

#[test]
fn lights_are_weighted_by_luminance() {
    // Weights 1, 0.4252 and 2.1456; the draws 0.789404, 0.040737 and
    // 0.687725 admit the first two.
    let mut noise = Noise::new(1, 2, 3);
    let r = stream_lights(&mut noise, &lights());
    assert_eq!(r.sample.light_id.get(), 1);
    assert_eq!(r.sample.light_contribution, Rgb { r: 2 * ONE, g: 0, b: 0 });
    assert_eq!(r.w_sum, 3_570_800);
    assert_eq!(r.m_sum, 3 * ONE);
    assert_eq!(noise.state, 2_875_629_699);
}

#[test]
fn sky_weighs_a_quarter_of_the_lights() {
    assert_eq!(sky_weight(3_570_800), 892_700);
    assert_eq!(sky_weight(4 * ONE), ONE);
    assert_eq!(sky_weight(u64::MAX), u64::MAX / 4);
}

#[test]
fn sky_weighs_a_millionth_at_least() {
    for w_sum in 1..=7 {
        assert_eq!(sky_weight(w_sum), 1);
    }
    assert_eq!(sky_weight(8), 2);
}

#[test]
fn sky_weighs_one_without_lights() {
    assert_eq!(sky_weight(0), ONE);
}

#[test]
fn sky_is_brightened_ninefold_where_the_ray_escaped() {
    assert_eq!(SKY_EXPOSURE_ESCAPED, 9 * ONE);
    assert_eq!(sky_exposure(true), 9 * ONE);
    assert_eq!(SKY_EXPOSURE_HIT, 4_500_000);
    assert_eq!(sky_exposure(false), 4_500_000);
}

#[test]
fn sky_only_pixel_shows_nine_times_the_atmosphere() {
    let atmosphere = Rgb { r: 100_000, g: 200_000, b: 300_000 };
    for seed in 0..200 {
        let mut noise = Noise::new(seed, 6, 7);
        let mut r = stream_lights(&mut noise, &[]);
        assert!(add_sky(&mut r, &mut noise, atmosphere, true));
        assert!(r.sample.is_sky());
        assert_eq!(r.sample.light_id.get(), SKY);
        assert_eq!(
            r.sample.light_contribution,
            Rgb { r: 900_000, g: 1_800_000, b: 2_700_000 }
        );
        assert_eq!((r.w_sum, r.m_sum), (ONE, ONE));
    }
}

#[test]
fn sky_competes_with_the_lights() {
    // The fourth draw, 0.432251, is above the sky's share of 0.2.
    let atmosphere = Rgb { r: 100_000, g: 200_000, b: 300_000 };
    let mut noise = Noise::new(1, 2, 3);
    let mut r = stream_lights(&mut noise, &lights());
    assert!(!add_sky(&mut r, &mut noise, atmosphere, false));
    assert_eq!(r.sample.light_id.get(), 1);
    assert_eq!(r.w_sum, 4_463_500);
    assert_eq!(r.m_sum, 4 * ONE);
    assert_eq!(noise.state, 2_671_291_556);
}

#[test]
fn sky_where_the_ray_hit_is_brightened_four_and_a_half_times() {
    let atmosphere = Rgb { r: 100_000, g: 200_000, b: 300_000 };
    let mut noise = Noise::new(5, 6, 7);
    let mut r = Reservoir::empty(DirectReservoirSample::placeholder());
    assert!(add_sky(&mut r, &mut noise, atmosphere, false));
    assert_eq!(r.sample.light_contribution, Rgb { r: 450_000, g: 900_000, b: 1_350_000 });
}

#[test]
fn sky_is_offered_to_the_dimmest_lights() {
    // The sum of weights is three millionths, the sky weighs one; the draw
    // 0.896603 is above its share of a quarter.
    let atmosphere = Rgb { r: ONE, g: ONE, b: ONE };
    let mut noise = Noise::new(5, 6, 7);
    let mut r = Reservoir {
        sample: DirectReservoirSample::placeholder(),
        w_sum: 3,
        m_sum: ONE,
        w: ONE,
    };
    assert!(!add_sky(&mut r, &mut noise, atmosphere, true));
    assert_eq!((r.w_sum, r.m_sum), (4, 2 * ONE));
    assert_eq!(noise.state, 2_294_605_465);
}

#[test]
fn two_equal_lights_are_chosen_equally_often() {
    // Chi-square with one degree of freedom stays below 6.63 in 99 runs
    // out of 100.
    let lights = vec![Rgb { r: ONE, g: ONE, b: ONE }, Rgb { r: ONE, g: ONE, b: ONE }];
    let trials: u32 = 1_000_000;
    let mut first = 0f64;
    for seed in 0..trials {
        let mut noise = Noise::new(seed, seed % 640, seed / 640);
        let r = stream_lights(&mut noise, &lights);
        if r.sample.light_id.get() == 0 {
            first += 1.0;
        }
    }
    let half = trials as f64 / 2.0;
    let second = trials as f64 - first;
    let chi = (first - half) * (first - half) / half + (second - half) * (second - half) / half;
    assert!(chi < 6.63, "chi-square is {}", chi);
}

#[test]
fn escaped_ray_looks_the_sky_up_where_it_escaped() {
    let waiting = begin(Noise::new(1, 2, 3), true, &lights());
    assert_eq!(waiting.lookup, SkyLookup::Escape);
    assert!(waiting.escaped);
    assert!(waiting.reservoir.is_empty());
    assert_eq!(waiting.noise, Noise::new(1, 2, 3));
    let atmosphere = Rgb { r: 100_000, g: 200_000, b: 300_000 };
    let chosen = waiting.sky_evaluated(atmosphere);
    assert!(chosen.reservoir.sample.is_sky());
    assert_eq!(
        chosen.reservoir.sample.light_contribution,
        Rgb { r: 900_000, g: 1_800_000, b: 2_700_000 }
    );
    let mut twin = Noise::new(1, 2, 3);
    twin.sample();
    assert_eq!(chosen.noise, twin);
}

#[test]
fn ray_that_hit_looks_the_sky_up_round_the_normal() {
    // The lights take three draws; the next two are 0.432251 and 0.540687.
    let waiting = begin(Noise::new(1, 2, 3), false, &lights());
    assert_eq!(waiting.lookup, SkyLookup::Around { first: 432_251, second: 540_687 });
    assert_eq!(waiting.reservoir.sample.light_id.get(), 1);
    assert_eq!(waiting.reservoir.w_sum, 3_570_800);
    let mut twin = Noise::new(1, 2, 3);
    for _ in 0..5 {
        twin.sample();
    }
    assert_eq!(waiting.noise, twin);
    let chosen = waiting.sky_evaluated(Rgb { r: ONE, g: ONE, b: ONE });
    assert_eq!(chosen.reservoir.w_sum, 4_463_500);
    assert_eq!(chosen.reservoir.m_sum, 4 * ONE);
    twin.sample();
    assert_eq!(chosen.noise, twin);
}

#[test]
fn sky_is_looked_up_for_the_dimmest_lights() {
    // One light whose luminance is three millionths.
    let dim = [Rgb { r: 3, g: 3, b: 3 }];
    let waiting = begin(Noise::new(1, 2, 3), false, &dim);
    assert_eq!(waiting.lookup, SkyLookup::Around { first: 40_737, second: 687_725 });
    let chosen = waiting.sky_evaluated(Rgb { r: ONE, g: ONE, b: ONE });
    assert_eq!(chosen.reservoir.sample.light_id.get(), 0);
    assert_eq!(chosen.reservoir.w_sum, 4);
    assert_eq!(chosen.reservoir.m_sum, 2 * ONE);
    assert_eq!(chosen.noise.state, 2_671_291_556);
}

#[test]
fn ray_without_lights_looks_the_sky_up_all_the_same() {
    let waiting = begin(Noise::new(1, 2, 3), false, &[]);
    assert_eq!(waiting.lookup, SkyLookup::Around { first: 789_404, second: 40_737 });
    let chosen = waiting.sky_evaluated(Rgb { r: 100_000, g: 200_000, b: 300_000 });
    assert!(chosen.reservoir.sample.is_sky());
    assert_eq!(
        chosen.reservoir.sample.light_contribution,
        Rgb { r: 450_000, g: 900_000, b: 1_350_000 }
    );
}
