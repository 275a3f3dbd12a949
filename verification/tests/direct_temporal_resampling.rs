use strolle::color::Rgb;
use strolle::direct_temporal_resampling::{resample, MAX_M_SUM, MAX_W};
use strolle::fixed::ONE;
use strolle::noise::Noise;
use strolle::reprojection::Reprojection;
use strolle::reservoir::Reservoir;
use strolle::resolving::resolve_direct;
use strolle::sample::{DirectReservoir, DirectReservoirSample, LightId};

fn light(id: u32, level: u64) -> DirectReservoirSample {
    DirectReservoirSample {
        light_id: LightId::new(id),
        light_contribution: Rgb { r: level, g: level, b: level },
    }
}

fn fresh() -> DirectReservoir {
    Reservoir::new(light(1, 2 * ONE), 2 * ONE)
}

fn stationary() -> Reprojection {
    Reprojection { prev_x: 10, prev_y: 20, confidence: ONE }
}

#[test]
fn caps_are_five_and_ten() {
    assert_eq!(MAX_W, 5 * ONE);
    assert_eq!(MAX_M_SUM, 10 * ONE);
}

#[test]
fn stationary_pixel_fills_its_reservoir() {
    let mut noise = Noise::new(7, 8, 9);
    let mut past = Reservoir::empty(DirectReservoirSample::placeholder());
    for frame in 0..32u64 {
        past = resample(&mut noise, fresh(), &past, &stationary(), ONE, 2 * ONE);
        let seen = if frame < 10 { (frame + 1) * ONE } else { 10 * ONE };
        assert_eq!(past.m_sum, seen);
        assert_eq!(past.w, ONE);
    }
    assert_eq!(past.m_sum, MAX_M_SUM);
    assert_eq!(past.w_sum, 22 * ONE);
}

#[test]
fn newly_revealed_pixel_starts_afresh() {
    let mut noise = Noise::new(7, 8, 9);
    let occluder = Reservoir { sample: light(9, 50 * ONE), w_sum: 900 * ONE, m_sum: 10 * ONE, w: ONE };
    let r = resample(&mut noise, fresh(), &occluder, &Reprojection::none(), ONE, 50 * ONE);
    assert_eq!(r.sample, light(1, 2 * ONE));
    assert_eq!((r.w_sum, r.m_sum, r.w), (2 * ONE, ONE, ONE));
    assert_eq!(noise, Noise::new(7, 8, 9));
}

#[test]
fn dissimilar_surface_is_not_reused() {
    let mut noise = Noise::new(7, 8, 9);
    let other = Reservoir { sample: light(9, 50 * ONE), w_sum: 900 * ONE, m_sum: 10 * ONE, w: ONE };
    let r = resample(&mut noise, fresh(), &other, &stationary(), 499_999, 50 * ONE);
    assert_eq!(r.sample, light(1, 2 * ONE));
    assert_eq!((r.w_sum, r.m_sum, r.w), (2 * ONE, ONE, ONE));
    assert_eq!(noise, Noise::new(7, 8, 9));
}

#[test]
fn past_count_is_scaled_by_the_square_of_the_confidence() {
    // Three samples at confidence 0.8 count 1.92; the weight is
    // 1.5 * 1.92 * 3 = 8.64, the draw 0.311017 within its share.
    let mut noise = Noise::new(7, 8, 9);
    let past = Reservoir { sample: light(9, 3 * ONE), w_sum: 9 * ONE, m_sum: 3 * ONE, w: 1_500_000 };
    let entry = Reprojection { prev_x: 10, prev_y: 20, confidence: 800_000 };
    let r = resample(&mut noise, fresh(), &past, &entry, 600_000, 3 * ONE);
    assert_eq!(r.sample, light(9, 3 * ONE));
    assert_eq!(r.m_sum, 2_920_000);
    assert_eq!(r.w_sum, 10_640_000);
    assert_eq!(r.w, 1_214_611);
    assert_eq!(noise.state, 3_096_015_359);
}

#[test]
fn stationary_pixels_converge_on_the_light() {
    // One light, a still camera: after thirty-two frames every pixel shows
    // what the light contributes, so that the image has no variance left.
    let mut shown = Vec::new();
    for pixel in 0..64u32 {
        let mut noise = Noise::new(12345, pixel % 8, pixel / 8);
        let mut past = Reservoir::empty(DirectReservoirSample::placeholder());
        for _ in 0..32 {
            past = resample(&mut noise, fresh(), &past, &stationary(), ONE, 2 * ONE);
        }
        assert_eq!(past.m_sum, MAX_M_SUM);
        shown.push(resolve_direct(&past).luminance() as f64);
    }
    let mean = shown.iter().sum::<f64>() / shown.len() as f64;
    let variance =
        shown.iter().map(|v| (v - mean) * (v - mean)).sum::<f64>() / shown.len() as f64;
    assert_eq!(mean, 2_000_000.0);
    assert!(variance < 0.01 * mean);
}
