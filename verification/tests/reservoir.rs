use strolle::fixed::ONE;
use strolle::noise::Noise;
use strolle::reservoir::Reservoir;

#[test]
fn new_with_weight_counts_one_sample() {
    let r = Reservoir::new(7u32, 2 * ONE);
    assert_eq!(r.sample, 7);
    assert_eq!(r.w_sum, 2 * ONE);
    assert_eq!(r.m_sum, ONE);
    assert_eq!(r.w, ONE);
}

#[test]
fn new_without_weight_counts_no_sample() {
    let r = Reservoir::new(7u32, 0);
    assert_eq!(r.w_sum, 0);
    assert_eq!(r.m_sum, 0);
    assert_eq!(r.w, ONE);
    assert!(r.is_empty());
}

#[test]
fn empty_has_seen_nothing() {
    let r = Reservoir::empty(3u8);
    assert_eq!((r.sample, r.w_sum, r.m_sum, r.w), (3, 0, 0, 0));
    assert!(r.is_empty());
}

#[test]
fn add_turns_down_a_sample_above_its_share() {
    // The first draw is 0.789404: above 6 / 8.
    let mut noise = Noise::new(1, 2, 3);
    let mut r = Reservoir::new(10u32, 2 * ONE);
    assert!(!r.add(&mut noise, 11, 6 * ONE));
    assert_eq!((r.sample, r.w_sum, r.m_sum, r.w), (10, 8 * ONE, 2 * ONE, ONE));
}

#[test]
fn add_admits_a_sample_within_its_share() {
    // The second draw is 0.040737: below 1 / 9.
    let mut noise = Noise::new(1, 2, 3);
    let mut r = Reservoir::new(10u32, 2 * ONE);
    r.add(&mut noise, 11, 6 * ONE);
    assert!(r.add(&mut noise, 12, ONE));
    assert_eq!((r.sample, r.w_sum, r.m_sum, r.w), (12, 9 * ONE, 3 * ONE, ONE));
}

#[test]
fn add_draws_one_number() {
    let mut noise = Noise::new(1, 2, 3);
    let mut twin = noise;
    let mut r = Reservoir::new(10u32, 2 * ONE);
    r.add(&mut noise, 11, 6 * ONE);
    twin.sample();
    assert_eq!(noise, twin);
}

#[test]
fn first_sample_with_weight_is_always_admitted() {
    for seed in 0..1000 {
        let mut noise = Noise::new(seed, 0, 0);
        let mut r = Reservoir::empty(0u32);
        assert!(r.add(&mut noise, 1, 5));
        assert_eq!(r.sample, 1);
    }
}

#[test]
fn add_without_weight_keeps_the_sample() {
    let mut noise = Noise::new(1, 2, 3);
    let mut r = Reservoir::new(7u32, 0);
    for i in 0..10u32 {
        assert!(!r.add(&mut noise, 100 + i, 0));
    }
    assert_eq!(r.sample, 7);
    assert_eq!(r.w_sum, 0);
    assert_eq!(r.m_sum, 10 * ONE);
    assert_eq!(r.w, ONE);
}

#[test]
fn no_add_leaves_a_weightless_reservoir_without_count() {
    let r = Reservoir::new(7u32, 0);
    assert_eq!((r.sample, r.w_sum, r.m_sum), (7, 0, 0));
}

#[test]
fn add_saturates() {
    let mut noise = Noise::new(1, 2, 3);
    let mut r = Reservoir { sample: 1u32, w_sum: u64::MAX - 1, m_sum: u64::MAX, w: ONE };
    r.add(&mut noise, 2, 5);
    assert_eq!(r.w_sum, u64::MAX);
    assert_eq!(r.m_sum, u64::MAX);
}

#[test]
fn merge_of_a_vacant_reservoir_changes_nothing() {
    let mut noise = Noise::new(1, 2, 3);
    let before = noise;
    let mut a = Reservoir::new(1u32, 3 * ONE);
    let b = Reservoir { sample: 2u32, w_sum: 4 * ONE, m_sum: 0, w: ONE };
    assert!(!a.merge(&mut noise, &b, 2 * ONE));
    assert_eq!((a.sample, a.w_sum, a.m_sum, a.w), (1, 3 * ONE, ONE, ONE));
    assert_eq!(noise, before);
}

#[test]
fn merge_weighs_by_factor_count_and_target() {
    // The weight is 1.5 * 2 * 2 = 6, the draw 0.789404 is above 6 / 9.
    let mut noise = Noise::new(1, 2, 3);
    let mut a = Reservoir::new(1u32, 3 * ONE);
    let b = Reservoir { sample: 2u32, w_sum: 4 * ONE, m_sum: 2 * ONE, w: 1_500_000 };
    assert!(!a.merge(&mut noise, &b, 2 * ONE));
    assert_eq!((a.sample, a.w_sum, a.m_sum, a.w), (1, 9 * ONE, 3 * ONE, ONE));
}

#[test]
fn merge_takes_the_sample_within_its_share() {
    let mut noise = Noise::new(1, 2, 3);
    noise.sample();
    // The next draw is 0.040737.
    let mut a = Reservoir::new(1u32, 3 * ONE);
    let b = Reservoir { sample: 2u32, w_sum: 4 * ONE, m_sum: 2 * ONE, w: 1_500_000 };
    assert!(a.merge(&mut noise, &b, 2 * ONE));
    assert_eq!((a.sample, a.w_sum, a.m_sum, a.w), (2, 9 * ONE, 3 * ONE, ONE));
}

#[test]
fn merge_adds_fractional_counts() {
    let mut noise = Noise::new(9, 9, 9);
    let mut a = Reservoir::new(1u32, 0);
    let b = Reservoir { sample: 2u32, w_sum: ONE, m_sum: 500_000, w: ONE };
    a.merge(&mut noise, &b, ONE);
    assert_eq!(a.m_sum, 500_000);
    assert_eq!(a.w_sum, 500_000);
}

#[test]
fn normalize_divides_by_count_and_target() {
    let mut r = Reservoir { sample: 1u32, w_sum: 6 * ONE, m_sum: 2 * ONE, w: ONE };
    r.normalize(1_500_000, 5 * ONE, 10 * ONE);
    assert_eq!((r.sample, r.w_sum, r.m_sum, r.w), (1, 6 * ONE, 2 * ONE, 2 * ONE));
}

#[test]
fn normalize_caps_both() {
    let mut r = Reservoir { sample: 1u32, w_sum: 50 * ONE, m_sum: 40 * ONE, w: ONE };
    r.normalize(500_000, 5 * ONE, 10 * ONE);
    assert_eq!(r.w, 2_500_000);
    assert_eq!(r.m_sum, 10 * ONE);
    let mut r = Reservoir { sample: 1u32, w_sum: 500 * ONE, m_sum: 4 * ONE, w: ONE };
    r.normalize(ONE, 5 * ONE, 10 * ONE);
    assert_eq!(r.w, 5 * ONE);
    assert_eq!(r.m_sum, 4 * ONE);
}

#[test]
fn normalize_divides_by_a_thousandth_at_least() {
    let mut r = Reservoir { sample: 1u32, w_sum: 2_000, m_sum: 500, w: ONE };
    r.normalize(1_000, 10 * ONE, 20 * ONE);
    assert_eq!(r.w, 2 * ONE);
    let mut r = Reservoir { sample: 1u32, w_sum: 2_000, m_sum: 0, w: ONE };
    r.normalize(0, 10 * ONE, 20 * ONE);
    assert_eq!(r.w, 2 * ONE);
}

#[test]
fn normalize_stays_within_caps_for_extreme_inputs() {
    let values = [0u64, 1, 999, 1_000, ONE, 30 * ONE, u64::MAX / 2, u64::MAX];
    for &w_sum in &values {
        for &m_sum in &values {
            for &p_hat in &values {
                for &max_w in &values {
                    for &max_m in &values {
                        let mut r = Reservoir { sample: 0u8, w_sum, m_sum, w: ONE };
                        r.normalize(p_hat, max_w, max_m);
                        assert!(r.w <= max_w);
                        assert!(r.m_sum <= max_m);
                        assert_eq!(r.w_sum, w_sum);
                    }
                }
            }
        }
    }
}

#[test]
fn stream_keeps_samples_in_proportion_to_their_weights() {
    // Weights one, two and three; chi-square with two degrees of freedom
    // stays below 9.21 in 99 runs out of 100.
    let trials: u32 = 100_000;
    let mut kept = [0f64; 3];
    for seed in 0..trials {
        let mut noise = Noise::new(seed, 5, 7);
        let mut r = Reservoir::empty(99usize);
        r.add(&mut noise, 0, ONE);
        r.add(&mut noise, 1, 2 * ONE);
        r.add(&mut noise, 2, 3 * ONE);
        kept[r.sample] += 1.0;
    }
    let total = trials as f64;
    let expected = [total / 6.0, total / 3.0, total / 2.0];
    let mut chi = 0.0;
    for i in 0..3 {
        chi += (kept[i] - expected[i]) * (kept[i] - expected[i]) / expected[i];
    }
    assert!(chi < 9.21, "chi-square is {}", chi);
}

#[test]
fn merges_accumulate_alike_in_either_grouping() {
    let a = Reservoir { sample: 1u32, w_sum: 3 * ONE, m_sum: 2 * ONE, w: ONE };
    // b and c stand for as much weight as they have seen.
    let b = Reservoir { sample: 2u32, w_sum: 4 * ONE, m_sum: 2 * ONE, w: ONE };
    let c = Reservoir { sample: 3u32, w_sum: 6 * ONE, m_sum: 3 * ONE, w: ONE };
    let (p_b, p_c) = (2 * ONE, 2 * ONE);

    let mut noise = Noise::new(3, 1, 4);
    let mut left = a;
    left.merge(&mut noise, &b, p_b);
    left.merge(&mut noise, &c, p_c);

    let mut d = b;
    d.merge(&mut noise, &c, p_c);
    let p_d = 2 * ONE;
    d.normalize(p_d, 100 * ONE, 100 * ONE);
    assert_eq!(d.w, ONE);
    let mut right = a;
    right.merge(&mut noise, &d, p_d);

    assert_eq!(left.w_sum, 13 * ONE);
    assert_eq!(right.w_sum, 13 * ONE);
    assert_eq!(left.m_sum, 7 * ONE);
    assert_eq!(right.m_sum, 7 * ONE);
}

#[test]
fn default_has_seen_nothing() {
    let r: Reservoir<u32> = Reservoir::default();
    assert_eq!((r.sample, r.w_sum, r.m_sum, r.w), (0, 0, 0, 0));
    assert!(r.is_empty());
}

#[test]
fn merges_accumulate_alike_up_to_rounding() {
    let a = Reservoir { sample: 1u32, w_sum: 3 * ONE, m_sum: 2 * ONE, w: ONE };
    // b stands for the weight it has seen: 1 * 1 * 4.
    let b = Reservoir { sample: 2u32, w_sum: 4 * ONE, m_sum: ONE, w: ONE };
    let c = Reservoir { sample: 3u32, w_sum: 9 * ONE, m_sum: 2 * ONE, w: ONE };
    let (p_b, p_c, p_d) = (4 * ONE, 3 * ONE, 700_000);

    let mut noise = Noise::new(3, 1, 4);
    let mut left = a;
    left.merge(&mut noise, &b, p_b);
    left.merge(&mut noise, &c, p_c);

    let mut d = b;
    d.merge(&mut noise, &c, p_c);
    d.normalize(p_d, u64::MAX, u64::MAX);
    // Ten over 2.1, rounded down.
    assert_eq!((d.w_sum, d.m_sum, d.w), (10 * ONE, 3 * ONE, 4_761_904));
    let mut right = a;
    right.merge(&mut noise, &d, p_d);

    assert_eq!(left.m_sum, 5 * ONE);
    assert_eq!(right.m_sum, 5 * ONE);
    assert_eq!(left.w_sum, 13 * ONE);
    // The normalised reservoir comes back two millionths short.
    assert_eq!(right.w_sum, 12_999_998);
}
