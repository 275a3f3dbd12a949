use strolle::fixed::{HALF, ONE};
use strolle::surface::{
    agreement_of_depths, cosine, gap_between, Direction, Surface, DEPTH_CUTOFF,
    SIMILARITY_THRESHOLD,
};

const X: Direction = Direction { x: 1_000_000, y: 0, z: 0 };

fn surface(normal: Direction, depth: u64) -> Surface {
    Surface { normal, depth }
}

#[test]
fn threshold_is_a_half() {
    assert_eq!(SIMILARITY_THRESHOLD, HALF);
}

#[test]
fn cosine_is_the_clamped_dot_product() {
    assert_eq!(cosine(X, X), ONE);
    assert_eq!(cosine(X, Direction { x: 500_000, y: 866_025, z: 0 }), 500_000);
    assert_eq!(cosine(X, Direction { x: 866_025, y: 500_000, z: 0 }), 866_025);
    assert_eq!(cosine(X, Direction { x: 0, y: 1_000_000, z: 0 }), 0);
    assert_eq!(cosine(X, Direction { x: -1_000_000, y: 0, z: 0 }), 0);
    let long = Direction { x: 2_000_000, y: 0, z: 0 };
    assert_eq!(cosine(long, long), ONE);
    let most = Direction { x: i32::MAX, y: i32::MAX, z: i32::MAX };
    assert_eq!(cosine(most, most), ONE);
    let least = Direction { x: i32::MIN, y: i32::MIN, z: i32::MIN };
    assert_eq!(cosine(least, least), ONE);
    assert_eq!(cosine(most, least), 0);
}

#[test]
fn gap_is_measured_in_tenths_of_the_depth() {
    assert_eq!(gap_between(ONE, ONE), 0);
    assert_eq!(gap_between(0, 0), 0);
    assert_eq!(gap_between(ONE, 1_250_000), 2_500_000);
    assert_eq!(gap_between(1_250_000, ONE), 2_000_000);
    assert_eq!(gap_between(ONE, 1_050_000), 500_000);
    assert_eq!(gap_between(5, 0), 10 * ONE);
    assert_eq!(gap_between(0, 5), u64::MAX);
}

#[test]
fn agreement_of_depths_decays() {
    assert_eq!(DEPTH_CUTOFF, 32 * ONE);
    assert_eq!(agreement_of_depths(0), ONE);
    assert_eq!(agreement_of_depths(500_000), 604_136);
    assert_eq!(agreement_of_depths(1_666_673), 180_566);
    assert_eq!(agreement_of_depths(2_000_000), 126_786);
    assert_eq!(agreement_of_depths(2_500_000), 74_045);
    assert_eq!(agreement_of_depths(31 * ONE), 0);
    assert_eq!(agreement_of_depths(32 * ONE), 0);
    assert_eq!(agreement_of_depths(u64::MAX), 0);
}

#[test]
fn a_surface_is_similar_to_itself() {
    let s = surface(X, ONE);
    assert_eq!(s.evaluate_similarity_to(&s), ONE);
}

#[test]
fn nearby_surfaces_pass_the_threshold() {
    let a = surface(X, ONE);
    let b = surface(X, 1_050_000);
    assert_eq!(a.evaluate_similarity_to(&b), 604_136);
    let tilted = surface(Direction { x: 866_025, y: 500_000, z: 0 }, ONE);
    assert_eq!(a.evaluate_similarity_to(&tilted), 749_999);
}

#[test]
fn normals_sixty_degrees_apart_fall_below_the_threshold() {
    let a = surface(X, ONE);
    let b = surface(Direction { x: 500_000, y: 866_025, z: 0 }, ONE);
    assert_eq!(a.evaluate_similarity_to(&b), 250_000);
    assert!(a.evaluate_similarity_to(&b) < SIMILARITY_THRESHOLD);
    assert!(b.evaluate_similarity_to(&a) < SIMILARITY_THRESHOLD);
    let opposite = surface(Direction { x: -1_000_000, y: 0, z: 0 }, ONE);
    assert_eq!(a.evaluate_similarity_to(&opposite), 0);
}

#[test]
fn depths_more_than_a_fifth_apart_fall_below_the_threshold() {
    let a = surface(X, ONE);
    let b = surface(X, 1_250_000);
    assert_eq!(a.evaluate_similarity_to(&b), 74_045);
    assert_eq!(b.evaluate_similarity_to(&a), 126_786);
    let c = surface(X, 1_200_001);
    assert_eq!(a.evaluate_similarity_to(&c), 126_786);
    assert_eq!(c.evaluate_similarity_to(&a), 180_566);
    assert!(a.evaluate_similarity_to(&c) < SIMILARITY_THRESHOLD);
    assert!(c.evaluate_similarity_to(&a) < SIMILARITY_THRESHOLD);
}

#[test]
fn a_surface_without_depth_is_gated() {
    let a = surface(X, 0);
    let b = surface(X, ONE);
    assert_eq!(a.evaluate_similarity_to(&b), 0);
    assert_eq!(b.evaluate_similarity_to(&a), 6);
}
