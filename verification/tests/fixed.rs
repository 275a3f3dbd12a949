use strolle::fixed::{greater, lesser, over, plus, sqrt, times, EPSILON, HALF, ONE, QUARTER};

#[test]
fn constants_are_millionths() {
    assert_eq!(ONE, 1_000_000);
    assert_eq!(EPSILON, 1_000);
    assert_eq!(QUARTER, 250_000);
    assert_eq!(HALF, 500_000);
}

#[test]
fn plus_adds() {
    assert_eq!(plus(1_500_000, 2_250_000), 3_750_000);
    assert_eq!(plus(0, 0), 0);
}

#[test]
fn plus_saturates() {
    assert_eq!(plus(u64::MAX, 1), u64::MAX);
    assert_eq!(plus(u64::MAX - 5, 5), u64::MAX);
    assert_eq!(plus(u64::MAX - 5, 4), u64::MAX - 1);
}

#[test]
fn times_multiplies_and_rounds_down() {
    assert_eq!(times(1_500_000, 2_500_000), 3_750_000);
    assert_eq!(times(3, 333_333), 0);
    assert_eq!(times(ONE, 123), 123);
    assert_eq!(times(0, u64::MAX), 0);
}

#[test]
fn times_saturates() {
    assert_eq!(times(u64::MAX, 2 * ONE), u64::MAX);
    assert_eq!(times(u64::MAX, ONE), u64::MAX);
    assert_eq!(times(u64::MAX, HALF), u64::MAX / 2);
}

#[test]
fn over_divides_and_rounds_down() {
    assert_eq!(over(7 * ONE, 2 * ONE), 3_500_000);
    assert_eq!(over(1, 3), 333_333);
    assert_eq!(over(0, 5), 0);
}

#[test]
fn over_saturates() {
    assert_eq!(over(u64::MAX, 1), u64::MAX);
}

#[test]
fn lesser_and_greater_pick_by_size() {
    assert_eq!(lesser(3, 9), 3);
    assert_eq!(lesser(9, 3), 3);
    assert_eq!(greater(3, 9), 9);
    assert_eq!(greater(9, 3), 9);
    assert_eq!(greater(4, 4), 4);
}

#[test]
fn sqrt_takes_roots() {
    assert_eq!(sqrt(0), 0);
    assert_eq!(sqrt(1), 1_000);
    assert_eq!(sqrt(ONE), ONE);
    assert_eq!(sqrt(2 * ONE), 1_414_213);
    assert_eq!(sqrt(16 * ONE), 4 * ONE);
    assert_eq!(sqrt(u64::MAX), 4_294_967_295_999);
}
