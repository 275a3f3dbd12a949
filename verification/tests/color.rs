use strolle::color::{Rgb, LUMA_BLUE, LUMA_GREEN, LUMA_RED};
use strolle::fixed::ONE;

#[test]
fn luminance_shares_add_up_to_one() {
    assert_eq!(LUMA_RED, 212_600);
    assert_eq!(LUMA_GREEN, 715_200);
    assert_eq!(LUMA_BLUE, 72_200);
    assert_eq!(LUMA_RED + LUMA_GREEN + LUMA_BLUE, ONE);
}

#[test]
fn luminance_is_the_weighted_sum() {
    assert_eq!(Rgb { r: ONE, g: 0, b: 0 }.luminance(), 212_600);
    assert_eq!(Rgb { r: 0, g: ONE, b: 0 }.luminance(), 715_200);
    assert_eq!(Rgb { r: 0, g: 0, b: ONE }.luminance(), 72_200);
    assert_eq!(Rgb { r: 123_456, g: 654_321, b: 111_111 }.luminance(), 502_239);
    assert_eq!(Rgb { r: 2 * ONE, g: 0, b: 0 }.luminance(), 425_200);
}

#[test]
fn luminance_of_grey_is_its_level() {
    for v in [0u64, 1, 17, ONE, 5 * ONE, u64::MAX] {
        assert_eq!(Rgb { r: v, g: v, b: v }.luminance(), v);
    }
}

#[test]
fn luminance_rounds_down() {
    assert_eq!(Rgb { r: 0, g: 0, b: 1 }.luminance(), 0);
    assert_eq!(Rgb { r: 0, g: 0, b: 14 }.luminance(), 1);
}

#[test]
fn scale_multiplies_every_channel() {
    let c = Rgb { r: 100_000, g: 200_000, b: 300_000 };
    assert_eq!(c.scale(9 * ONE), Rgb { r: 900_000, g: 1_800_000, b: 2_700_000 });
    assert_eq!(c.scale(4_500_000), Rgb { r: 450_000, g: 900_000, b: 1_350_000 });
    assert_eq!(c.scale(0), Rgb::black());
    assert_eq!(c.scale(ONE), c);
}

#[test]
fn max_raises_every_channel() {
    let c = Rgb { r: 0, g: 50, b: 300 };
    assert_eq!(c.max(100), Rgb { r: 100, g: 100, b: 300 });
    assert_eq!(c.max(0), c);
    assert_eq!(Rgb::black(), Rgb { r: 0, g: 0, b: 0 });
}
