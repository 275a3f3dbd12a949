//! What the resampling passes know of the surface seen through a pixel,
//! and how alike two such surfaces are.

use vstd::prelude::*;

use crate::fixed::{product, saturate, times, HALF, ONE};

verus! {

/// A neighbour is reused only if its surface is at least this similar.
pub const SIMILARITY_THRESHOLD: u64 = HALF;

/// Relative difference in depth at which the agreement of two depths has
/// fallen to nothing.
pub const DEPTH_CUTOFF: u64 = 32_000_000;

/// A direction; every component is in millionths.
#[derive(Clone, Copy, Debug, PartialEq, Eq, Structural)]
pub struct Direction {
    pub x: i32,
    pub y: i32,
    pub z: i32,
}

/// The surface seen through a pixel.
#[derive(Clone, Copy, Debug, PartialEq, Eq, Structural)]
pub struct Surface {
    /// Unit normal of the surface.
    pub normal: Direction,
    /// Distance from the camera to the surface, in millionths.
    pub depth: u64,
}

/// The cosine of the angle between two unit directions, taken as zero
/// where they face apart and as one at most.
pub open spec fn cosine_between(a: Direction, b: Direction) -> int {
    let raw = a.x * b.x + a.y * b.y + a.z * b.z;
    if raw <= 0 {
        0
    } else if raw / (ONE as int) > ONE as int {
        ONE as int
    } else {
        raw / (ONE as int)
    }
}

/// How well two normals agree: the square of the cosine between them.
pub open spec fn normal_agreement(cosine: int) -> int {
    product(cosine, cosine)
}

/// The difference between two depths, as a multiple of a tenth of the
/// first one.
pub open spec fn depth_gap(depth: int, other: int) -> int {
    if depth == other {
        0
    } else if depth == 0 {
        u64::MAX as int
    } else if depth > other {
        saturate(((depth - other) * 10 * (ONE as int)) / depth)
    } else {
        saturate(((other - depth) * 10 * (ONE as int)) / depth)
    }
}

/// The square of a fraction.
pub open spec fn squared(v: int) -> int {
    product(v, v)
}

/// How well two depths that are `gap` apart agree: `(1 - gap / 32)` raised
/// to the power 32, which follows the exponential of `-gap` from one at no
/// gap down to nothing at `DEPTH_CUTOFF`.
pub open spec fn depth_agreement(gap: int) -> int {
    if gap >= DEPTH_CUTOFF as int {
        0
    } else {
        squared(squared(squared(squared(squared((ONE as int) - gap / 32)))))
    }
}

/// How alike two surfaces are, from zero to one: the agreement of their
/// normals times the agreement of their depths.
pub open spec fn similarity_of(a: Surface, b: Surface) -> int {
    product(
        normal_agreement(cosine_between(a.normal, b.normal)),
        depth_agreement(depth_gap(a.depth as int, b.depth as int)),
    )
}

/// The cosine of the angle between two unit directions, taken as zero
/// where they face apart and as one at most.
pub fn cosine(a: Direction, b: Direction) -> (c: u64)
    ensures
        c as int == cosine_between(a, b),
        c <= ONE,
{
    assert(-0x4000_0000_0000_0000 <= a.x * b.x <= 0x4000_0000_0000_0000) by (nonlinear_arith)
        requires
            -0x8000_0000 <= a.x <= 0x7fff_ffff,
            -0x8000_0000 <= b.x <= 0x7fff_ffff,
    ;
    assert(-0x4000_0000_0000_0000 <= a.y * b.y <= 0x4000_0000_0000_0000) by (nonlinear_arith)
        requires
            -0x8000_0000 <= a.y <= 0x7fff_ffff,
            -0x8000_0000 <= b.y <= 0x7fff_ffff,
    ;
    assert(-0x4000_0000_0000_0000 <= a.z * b.z <= 0x4000_0000_0000_0000) by (nonlinear_arith)
        requires
            -0x8000_0000 <= a.z <= 0x7fff_ffff,
            -0x8000_0000 <= b.z <= 0x7fff_ffff,
    ;
    let raw: i128 = (a.x as i128) * (b.x as i128) + (a.y as i128) * (b.y as i128) + (a.z as i128)
        * (b.z as i128);
    if raw <= 0 {
        0
    } else {
        let whole: i128 = raw / 1_000_000i128;
        if whole > 1_000_000i128 {
            ONE
        } else {
            whole as u64
        }
    }
}

/// The difference between two depths, as a multiple of a tenth of the
/// first one.
pub fn gap_between(depth: u64, other: u64) -> (gap: u64)
    ensures
        gap as int == depth_gap(depth as int, other as int),
{
    if depth == other {
        0
    } else if depth == 0 {
        u64::MAX
    } else {
        let apart: u64 = if depth > other {
            depth - other
        } else {
            other - depth
        };
        let scaled: u128 = (apart as u128) * 10_000_000u128;
        let gap: u128 = scaled / (depth as u128);
        if gap > u64::MAX as u128 {
            u64::MAX
        } else {
            gap as u64
        }
    }
}

/// How well two depths that are `gap` apart agree.
pub fn agreement_of_depths(gap: u64) -> (agreement: u64)
    ensures
        agreement as int == depth_agreement(gap as int),
{
    if gap >= DEPTH_CUTOFF {
        0
    } else {
        let base: u64 = ONE - gap / 32;
        let second = times(base, base);
        let fourth = times(second, second);
        let eighth = times(fourth, fourth);
        let sixteenth = times(eighth, eighth);
        times(sixteenth, sixteenth)
    }
}

impl Surface {
    /// How alike this surface and `other` are, from zero to one.
    pub fn evaluate_similarity_to(&self, other: &Surface) -> (similarity: u64)
        ensures
            similarity as int == similarity_of(*self, *other),
    {
        let c = cosine(self.normal, other.normal);
        let normals = times(c, c);
        let depths = agreement_of_depths(gap_between(self.depth, other.depth));
        times(normals, depths)
    }
}

/// Squaring keeps the order of fractions and keeps them fractions.
proof fn squared_is_monotone(a: int, b: int)
    requires
        0 <= a <= b <= ONE as int,
    ensures
        0 <= squared(a) <= squared(b) <= b,
{
    crate::fixed::product_of_fractions(a, a);
    crate::fixed::product_of_fractions(b, b);
    assert(a * a <= b * b) by (nonlinear_arith)
        requires
            0 <= a <= b,
    ;
    assert((a * a) / (ONE as int) <= (b * b) / (ONE as int)) by (nonlinear_arith)
        requires
            a * a <= b * b,
    ;
}

/// The agreement of two depths is a fraction, and falls as the gap grows.
proof fn depth_agreement_falls(smaller: int, larger: int)
    requires
        0 <= smaller <= larger,
    ensures
        0 <= depth_agreement(larger) <= depth_agreement(smaller) <= ONE as int,
{
    if larger >= DEPTH_CUTOFF as int {
        if smaller < DEPTH_CUTOFF as int {
            let near = (ONE as int) - smaller / 32;
            squared_is_monotone(near, near);
            squared_is_monotone(squared(near), squared(near));
            squared_is_monotone(squared(squared(near)), squared(squared(near)));
            squared_is_monotone(squared(squared(squared(near))), squared(squared(squared(near))));
            squared_is_monotone(
                squared(squared(squared(squared(near)))),
                squared(squared(squared(squared(near)))),
            );
        }
    } else {
        let far = (ONE as int) - larger / 32;
        let near = (ONE as int) - smaller / 32;
        squared_is_monotone(far, near);
        squared_is_monotone(squared(far), squared(near));
        squared_is_monotone(squared(squared(far)), squared(squared(near)));
        squared_is_monotone(squared(squared(squared(far))), squared(squared(squared(near))));
        squared_is_monotone(
            squared(squared(squared(squared(far)))),
            squared(squared(squared(squared(near)))),
        );
    }
}

/// Two surfaces whose normals are sixty degrees or more apart, so that the
/// cosine between them is a half at most, are less similar than the
/// threshold asks, whatever their depths.
pub proof fn normals_apart_fall_below_threshold(a: Surface, b: Surface)
    requires
        cosine_between(a.normal, b.normal) <= HALF as int,
    ensures
        similarity_of(a, b) < SIMILARITY_THRESHOLD as int,
{
    let c = cosine_between(a.normal, b.normal);
    let gap = depth_gap(a.depth as int, b.depth as int);
    squared_is_monotone(c, HALF as int);
    assert(squared(HALF as int) == 250_000) by (nonlinear_arith);
    depth_agreement_falls(0, gap);
    crate::fixed::product_of_fractions(normal_agreement(c), depth_agreement(gap));
}

/// Two surfaces of which one is more than 1.2 times as deep as the other
/// are less similar than the threshold asks, whatever their normals.
pub proof fn depths_apart_fall_below_threshold(a: Surface, b: Surface)
    requires
        5 * a.depth > 6 * b.depth || 5 * b.depth > 6 * a.depth,
    ensures
        similarity_of(a, b) < SIMILARITY_THRESHOLD as int,
{
    let c = cosine_between(a.normal, b.normal);
    let gap = depth_gap(a.depth as int, b.depth as int);
    let depth = a.depth as int;
    let other = b.depth as int;
    assert(gap >= 1_666_666) by {
        if depth != 0 {
            let apart = if depth > other {
                depth - other
            } else {
                other - depth
            };
            assert(6 * apart > depth);
            assert((apart * 10 * (ONE as int)) / depth >= 1_666_666) by (nonlinear_arith)
                requires
                    6 * apart > depth,
                    depth > 0,
            ;
        }
    }
    depth_agreement_falls(1_666_666, gap);
    assert(depth_agreement(1_666_666) < HALF as int) by {
        let start = (ONE as int) - 1_666_666int / 32;
        assert(start == 947_917);
        assert(squared(start) == 898_546) by (nonlinear_arith)
            requires
                start == 947_917,
        ;
        assert(squared(898_546) == 807_384) by (nonlinear_arith);
        assert(squared(807_384) == 651_868) by (nonlinear_arith);
        assert(squared(651_868) == 424_931) by (nonlinear_arith);
        assert(squared(424_931) == 180_566) by (nonlinear_arith);
    }
    squared_is_monotone(c, c);
    crate::fixed::product_of_fractions(normal_agreement(c), depth_agreement(gap));
}

} // verus!
