//! A false-colour view of how much memory the traversal of the hierarchy
//! used for each pixel.

use vstd::prelude::*;

use crate::color::Rgb;
use crate::fixed::{saturate, ONE};

verus! {

/// Amount of traversal memory that is shown in the last colour.
pub const FULL_SCALE: u32 = 8192;

/// The colour that lies `share` of the way from `from` to `to`.
pub open spec fn blend(from: Rgb, to: Rgb, share: int) -> Rgb {
    Rgb {
        r: saturate((from.r * ((ONE as int) - share) + to.r * share) / (ONE as int)) as u64,
        g: saturate((from.g * ((ONE as int) - share) + to.g * share) / (ONE as int)) as u64,
        b: saturate((from.b * ((ONE as int) - share) + to.b * share) / (ONE as int)) as u64,
    }
}

/// The colour of a gradient at `progress`. The colours stand at equal
/// distances from `progress` zero to `progress` one, and between two of
/// them the colour changes evenly. Before the first colour the gradient
/// has the first colour, after the last one the last.
pub open spec fn gradient_of(colors: Seq<Rgb>, progress: int) -> Rgb {
    let steps = colors.len() - 1;
    let scaled = progress * steps;
    if progress <= 0 || steps == 0 {
        colors[0]
    } else if scaled > steps * (ONE as int) {
        colors[steps]
    } else {
        let i = (scaled - 1) / (ONE as int);
        blend(colors[i], colors[i + 1], scaled - i * (ONE as int))
    }
}

/// The share of `FULL_SCALE` that `used_memory` is.
pub open spec fn share_used(used_memory: u32) -> int {
    (used_memory * (ONE as int)) / (FULL_SCALE as int)
}

/// The colours of the heat map, from little memory to much: blue, green,
/// red, black.
pub open spec fn heat_colors() -> Seq<Rgb> {
    seq![
        Rgb { r: 0, g: 0, b: ONE },
        Rgb { r: 0, g: ONE, b: 0 },
        Rgb { r: ONE, g: 0, b: 0 },
        Rgb { r: 0, g: 0, b: 0 },
    ]
}

/// Mixes one channel.
fn mix(from: u64, to: u64, share: u64) -> (mixed: u64)
    requires
        share <= ONE,
    ensures
        mixed as int == saturate(
            (from * ((ONE as int) - share) + to * share) / (ONE as int),
        ),
{
    let keep: u64 = ONE - share;
    assert(from as int * keep as int <= u64::MAX as int * 1_000_000 && to as int * share as int
        <= u64::MAX as int * 1_000_000) by (nonlinear_arith)
        requires
            0 <= from as int <= u64::MAX as int,
            0 <= to as int <= u64::MAX as int,
            0 <= keep as int <= 1_000_000,
            0 <= share as int <= 1_000_000,
    ;
    let wide: u128 = (from as u128) * (keep as u128) + (to as u128) * (share as u128);
    let mixed: u128 = wide / 1_000_000u128;
    if mixed > u64::MAX as u128 {
        u64::MAX
    } else {
        mixed as u64
    }
}

/// The colour of a gradient at `progress`.
pub fn gradient<const N: usize>(colors: [Rgb; N], progress: u64) -> (color: Rgb)
    requires
        N >= 1,
    ensures
        color == gradient_of(colors@, progress as int),
{
    if progress == 0 || N == 1 {
        return colors[0];
    }
    assert(0 < progress as int * (N - 1) <= u64::MAX as int * usize::MAX as int)
        by (nonlinear_arith)
        requires
            0 < progress as int <= u64::MAX as int,
            0 < (N - 1) <= usize::MAX as int,
    ;
    let scaled: u128 = (progress as u128) * ((N - 1) as u128);
    let mut i: usize = 0;
    while i < N - 1
        invariant
            N >= 1,
            i <= N - 1,
            scaled == progress * (N - 1),
            progress > 0,
            (i as int) * (ONE as int) < scaled,
        decreases N - 1 - i,
    {
        let max: u128 = ((i as u128) + 1) * 1_000_000u128;
        if scaled <= max {
            let share: u64 = (scaled - (i as u128) * 1_000_000u128) as u64;
            let from = colors[i];
            let to = colors[i + 1];
            assert(i as int == (scaled as int - 1) / (ONE as int)) by (nonlinear_arith)
                requires
                    (i as int) * (ONE as int) < scaled as int,
                    scaled as int <= (i as int + 1) * (ONE as int),
                    ONE as int == 1_000_000,
            ;
            return Rgb {
                r: mix(from.r, to.r, share),
                g: mix(from.g, to.g, share),
                b: mix(from.b, to.b, share),
            };
        }
        i += 1;
    }
    colors[N - 1]
}

/// The colour in which a pixel is shown whose ray took `used_memory` of
/// traversal memory.
pub fn heat(used_memory: u32) -> (color: Rgb)
    ensures
        color == gradient_of(heat_colors(), share_used(used_memory)),
{
    let colors = [
        Rgb { r: 0, g: 0, b: ONE },
        Rgb { r: 0, g: ONE, b: 0 },
        Rgb { r: ONE, g: 0, b: 0 },
        Rgb { r: 0, g: 0, b: 0 },
    ];
    assert(colors@ =~= heat_colors());
    gradient(colors, (used_memory as u64) * ONE / (FULL_SCALE as u64))
}

} // verus!
