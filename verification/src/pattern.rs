//! Where neighbouring pixels are looked for: random points of a disk, and
//! the pattern that changes them from frame to frame.

use vstd::prelude::*;

use crate::camera::Offset;
use crate::noise::Noise;

verus! {

/// Number of attempts at drawing a point of a disk.
pub const DISK_TRIES: u32 = 8;

/// The largest radius, in pixels, of a disk that points are drawn from.
pub const MAX_RADIUS: u32 = 0x7fff;

/// The coordinate, from `-radius` to `radius`, that a drawn word gives.
pub open spec fn coordinate(word: u32, radius: u32) -> int {
    (word % ((2 * radius + 1) as u32)) - radius
}

/// Whether the point lies in the disk of the given radius round the
/// origin.
pub open spec fn within_disk(x: int, y: int, radius: int) -> bool {
    x * x + y * y <= radius * radius
}

/// One attempt at a point of the disk: two numbers are drawn for a point
/// of the square round the disk, which counts if it lies in the disk.
#[verifier::opaque]
pub open spec fn attempted(noise: Noise, radius: u32) -> Option<Offset> {
    let x = coordinate(noise.upcoming_word(), radius);
    let y = coordinate(noise.advanced().upcoming_word(), radius);
    if within_disk(x, y, radius as int) {
        Some(Offset { x: x as i64, y: y as i64 })
    } else {
        None
    }
}

/// A point of the disk of the given radius round the origin, drawn by
/// rejection, and the noise left after drawing it. After `tries` attempts
/// in vain the origin is taken.
pub open spec fn drawn_in_disk(noise: Noise, radius: u32, tries: nat) -> (Offset, Noise)
    decreases tries,
{
    if tries == 0 {
        (Offset { x: 0, y: 0 }, noise)
    } else {
        match attempted(noise, radius) {
            Some(offset) => (offset, noise.advanced().advanced()),
            None => drawn_in_disk(noise.advanced().advanced(), radius, (tries - 1) as nat),
        }
    }
}

/// The pattern that changes the low bits of a neighbour's position in the
/// given frame.
pub open spec fn scramble(frame: u32) -> Offset {
    if frame % 4 == 0 {
        Offset { x: 3, y: 3 }
    } else if frame % 4 == 1 {
        Offset { x: 2, y: 1 }
    } else if frame % 4 == 2 {
        Offset { x: 1, y: 2 }
    } else {
        Offset { x: 3, y: 3 }
    }
}

/// The position with its low bits changed by the pattern of the frame.
pub open spec fn scrambled(pos: Offset, frame: u32) -> Offset {
    Offset { x: pos.x ^ scramble(frame).x, y: pos.y ^ scramble(frame).y }
}

/// Tells whether the point lies in the disk of the given radius round the
/// origin.
fn in_disk(x: i64, y: i64, radius: i64) -> (inside: bool)
    requires
        0 <= radius <= MAX_RADIUS,
        -radius <= x <= radius,
        -radius <= y <= radius,
    ensures
        inside == within_disk(x as int, y as int, radius as int),
{
    assert(0 <= x * x <= 0x4000_0000 && 0 <= y * y <= 0x4000_0000 && 0 <= radius * radius
        <= 0x4000_0000) by (nonlinear_arith)
        requires
            0 <= radius <= 0x7fff,
            -radius <= x <= radius,
            -radius <= y <= radius,
    ;
    x * x + y * y <= radius * radius
}

/// Makes one attempt at a point of the disk.
fn attempt(noise: &mut Noise, radius: u32) -> (point: Option<Offset>)
    requires
        radius <= MAX_RADIUS,
    ensures
        point == attempted(*old(noise), radius),
        *final(noise) == old(noise).advanced().advanced(),
        point is Some ==> -radius <= point->0.x <= radius && -radius <= point->0.y <= radius,
{
    proof {
        reveal(attempted);
    }
    let side: u32 = 2 * radius + 1;
    let first: u32 = noise.sample_int();
    let second: u32 = noise.sample_int();
    let x: i64 = (first % side) as i64 - radius as i64;
    let y: i64 = (second % side) as i64 - radius as i64;
    if in_disk(x, y, radius as i64) {
        Some(Offset { x, y })
    } else {
        None
    }
}

/// Draws a point of the disk of the given radius round the origin.
pub fn disk(noise: &mut Noise, radius: u32) -> (offset: Offset)
    requires
        radius <= MAX_RADIUS,
    ensures
        offset == drawn_in_disk(*old(noise), radius, DISK_TRIES as nat).0,
        *final(noise) == drawn_in_disk(*old(noise), radius, DISK_TRIES as nat).1,
        -radius <= offset.x <= radius,
        -radius <= offset.y <= radius,
{
    let ghost goal = drawn_in_disk(*noise, radius, DISK_TRIES as nat);
    let mut tries: u32 = DISK_TRIES;
    while tries > 0
        invariant
            radius <= MAX_RADIUS,
            tries <= DISK_TRIES,
            drawn_in_disk(*noise, radius, tries as nat) == goal,
            goal == drawn_in_disk(*old(noise), radius, DISK_TRIES as nat),
        decreases tries,
    {
        let ghost before = *noise;
        let point = attempt(noise, radius);
        assert(drawn_in_disk(before, radius, tries as nat) == match attempted(before, radius) {
            Some(offset) => (offset, before.advanced().advanced()),
            None => drawn_in_disk(before.advanced().advanced(), radius, (tries - 1) as nat),
        });
        match point {
            Some(offset) => {
                return offset;
            },
            None => {},
        }
        tries -= 1;
    }
    Offset { x: 0, y: 0 }
}

/// Changes the low bits of a position by the pattern of the frame.
pub fn scramble_position(pos: Offset, frame: u32) -> (changed: Offset)
    ensures
        changed == scrambled(pos, frame),
{
    let phase: u32 = frame % 4;
    let pattern = if phase == 0 {
        Offset { x: 3, y: 3 }
    } else if phase == 1 {
        Offset { x: 2, y: 1 }
    } else if phase == 2 {
        Offset { x: 1, y: 2 }
    } else {
        Offset { x: 3, y: 3 }
    };
    Offset { x: pos.x ^ pattern.x, y: pos.y ^ pattern.y }
}

} // verus!
