//! A small deterministic white-noise generator.
//!
//! Every pixel owns a stream seeded from the frame's seed and the pixel's
//! coordinates, so that two runs with the same seeds draw the same numbers.

use vstd::prelude::*;

use crate::fixed::ONE;

verus! {

/// State of one pixel's stream.
#[derive(Clone, Copy, Debug, PartialEq, Eq, Structural)]
pub struct Noise {
    pub state: u32,
}

/// Keeps the low 32 bits of a mathematical integer.
pub open spec fn low32(x: int) -> u32 {
    (x % 0x1_0000_0000) as u32
}

/// The state a stream starts in.
pub open spec fn seeded_state(seed: u32, x: u32, y: u32) -> u32 {
    seed ^ low32(48619 * (x as int)) ^ low32(95461 * (y as int))
}

/// The state that follows `state`.
pub open spec fn next_state(state: u32) -> u32 {
    low32((state as int) * 747796405 + 2891336453)
}

/// The 32-bit word drawn on reaching `state`.
pub open spec fn output_word(state: u32) -> u32 {
    let shift = ((state >> 28u32) + 4) as u32;
    let word = low32((((state >> shift) ^ state) as int) * 277803737);
    (word >> 22u32) ^ word
}

/// Maps a 32-bit word onto the unit interval, both ends included.
pub open spec fn unit_of_word(word: u32) -> int {
    ((word as int) * (ONE as int)) / (u32::MAX as int)
}

impl Noise {
    /// The stream after one draw.
    pub open spec fn advanced(self) -> Noise {
        Noise { state: next_state(self.state) }
    }

    /// The word the next draw yields.
    pub open spec fn upcoming_word(self) -> u32 {
        output_word(next_state(self.state))
    }

    /// The number in the unit interval the next draw yields.
    pub open spec fn upcoming(self) -> int {
        unit_of_word(self.upcoming_word())
    }

    /// Starts the stream of pixel `(x, y)` for the given seed.
    pub fn new(seed: u32, x: u32, y: u32) -> (noise: Noise)
        ensures
            noise.state == seeded_state(seed, x, y),
    {
        let a: u32 = ((48619u64 * (x as u64)) % 0x1_0000_0000u64) as u32;
        let b: u32 = ((95461u64 * (y as u64)) % 0x1_0000_0000u64) as u32;
        Noise { state: seed ^ a ^ b }
    }

    /// Draws a 32-bit word.
    pub fn sample_int(&mut self) -> (word: u32)
        ensures
            *final(self) == old(self).advanced(),
            word == old(self).upcoming_word(),
    {
        let next: u64 = ((self.state as u64) * 747796405u64 + 2891336453u64) % 0x1_0000_0000u64;
        let state: u32 = next as u32;
        self.state = state;
        let top: u32 = state >> 28u32;
        assert(top <= 15) by (bit_vector)
            requires
                top == state >> 28u32,
        ;
        let shift: u32 = top + 4;
        let mixed: u32 = (state >> shift) ^ state;
        let word: u32 = (((mixed as u64) * 277803737u64) % 0x1_0000_0000u64) as u32;
        (word >> 22u32) ^ word
    }

    /// Draws a number in the unit interval, both ends included.
    pub fn sample(&mut self) -> (u: u64)
        ensures
            *final(self) == old(self).advanced(),
            u as int == old(self).upcoming(),
            u <= ONE,
    {
        let word: u32 = self.sample_int();
        (word as u64) * ONE / (u32::MAX as u64)
    }
}

} // verus!
