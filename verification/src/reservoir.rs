//! Weighted reservoir sampling.
//!
//! A reservoir keeps one sample out of a weighted stream, together with the
//! sum of the weights seen, the effective number of samples seen and the
//! factor by which the kept sample is reweighted when it is shaded.

use vstd::prelude::*;

use crate::fixed::{greater, lesser, over, plus, times};
use crate::fixed::{greatest, least, product, quotient, sum, EPSILON, ONE};
use crate::noise::Noise;

pub mod laws;

verus! {

/// A reservoir over samples of type `T`. All three numbers are in millionths.
#[derive(Clone, Copy, Debug)]
pub struct Reservoir<T> {
    /// The sample kept so far.
    pub sample: T,
    /// Sum of the weights of the samples seen.
    pub w_sum: u64,
    /// Effective number of samples seen.
    pub m_sum: u64,
    /// Reweighting factor of the kept sample.
    pub w: u64,
}

/// Whether the draw `u` admits a sample of weight `weight` into a stream
/// whose weights, that one included, sum to `total`: `u <= weight / total`.
/// Nothing is admitted into a stream without weight.
pub open spec fn admits(u: int, weight: int, total: int) -> bool {
    total > 0 && u * total <= weight * (ONE as int)
}

/// The weight with which a reservoir enters a merge, given the value of the
/// target function for its sample at the receiving surface.
pub open spec fn merge_weight(w: int, m_sum: int, p_hat: int) -> int {
    product(product(w, m_sum), p_hat)
}

impl<T: Copy> Reservoir<T> {
    /// The reservoir that holds `sample` alone.
    pub open spec fn fresh(sample: T, weight: u64) -> Self {
        Reservoir {
            sample,
            w_sum: weight,
            m_sum: if weight == 0 {
                0
            } else {
                ONE
            },
            w: ONE,
        }
    }

    /// The reservoir after it has seen `sample`, which stands for `count`
    /// samples of total weight `weight`, decided by the draw `u`.
    pub open spec fn absorbed(self, u: int, sample: T, weight: u64, count: u64) -> Self {
        let total = sum(self.w_sum as int, weight as int);
        Reservoir {
            sample: if admits(u, weight as int, total) {
                sample
            } else {
                self.sample
            },
            w_sum: total as u64,
            m_sum: sum(self.m_sum as int, count as int) as u64,
            w: self.w,
        }
    }

    /// The reservoir after one more sample of the stream.
    pub open spec fn added(self, u: int, sample: T, weight: u64) -> Self {
        self.absorbed(u, sample, weight, ONE)
    }

    /// The reservoir after `rhs` has been merged into it. A reservoir that
    /// has seen nothing leaves it as it is.
    pub open spec fn merged(self, u: int, rhs: Self, p_hat: u64) -> Self {
        if rhs.m_sum == 0 {
            self
        } else {
            self.absorbed(
                u,
                rhs.sample,
                merge_weight(rhs.w as int, rhs.m_sum as int, p_hat as int) as u64,
                rhs.m_sum,
            )
        }
    }

    /// Whether the sample of `rhs` replaces the kept one when `rhs` is
    /// merged into the reservoir.
    pub open spec fn takes(self, u: int, rhs: Self, p_hat: u64) -> bool {
        rhs.m_sum != 0 && admits(
            u,
            merge_weight(rhs.w as int, rhs.m_sum as int, p_hat as int),
            sum(self.w_sum as int, merge_weight(rhs.w as int, rhs.m_sum as int, p_hat as int)),
        )
    }

    /// The reservoir with its factor recomputed and both caps applied.
    pub open spec fn normalized(self, p_hat: u64, max_w: u64, max_m_sum: u64) -> Self {
        let denominator = greatest(product(self.m_sum as int, p_hat as int), EPSILON as int);
        Reservoir {
            sample: self.sample,
            w_sum: self.w_sum,
            m_sum: least(self.m_sum as int, max_m_sum as int) as u64,
            w: least(quotient(self.w_sum as int, denominator), max_w as int) as u64,
        }
    }

    /// Whether the reservoir has seen no sample.
    pub open spec fn is_vacant(self) -> bool {
        self.m_sum == 0
    }

    /// A reservoir that has seen nothing; `sample` only fills the slot.
    pub fn empty(sample: T) -> (r: Self)
        ensures
            r == (Reservoir { sample, w_sum: 0, m_sum: 0, w: 0 }),
            r.is_vacant(),
    {
        Reservoir { sample, w_sum: 0, m_sum: 0, w: 0 }
    }

    /// Starts a reservoir from one sample.
    pub fn new(sample: T, weight: u64) -> (r: Self)
        ensures
            r == Self::fresh(sample, weight),
            r.w_sum == 0 ==> r.m_sum == 0,
    {
        Reservoir {
            sample,
            w_sum: weight,
            m_sum: if weight == 0 {
                0
            } else {
                ONE
            },
            w: ONE,
        }
    }

    /// Whether the reservoir has seen no sample.
    pub fn is_empty(&self) -> (vacant: bool)
        ensures
            vacant == self.is_vacant(),
    {
        self.m_sum == 0
    }

    fn absorb(&mut self, noise: &mut Noise, sample: T, weight: u64, count: u64) -> (accepted: bool)
        ensures
            *final(noise) == old(noise).advanced(),
            *final(self) == old(self).absorbed(old(noise).upcoming(), sample, weight, count),
            accepted == admits(
                old(noise).upcoming(),
                weight as int,
                sum(old(self).w_sum as int, weight as int),
            ),
    {
        self.w_sum = plus(self.w_sum, weight);
        self.m_sum = plus(self.m_sum, count);
        let u: u64 = noise.sample();
        assert(u as int * self.w_sum as int <= u64::MAX as int * u64::MAX as int
            && weight as int * ONE as int <= u64::MAX as int * u64::MAX as int)
            by (nonlinear_arith)
            requires
                0 <= u as int <= u64::MAX as int,
                0 <= self.w_sum as int <= u64::MAX as int,
                0 <= weight as int <= u64::MAX as int,
                0 <= ONE as int <= u64::MAX as int,
        ;
        let lhs: u128 = (u as u128) * (self.w_sum as u128);
        let rhs: u128 = (weight as u128) * (ONE as u128);
        if self.w_sum > 0 && lhs <= rhs {
            self.sample = sample;
            true
        } else {
            false
        }
    }

    /// Streams one more sample through the reservoir and tells whether it
    /// replaced the kept one.
    pub fn add(&mut self, noise: &mut Noise, s_new: T, w_new: u64) -> (accepted: bool)
        ensures
            *final(noise) == old(noise).advanced(),
            *final(self) == old(self).added(old(noise).upcoming(), s_new, w_new),
            accepted == admits(
                old(noise).upcoming(),
                w_new as int,
                sum(old(self).w_sum as int, w_new as int),
            ),
    {
        self.absorb(noise, s_new, w_new, ONE)
    }

    /// Merges `rhs` into the reservoir, `p_hat` being the target function of
    /// the sample of `rhs` at the surface of `self`, and tells whether that
    /// sample replaced the kept one. A vacant `rhs` draws no number.
    pub fn merge(&mut self, noise: &mut Noise, rhs: &Self, p_hat: u64) -> (accepted: bool)
        ensures
            rhs.is_vacant() ==> !accepted && *final(noise) == *old(noise),
            !rhs.is_vacant() ==> *final(noise) == old(noise).advanced(),
            *final(self) == old(self).merged(old(noise).upcoming(), *rhs, p_hat),
            accepted == old(self).takes(old(noise).upcoming(), *rhs, p_hat),
    {
        if rhs.m_sum == 0 {
            return false;
        }
        let weight: u64 = times(times(rhs.w, rhs.m_sum), p_hat);
        self.absorb(noise, rhs.sample, weight, rhs.m_sum)
    }

    /// Recomputes the reweighting factor, `w_sum / max(m_sum * p_hat, 0.001)`
    /// capped at `max_w`, then caps `m_sum` at `max_m_sum`.
    pub fn normalize(&mut self, p_hat: u64, max_w: u64, max_m_sum: u64)
        ensures
            *final(self) == old(self).normalized(p_hat, max_w, max_m_sum),
            final(self).w <= max_w,
            final(self).m_sum <= max_m_sum,
    {
        let denominator: u64 = greater(times(self.m_sum, p_hat), EPSILON);
        self.w = lesser(over(self.w_sum, denominator), max_w);
        self.m_sum = lesser(self.m_sum, max_m_sum);
    }
}

impl<T: Copy + Default> Default for Reservoir<T> {
    /// A reservoir that has seen nothing; the default sample only fills
    /// the slot.
    fn default() -> (r: Self)
        ensures
            call_ensures(T::default, (), r.sample),
            r.w_sum == 0,
            r.m_sum == 0,
            r.w == 0,
            r.is_vacant(),
    {
        Reservoir { sample: T::default(), w_sum: 0, m_sum: 0, w: 0 }
    }
}

} // verus!
