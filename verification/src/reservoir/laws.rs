//! What holds of reservoirs whatever stream they see.

use vstd::prelude::*;

use crate::fixed::{product, saturate, sum, EPSILON, ONE};
use crate::reservoir::{admits, merge_weight, Reservoir};

verus! {

/// One sample offered to a reservoir, with the number drawn to decide on it.
pub struct Offer<T> {
    pub draw: int,
    pub sample: T,
    pub weight: u64,
}

/// The weights of some offers.
pub open spec fn weights_of<T>(offers: Seq<Offer<T>>) -> Seq<int> {
    Seq::new(offers.len(), |i: int| offers[i].weight as int)
}

/// The sum of some weights.
pub open spec fn total(weights: Seq<int>) -> int
    decreases weights.len(),
{
    if weights.len() == 0 {
        0
    } else {
        total(weights.drop_last()) + weights.last()
    }
}

/// Numerator of the chance that the weights after number `i` are all turned
/// down. A weight is turned down with the chance `1 - weight / sum up to
/// it`, which is `sum before it / sum up to it`; the numerator is the
/// product of the sums before each of the later weights.
pub open spec fn survival_numerator(weights: Seq<int>, i: int) -> int
    decreases weights.len(),
{
    if weights.len() == 0 || i >= weights.len() - 1 {
        1
    } else {
        survival_numerator(weights.drop_last(), i) * total(weights.drop_last())
    }
}

/// Denominator of that chance: the product of the sums up to each of the
/// later weights.
pub open spec fn survival_denominator(weights: Seq<int>, i: int) -> int
    decreases weights.len(),
{
    if weights.len() == 0 || i >= weights.len() - 1 {
        1
    } else {
        survival_denominator(weights.drop_last(), i) * total(weights)
    }
}

impl<T: Copy> Reservoir<T> {
    /// The reservoir after the offers have been added in order.
    pub open spec fn streamed(self, offers: Seq<Offer<T>>) -> Self
        decreases offers.len(),
    {
        if offers.len() == 0 {
            self
        } else {
            self.streamed(offers.drop_last()).added(
                offers.last().draw,
                offers.last().sample,
                offers.last().weight,
            )
        }
    }

    /// The offer that was admitted last, if any was admitted.
    pub open spec fn last_admitted(self, offers: Seq<Offer<T>>) -> Option<int>
        decreases offers.len(),
    {
        if offers.len() == 0 {
            None
        } else if admits(
            offers.last().draw,
            offers.last().weight as int,
            sum(self.streamed(offers.drop_last()).w_sum as int, offers.last().weight as int),
        ) {
            Some(offers.len() - 1)
        } else {
            self.last_admitted(offers.drop_last())
        }
    }
}

/// A normalised reservoir is within both caps, whatever it held and
/// whatever the target function and the caps are. Its sample and its sum
/// of weights are left alone.
pub proof fn normalize_respects_caps<T: Copy>(
    reservoir: Reservoir<T>,
    p_hat: u64,
    max_w: u64,
    max_m_sum: u64,
)
    ensures
        reservoir.normalized(p_hat, max_w, max_m_sum).w <= max_w,
        reservoir.normalized(p_hat, max_w, max_m_sum).m_sum <= max_m_sum,
        reservoir.normalized(p_hat, max_w, max_m_sum).sample == reservoir.sample,
        reservoir.normalized(p_hat, max_w, max_m_sum).w_sum == reservoir.w_sum,
{
}

/// A reservoir started from a sample without weight, to which samples
/// without weight are offered, keeps its sample and stays without weight.
/// Its count is the number of samples offered: zero where none was.
pub proof fn weightless_stream_changes_nothing<T: Copy>(sample: T, offers: Seq<Offer<T>>)
    requires
        forall|i: int| 0 <= i < offers.len() ==> (#[trigger] offers[i]).weight == 0,
    ensures
        Reservoir::fresh(sample, 0).streamed(offers).sample == sample,
        Reservoir::fresh(sample, 0).streamed(offers).w_sum == 0,
        Reservoir::fresh(sample, 0).streamed(offers).w == ONE,
        Reservoir::fresh(sample, 0).streamed(offers).m_sum == saturate(offers.len() * ONE),
    decreases offers.len(),
{
    if offers.len() > 0 {
        let before = offers.drop_last();
        assert forall|i: int| 0 <= i < before.len() implies (#[trigger] before[i]).weight == 0 by {
            assert(before[i] == offers[i]);
        }
        weightless_stream_changes_nothing(sample, before);
        assert(offers.last() == offers[offers.len() - 1]);
        assert((before.len() + 1) * ONE == before.len() * ONE + ONE) by (nonlinear_arith);
    }
}

/// A stream adds up: after it the reservoir's sum of weights is what it was
/// plus the weights offered, and its count is what it was plus their
/// number.
pub proof fn stream_sums_weights<T: Copy>(reservoir: Reservoir<T>, offers: Seq<Offer<T>>)
    ensures
        reservoir.streamed(offers).w_sum == saturate(
            reservoir.w_sum + total(weights_of(offers)),
        ),
        reservoir.streamed(offers).m_sum == saturate(reservoir.m_sum + offers.len() * ONE),
        reservoir.streamed(offers).w == reservoir.w,
        total(weights_of(offers)) >= 0,
    decreases offers.len(),
{
    if offers.len() > 0 {
        let before = offers.drop_last();
        stream_sums_weights(reservoir, before);
        assert(weights_of(offers).drop_last() =~= weights_of(before));
        assert((before.len() + 1) * ONE == before.len() * ONE + ONE) by (nonlinear_arith);
    }
}

/// The sample a reservoir keeps after a stream is the one that was
/// admitted last; where none was admitted, it is the one it held before.
pub proof fn stream_keeps_last_admitted<T: Copy>(reservoir: Reservoir<T>, offers: Seq<Offer<T>>)
    ensures
        reservoir.streamed(offers).sample == match reservoir.last_admitted(offers) {
            Some(i) => offers[i].sample,
            None => reservoir.sample,
        },
        reservoir.last_admitted(offers) matches Some(i) ==> 0 <= i < offers.len(),
    decreases offers.len(),
{
    if offers.len() > 0 {
        stream_keeps_last_admitted(reservoir, offers.drop_last());
        if reservoir.last_admitted(offers) != Some(offers.len() - 1) {
            let i = reservoir.last_admitted(offers.drop_last());
            if i is Some {
                assert(offers.drop_last()[i->0] == offers[i->0]);
            }
        }
    }
}

/// The draws that admit a sample are those up to its share of the weights:
/// with draws spread evenly over the unit interval, a sample of weight
/// `weight` enters a stream of total weight `total` with the chance
/// `weight / total`.
pub proof fn admitted_up_to_share(u: int, weight: int, total: int)
    requires
        0 <= u,
        0 <= weight,
        0 < total,
    ensures
        admits(u, weight, total) <==> u <= (weight * (ONE as int)) / total,
{
    let scaled = weight * (ONE as int);
    let share = scaled / total;
    assert(share * total <= scaled < (share + 1) * total) by (nonlinear_arith)
        requires
            share == scaled / total,
            0 < total,
    ;
    if u <= share {
        assert(u * total <= share * total) by (nonlinear_arith)
            requires
                0 <= u <= share,
                0 < total,
        ;
    } else {
        assert(u * total >= (share + 1) * total) by (nonlinear_arith)
            requires
                u >= share + 1,
                0 < total,
        ;
    }
}

/// A stream keeps its samples in proportion to their weights. Sample `i`
/// is the one kept if it is admitted, with the chance `weights[i] / sum up
/// to i`, and every later one is turned down, with the chance
/// `survival_numerator / survival_denominator`. That second chance is `sum
/// up to i / sum of all`, so that the two multiply to `weights[i] / sum of
/// all`.
pub proof fn stream_keeps_in_proportion(weights: Seq<int>, i: int)
    requires
        0 <= i < weights.len(),
    ensures
        survival_numerator(weights, i) * total(weights) == survival_denominator(weights, i)
            * total(weights.take(i + 1)),
    decreases weights.len(),
{
    if i >= weights.len() - 1 {
        assert(weights.take(i + 1) == weights);
    } else {
        let before = weights.drop_last();
        stream_keeps_in_proportion(before, i);
        assert(before.take(i + 1) == weights.take(i + 1));
        let sn = survival_numerator(before, i);
        let sd = survival_denominator(before, i);
        let tb = total(before);
        let tw = total(weights);
        let ti = total(weights.take(i + 1));
        assert(sn * tb == sd * ti);
        assert((sn * tb) * tw == (sd * tw) * ti) by (nonlinear_arith)
            requires
                sn * tb == sd * ti,
        ;
    }
}

/// Merging is associative in what it accumulates. Let `b` stand for as
/// much weight as it has seen, let `c` be merged into `b` and the result be
/// normalised to `d`, which again stands for as much weight as it has seen
/// and has kept its count. Then merging `b` and after it `c` into `a`
/// gives the same sum of weights and the same count as merging `d` into
/// `a`, whatever numbers are drawn.
pub proof fn merge_accumulates_associatively<T: Copy>(
    a: Reservoir<T>,
    b: Reservoir<T>,
    c: Reservoir<T>,
    d: Reservoir<T>,
    p_hat_b: u64,
    p_hat_c: u64,
    p_hat_d: u64,
    draw_bc: int,
    draw_ab: int,
    draw_ac: int,
    draw_ad: int,
)
    requires
        b.m_sum > 0,
        c.m_sum > 0,
        a.w_sum + b.w_sum + merge_weight(c.w as int, c.m_sum as int, p_hat_c as int) <= u64::MAX,
        a.m_sum + b.m_sum + c.m_sum <= u64::MAX,
        merge_weight(b.w as int, b.m_sum as int, p_hat_b as int) == b.w_sum,
        d.w_sum == b.merged(draw_bc, c, p_hat_c).w_sum,
        d.m_sum == b.merged(draw_bc, c, p_hat_c).m_sum,
        merge_weight(d.w as int, d.m_sum as int, p_hat_d as int) == d.w_sum,
    ensures
        a.merged(draw_ab, b, p_hat_b).merged(draw_ac, c, p_hat_c).w_sum == a.merged(
            draw_ad,
            d,
            p_hat_d,
        ).w_sum,
        a.merged(draw_ab, b, p_hat_b).merged(draw_ac, c, p_hat_c).m_sum == a.merged(
            draw_ad,
            d,
            p_hat_d,
        ).m_sum,
{
}

/// Numerator of the chance that weight `i` of a stream is the one whose
/// sample is kept: it is admitted and all later ones are turned down.
pub open spec fn kept_numerator(weights: Seq<int>, i: int) -> int {
    weights[i] * survival_numerator(weights, i)
}

/// Denominator of that chance.
pub open spec fn kept_denominator(weights: Seq<int>, i: int) -> int {
    total(weights.take(i + 1)) * survival_denominator(weights, i)
}

/// The chance with which a sample is kept does not depend on how the
/// merges are grouped. Let the samples of three reservoirs enter with the
/// weights `a`, `b` and `c`. Merged one after the other they form the
/// stream `a, b, c`. Merged as `b, c` first, and the result, which stands
/// for the weight `b + c`, into the first, they form the streams `b, c`
/// and `a, b + c`, and a sample of the inner stream is kept if it is kept
/// there and the inner stream's sample is kept in the outer one. Either
/// way the chances of the three samples are the same, namely their shares
/// `a`, `b` and `c` of `a + b + c`.
pub proof fn grouping_keeps_the_chances(a: int, b: int, c: int)
    ensures
        ({
            let flat = seq![a, b, c];
            let inner = seq![b, c];
            let outer = seq![a, b + c];
            &&& kept_numerator(outer, 0) * kept_denominator(flat, 0) == kept_numerator(flat, 0)
                * kept_denominator(outer, 0)
            &&& (kept_numerator(inner, 0) * kept_numerator(outer, 1)) * kept_denominator(flat, 1)
                == kept_numerator(flat, 1) * (kept_denominator(inner, 0) * kept_denominator(
                outer,
                1,
            ))
            &&& (kept_numerator(inner, 1) * kept_numerator(outer, 1)) * kept_denominator(flat, 2)
                == kept_numerator(flat, 2) * (kept_denominator(inner, 1) * kept_denominator(
                outer,
                1,
            ))
            &&& kept_numerator(flat, 0) * (a + b + c) == a * kept_denominator(flat, 0)
            &&& kept_numerator(flat, 1) * (a + b + c) == b * kept_denominator(flat, 1)
            &&& kept_numerator(flat, 2) * (a + b + c) == c * kept_denominator(flat, 2)
        }),
{
    let flat = seq![a, b, c];
    let inner = seq![b, c];
    let outer = seq![a, b + c];
    let first = seq![a];
    let pair = seq![a, b];
    let only = seq![b];
    reveal_with_fuel(total, 4);
    reveal_with_fuel(survival_numerator, 4);
    reveal_with_fuel(survival_denominator, 4);
    assert(flat.drop_last() =~= pair);
    assert(pair.drop_last() =~= first);
    assert(inner.drop_last() =~= only);
    assert(outer.drop_last() =~= first);
    assert(first.drop_last() =~= Seq::<int>::empty());
    assert(only.drop_last() =~= Seq::<int>::empty());
    assert(total(first) == a);
    assert(total(only) == b);
    assert(total(pair) == a + b);
    assert(total(flat) == a + b + c);
    assert(total(inner) == b + c);
    assert(total(outer) == a + b + c);
    assert(flat.take(1) =~= first);
    assert(flat.take(2) =~= pair);
    assert(flat.take(3) =~= flat);
    assert(inner.take(1) =~= only);
    assert(inner.take(2) =~= inner);
    assert(outer.take(1) =~= first);
    assert(outer.take(2) =~= outer);
    let t = a + b + c;
    assert(survival_numerator(first, 0) == 1 && survival_denominator(first, 0) == 1);
    assert(survival_numerator(only, 0) == 1 && survival_denominator(only, 0) == 1);
    assert(survival_numerator(pair, 0) == a && survival_denominator(pair, 0) == a + b);
    assert(survival_numerator(pair, 1) == 1 && survival_denominator(pair, 1) == 1);
    assert(survival_numerator(flat, 2) == 1 && survival_denominator(flat, 2) == 1);
    assert(survival_numerator(flat, 1) == a + b && survival_denominator(flat, 1) == t);
    assert(survival_numerator(flat, 0) == a * (a + b));
    assert(survival_denominator(flat, 0) == (a + b) * t);
    assert(survival_numerator(inner, 1) == 1 && survival_denominator(inner, 1) == 1);
    assert(survival_numerator(inner, 0) == b && survival_denominator(inner, 0) == b + c);
    assert(survival_numerator(outer, 1) == 1 && survival_denominator(outer, 1) == 1);
    assert(survival_numerator(outer, 0) == a && survival_denominator(outer, 0) == t);
    assert(kept_numerator(flat, 0) == a * (a * (a + b)));
    assert(kept_denominator(flat, 0) == a * ((a + b) * t));
    assert(kept_numerator(flat, 1) == b * (a + b));
    assert(kept_denominator(flat, 1) == (a + b) * t);
    assert(kept_numerator(flat, 2) == c * 1);
    assert(kept_denominator(flat, 2) == t * 1);
    assert(kept_numerator(inner, 0) == b * b);
    assert(kept_denominator(inner, 0) == b * (b + c));
    assert(kept_numerator(inner, 1) == c * 1);
    assert(kept_denominator(inner, 1) == (b + c) * 1);
    assert(kept_numerator(outer, 0) == a * a);
    assert(kept_denominator(outer, 0) == a * t);
    assert(kept_numerator(outer, 1) == (b + c) * 1);
    assert(kept_denominator(outer, 1) == t * 1);
    assert((a * a) * (a * ((a + b) * t)) == (a * (a * (a + b))) * (a * t)) by (nonlinear_arith);
    assert(((b * b) * ((b + c) * 1)) * ((a + b) * t) == (b * (a + b)) * ((b * (b + c)) * (t * 1)))
        by (nonlinear_arith);
    assert(((c * 1) * ((b + c) * 1)) * (t * 1) == (c * 1) * (((b + c) * 1) * (t * 1)))
        by (nonlinear_arith);
    assert((a * (a * (a + b))) * t == a * (a * ((a + b) * t))) by (nonlinear_arith);
    assert((b * (a + b)) * t == b * ((a + b) * t)) by (nonlinear_arith);
    assert((c * 1) * t == c * (t * 1)) by (nonlinear_arith);
}

/// A reservoir that has been normalised stands for nearly the weight it
/// has seen. Let it have seen the weight `s` and the count `m`, let it be
/// normalised at the target `p` to the factor `w = s / (m * p)`, and let it
/// enter a merge with the weight `r = w * m * p`, every step rounded
/// down. Then `r` is above `s` by no more than `w` millionths of a
/// millionth, and below it by less than `m * p + p + 1` of them.
proof fn renormalised_weight_is_near(s: int, m: int, p: int)
    requires
        0 <= s,
        0 <= m,
        0 <= p,
        (m * p) / (ONE as int) >= 1,
    ensures
        ({
            let d = (m * p) / (ONE as int);
            let w = (s * (ONE as int)) / d;
            let r = (((w * m) / (ONE as int)) * p) / (ONE as int);
            &&& 0 <= w
            &&& 0 <= r
            &&& (r - s) * (ONE as int) <= w
            &&& (s - r) * (ONE as int) < d + p + (ONE as int)
        }),
{
    let one = ONE as int;
    let mp = m * p;
    let d = mp / one;
    let w = (s * one) / d;
    let wm = w * m;
    let x = wm / one;
    let xp = x * p;
    let r = xp / one;
    assert(0 <= mp) by (nonlinear_arith)
        requires
            0 <= m,
            0 <= p,
            mp == m * p,
    ;
    assert(d * one <= mp < (d + 1) * one) by (nonlinear_arith)
        requires
            d == mp / one,
            one == 1_000_000,
    ;
    assert(0 <= w && w * d <= s * one < (w + 1) * d) by (nonlinear_arith)
        requires
            w == (s * one) / d,
            d >= 1,
            0 <= s,
            one == 1_000_000,
    ;
    assert(0 <= wm) by (nonlinear_arith)
        requires
            0 <= w,
            0 <= m,
            wm == w * m,
    ;
    assert(0 <= x && x * one <= wm < (x + 1) * one) by (nonlinear_arith)
        requires
            x == wm / one,
            0 <= wm,
            one == 1_000_000,
    ;
    assert(0 <= xp) by (nonlinear_arith)
        requires
            0 <= x,
            0 <= p,
            xp == x * p,
    ;
    assert(0 <= r && r * one <= xp < (r + 1) * one) by (nonlinear_arith)
        requires
            r == xp / one,
            0 <= xp,
            one == 1_000_000,
    ;
    // From above: r * one * one <= w * (m * p) <= w * (d + 1) * one.
    assert(xp * one <= w * mp) by (nonlinear_arith)
        requires
            x * one <= wm,
            wm == w * m,
            xp == x * p,
            mp == m * p,
            0 <= p,
    ;
    assert(w * mp <= w * ((d + 1) * one)) by (nonlinear_arith)
        requires
            mp < (d + 1) * one,
            0 <= w,
    ;
    assert(r * one * one <= (w * d + w) * one) by (nonlinear_arith)
        requires
            r * one <= xp,
            xp * one <= w * mp,
            w * mp <= w * ((d + 1) * one),
            one == 1_000_000,
    ;
    assert(r * one <= w * d + w) by (nonlinear_arith)
        requires
            r * one * one <= (w * d + w) * one,
            one == 1_000_000,
    ;
    // From below: (r + 1) * one * one > w * (m * p) - p * one >= w * d *
    // one - p * one.
    assert(xp * one >= w * mp - p * one) by (nonlinear_arith)
        requires
            wm < (x + 1) * one,
            wm == w * m,
            xp == x * p,
            mp == m * p,
            0 <= p,
    ;
    assert(w * mp >= w * (d * one)) by (nonlinear_arith)
        requires
            d * one <= mp,
            0 <= w,
    ;
    assert((r + 1) * one * one > (w * d - p) * one) by (nonlinear_arith)
        requires
            xp < (r + 1) * one,
            xp * one >= w * mp - p * one,
            w * mp >= w * (d * one),
            one == 1_000_000,
    ;
    assert((r + 1) * one > w * d - p) by (nonlinear_arith)
        requires
            (r + 1) * one * one > (w * d - p) * one,
            one == 1_000_000,
    ;
    assert((r - s) * one <= w) by (nonlinear_arith)
        requires
            r * one <= w * d + w,
            w * d <= s * one,
    ;
    assert((s - r) * one < d + p + one) by (nonlinear_arith)
        requires
            (r + 1) * one > w * d - p,
            s * one < (w + 1) * d,
    ;
}

/// Merging is associative in what it accumulates, up to rounding. Let `b`
/// stand for as much weight as it has seen, let `c` be merged into `b` and
/// the result be normalised, without a cap, to `d`. Then merging `b` and
/// after it `c` into `a` gives the same count as merging `d` into `a`, and
/// a sum of weights that is less by no more than `d.w` millionths of a
/// millionth and more by less than `d.m_sum * p_hat + p_hat + 1` of them,
/// `p_hat` being the target function of the sample of `d`. Numbers that
/// have run into the largest one are left out.
pub proof fn merge_accumulates_associatively_up_to_rounding<T: Copy>(
    a: Reservoir<T>,
    b: Reservoir<T>,
    c: Reservoir<T>,
    p_hat_b: u64,
    p_hat_c: u64,
    p_hat_d: u64,
    draw_bc: int,
    draw_ab: int,
    draw_ac: int,
    draw_ad: int,
)
    requires
        b.m_sum > 0,
        c.m_sum > 0,
        merge_weight(b.w as int, b.m_sum as int, p_hat_b as int) == b.w_sum,
        a.w_sum + b.w_sum + merge_weight(c.w as int, c.m_sum as int, p_hat_c as int) < u64::MAX,
        a.m_sum + b.m_sum + c.m_sum < u64::MAX,
        EPSILON <= product((b.m_sum + c.m_sum) as int, p_hat_d as int) < u64::MAX,
        ({
            let d = b.merged(draw_bc, c, p_hat_c).normalized(p_hat_d, u64::MAX, u64::MAX);
            &&& d.w < u64::MAX
            &&& product(d.w as int, d.m_sum as int) < u64::MAX
            &&& a.w_sum + merge_weight(d.w as int, d.m_sum as int, p_hat_d as int) < u64::MAX
        }),
    ensures
        ({
            let d = b.merged(draw_bc, c, p_hat_c).normalized(p_hat_d, u64::MAX, u64::MAX);
            let left = a.merged(draw_ab, b, p_hat_b).merged(draw_ac, c, p_hat_c);
            let right = a.merged(draw_ad, d, p_hat_d);
            &&& left.m_sum == a.m_sum + b.m_sum + c.m_sum
            &&& right.m_sum == left.m_sum
            &&& left.w_sum == a.w_sum + b.w_sum + merge_weight(
                c.w as int,
                c.m_sum as int,
                p_hat_c as int,
            )
            &&& (right.w_sum - left.w_sum) * (ONE as int) <= d.w
            &&& (left.w_sum - right.w_sum) * (ONE as int) < product(
                d.m_sum as int,
                p_hat_d as int,
            ) + p_hat_d + (ONE as int)
        }),
{
    let seen = b.w_sum + merge_weight(c.w as int, c.m_sum as int, p_hat_c as int);
    let count = b.m_sum + c.m_sum;
    let p = p_hat_d as int;
    let d = b.merged(draw_bc, c, p_hat_c).normalized(p_hat_d, u64::MAX, u64::MAX);
    assert(0 <= merge_weight(c.w as int, c.m_sum as int, p_hat_c as int));
    renormalised_weight_is_near(seen, count, p);
    assert(d.m_sum == count);
    assert(d.w_sum == seen);
    let divisor = (count * p) / (ONE as int);
    assert(product(count, p) == divisor);
    assert(d.w == (seen * (ONE as int)) / divisor);
    let factor = d.w as int;
    assert(product(factor, count) == (factor * count) / (ONE as int));
    let scaled = (factor * count) / (ONE as int);
    assert(0 <= scaled * p) by (nonlinear_arith)
        requires
            0 <= scaled,
            0 <= p,
    ;
    assert(0 <= (scaled * p) / (ONE as int)) by (nonlinear_arith)
        requires
            0 <= scaled * p,
    ;
    assert(merge_weight(factor, count, p) == (scaled * p) / (ONE as int));
}

} // verus!
