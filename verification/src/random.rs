//! Randomized sampling primitives: index sampling, cut-point sampling and
//! weighted (roulette-wheel) selection over scalar weights.
//!
//! Every primitive draws from a [`RandomSource`], a deterministic pseudo-random
//! generator seeded by the caller, so runs are reproducible for a fixed seed.

use vstd::prelude::*;
use crate::RATE_SCALE;
use crate::genetic::AsScalar;

verus! {

/// How many draws a rejection-sampling loop makes before it falls back to a
/// deterministic admissible value. Rejection sampling terminates almost surely,
/// but not certainly; the bound makes every primitive total. The fallback is
/// reached with probability so small it is unobservable in practice.
pub const MAX_SAMPLE_ATTEMPTS: u64 = 10_000;

/// Declares rand's `StdRng` so that a [`RandomSource`] can hold one; the
/// generator's state is opaque to verification.
#[verifier::external_type_specification]
#[verifier::external_body]
pub struct ExStdRng(rand::rngs::StdRng);

/// A deterministic pseudo-random source; every sampling primitive draws from it.
pub struct RandomSource {
    rng: rand::rngs::StdRng,
}

impl RandomSource {
    /// Relies on rand's `SeedableRng::seed_from_u64` for `StdRng`: builds a
    /// reproducible generator from a 64-bit seed.
    #[verifier::external_body]
    pub fn from_seed(seed: u64) -> Self {
        RandomSource { rng: <rand::rngs::StdRng as rand::SeedableRng>::seed_from_u64(seed) }
    }
}

/// Relies on rand's `RngExt::random_range` over `min..max`: a uniformly
/// distributed integer in the half-open range. The range is never empty here,
/// so the call cannot panic.
#[verifier::external_body]
pub(crate) fn draw_below(src: &mut RandomSource, min: u64, max: u64) -> (x: u64)
    requires
        min < max,
    ensures
        min <= x < max,
{
    rand::RngExt::random_range(&mut src.rng, min..max)
}

/// A uniform index in `[0, length)`.
pub fn random_index(rng: &mut RandomSource, length: usize) -> (i: usize)
    requires
        length > 0,
    ensures
        i < length,
{
    random_index_from_range(rng, 0, length)
}

/// A uniform index in `[min, max)`.
pub fn random_index_from_range(rng: &mut RandomSource, min: usize, max: usize) -> (i: usize)
    requires
        min < max,
    ensures
        min <= i < max,
{
    let x = draw_below(rng, min as u64, max as u64);
    x as usize
}

/// A uniform fixed-point fraction in `[0, 1)`, scaled by [`RATE_SCALE`].
pub fn random_probability(rng: &mut RandomSource) -> (p: u64)
    ensures
        p < RATE_SCALE,
{
    draw_below(rng, 0, RATE_SCALE)
}

/// Two distinct cut points over a genome of the given length.
pub fn random_cut_points(rng: &mut RandomSource, length: usize) -> (r: (usize, usize))
    requires
        length >= 4,
    ensures
        r.0 < r.1,
        r.1 < length,
        r.1 - r.0 < length - 2,
{
    random_cut_points_from_range(rng, 0, length)
}

/// Two distinct cut points `(a, b)` with `min <= a < b < max` whose span stays
/// under `max - min - 2`, drawn by rejection sampling: pairs of uniform indices
/// are redrawn until they differ and satisfy the span bound. The loop is
/// expected to terminate almost surely; after [`MAX_SAMPLE_ATTEMPTS`] failed
/// draws it falls back to the smallest admissible pair `(min, min + 1)`.
pub fn random_cut_points_from_range(rng: &mut RandomSource, min: usize, max: usize) -> (r: (
    usize,
    usize,
))
    requires
        max >= min + 4,
    ensures
        min <= r.0,
        r.0 < r.1,
        r.1 < max,
        r.1 - r.0 < max - min - 2,
{
    let max_slice = max - min - 2;
    let mut attempt: u64 = 0;
    while attempt < MAX_SAMPLE_ATTEMPTS
        invariant
            min + 4 <= max,
            max_slice == max - min - 2,
        decreases MAX_SAMPLE_ATTEMPTS - attempt,
    {
        let cutpoint1 = random_index_from_range(rng, min, max);
        let cutpoint2 = random_index_from_range(rng, min, max);
        if cutpoint1 < cutpoint2 {
            if cutpoint2 - cutpoint1 < max_slice {
                return (cutpoint1, cutpoint2);
            }
        } else if cutpoint2 < cutpoint1 {
            if cutpoint1 - cutpoint2 < max_slice {
                return (cutpoint2, cutpoint1);
            }
        }
        attempt = attempt + 1;
    }
    (min, min + 1)
}

/// `n` cut points over `[0, length)`. A single cut point is a plain uniform
/// index and a pair delegates to [`random_cut_points`]; for more, the range is
/// walked in windows of roughly `length / n` indices, one cut point drawn per
/// window, with draws at the extreme boundary (index 0) rejected. Rejection is
/// bounded by [`MAX_SAMPLE_ATTEMPTS`]; after that the smallest admissible
/// index of the window is taken.
pub fn random_n_cut_points(rng: &mut RandomSource, n: usize, length: usize) -> (cuts: Vec<usize>)
    requires
        n > 0,
        length >= 2 * n,
    ensures
        cuts@.len() == n,
        forall|i: int| 0 <= i < n ==> #[trigger] cuts@[i] < length,
        n == 2 ==> cuts@[0] < cuts@[1] && cuts@[1] - cuts@[0] < length - 2,
        n > 2 ==> forall|i: int| 0 <= i < n ==> 0 < #[trigger] cuts@[i],
        n > 2 ==> forall|i: int, j: int|
            0 <= i <= j < n ==> #[trigger] cuts@[i] <= #[trigger] cuts@[j],
{
    let mut cutpoints: Vec<usize> = Vec::new();
    if n == 1 {
        cutpoints.push(random_index(rng, length));
    } else if n == 2 {
        let (cp1, cp2) = random_cut_points(rng, length);
        cutpoints.push(cp1);
        cutpoints.push(cp2);
    } else {
        let slice_len = length / n;
        proof {
            vstd::arithmetic::div_mod::lemma_fundamental_div_mod(length as int, n as int);
            vstd::arithmetic::div_mod::lemma_div_is_ordered(
                2 * (n as int),
                length as int,
                n as int,
            );
            vstd::arithmetic::div_mod::lemma_div_by_multiple(2, n as int);
        }
        let mut start: usize = 0;
        let mut end: usize = slice_len;
        let mut count: usize = 1;
        while count <= n
            invariant
                2 < n,
                length >= 2 * n,
                slice_len == length / n,
                slice_len >= 2,
                (n as int) * (slice_len as int) <= length,
                1 <= count <= n + 1,
                cutpoints@.len() == count - 1,
                start < end,
                end <= length,
                count < n ==> end == (slice_len as int) * (count as int),
                count == n ==> end == length,
                start == 0 ==> count == 1,
                count >= 2 ==> start >= 1,
                forall|i: int| 0 <= i < cutpoints@.len() ==> 0 < #[trigger] cutpoints@[i],
                forall|i: int| 0 <= i < cutpoints@.len() ==> #[trigger] cutpoints@[i] < length,
                count <= n ==> forall|i: int|
                    0 <= i < cutpoints@.len() ==> #[trigger] cutpoints@[i] <= start,
                forall|i: int, j: int|
                    0 <= i <= j < cutpoints@.len() ==> #[trigger] cutpoints@[i]
                        <= #[trigger] cutpoints@[j],
            decreases n + 1 - count,
        {
            let mut cut: usize = 0;
            let mut attempt: u64 = 0;
            while cut == 0 && attempt < MAX_SAMPLE_ATTEMPTS
                invariant
                    start < end,
                    cut != 0 ==> start <= cut && cut < end,
                decreases MAX_SAMPLE_ATTEMPTS - attempt, (if cut == 0 { 1int } else { 0int }),
            {
                let c = random_index_from_range(rng, start, end);
                if c != 0 {
                    cut = c;
                }
                attempt = attempt + 1;
            }
            if cut == 0 {
                cut = if start == 0 {
                    1
                } else {
                    start
                };
            }
            cutpoints.push(cut);
            if count < n {
                start = cut;
                if count + 1 == n {
                    end = length;
                    proof {
                        assert((slice_len as int) * (count as int) <= (slice_len as int) * (
                        n as int)) by (nonlinear_arith)
                            requires
                                0 <= slice_len,
                                count <= n,
                        ;
                        assert((slice_len as int) * (n as int) == (n as int) * (
                        slice_len as int)) by (nonlinear_arith);
                    }
                } else {
                    proof {
                        assert((slice_len as int) * (count as int) + slice_len == (
                        slice_len as int) * (count as int + 1)) by (nonlinear_arith);
                        assert((slice_len as int) * (count as int + 1) <= (slice_len as int) * (
                        n as int)) by (nonlinear_arith)
                            requires
                                0 <= slice_len,
                                count + 1 <= n,
                        ;
                        assert((slice_len as int) * (n as int) == (n as int) * (
                        slice_len as int)) by (nonlinear_arith);
                    }
                    end = end + slice_len;
                }
            }
            count = count + 1;
        }
    }
    cutpoints
}

/// Total-function form of [`random_cut_points_from_range`]: a range too small
/// to hold two admissible cut points yields `None` instead of being a
/// precondition fault.
pub fn checked_cut_points_from_range(rng: &mut RandomSource, min: usize, max: usize) -> (r: Option<
    (usize, usize),
>)
    ensures
        r is None <==> max < min + 4,
        r matches Some(p) ==> min <= p.0 && p.0 < p.1 && p.1 < max && p.1 - p.0 < max - min - 2,
{
    if max >= min && max - min >= 4 {
        Some(random_cut_points_from_range(rng, min, max))
    } else {
        None
    }
}

/// Sum of the first `n` weights.
pub open spec fn prefix_sum(ws: Seq<u64>, n: int) -> int
    decreases n,
{
    if n <= 0 {
        0
    } else {
        prefix_sum(ws, n - 1) + ws[n - 1]
    }
}

/// Sum of the scalars of the first `n` values.
pub open spec fn scalar_prefix_sum<T: AsScalar>(vs: Seq<T>, n: int) -> int
    decreases n,
{
    if n <= 0 {
        0
    } else {
        scalar_prefix_sum(vs, n - 1) + vs[n - 1].as_scalar_spec()
    }
}

/// A weight prefix sum matches the scalar prefix sum of the values the weights
/// were computed from.
proof fn lemma_prefix_sum_matches_scalars<T: AsScalar>(vs: Seq<T>, ws: Seq<u64>, n: int)
    requires
        0 <= n <= vs.len(),
        n <= ws.len(),
        forall|i: int| 0 <= i < n ==> #[trigger] ws[i] == vs[i].as_scalar_spec(),
    ensures
        prefix_sum(ws, n) == scalar_prefix_sum(vs, n),
    decreases n,
{
    if n > 0 {
        lemma_prefix_sum_matches_scalars(vs, ws, n - 1);
    }
}

/// Scalar prefix sums grow weakly with the prefix length.
pub proof fn lemma_scalar_prefix_sum_mono<T: AsScalar>(vs: Seq<T>, i: int, j: int)
    requires
        0 <= i <= j <= vs.len(),
    ensures
        scalar_prefix_sum(vs, i) <= scalar_prefix_sum(vs, j),
    decreases j - i,
{
    if i < j {
        lemma_scalar_prefix_sum_mono(vs, i, j - 1);
    }
}

/// A scalar prefix sum is bounded by the prefix length times a bound on the
/// individual scalars.
pub proof fn lemma_scalar_prefix_sum_bounded<T: AsScalar>(vs: Seq<T>, n: int, bound: int)
    requires
        0 <= n <= vs.len(),
        forall|i: int| 0 <= i < vs.len() ==> (#[trigger] vs[i]).as_scalar_spec() <= bound,
    ensures
        scalar_prefix_sum(vs, n) <= n * bound,
    decreases n,
{
    if n > 0 {
        lemma_scalar_prefix_sum_bounded(vs, n - 1, bound);
        assert(vs[n - 1].as_scalar_spec() <= bound);
        assert((n - 1) * bound + bound == n * bound) by (nonlinear_arith);
    } else {
        assert(n * bound == 0) by (nonlinear_arith)
            requires
                n == 0,
        ;
    }
}

/// The index a roulette-wheel walk picks for a pointer: the first index whose
/// cumulative weight reaches the pointer, or the last index when even the full
/// sum falls short of it (the documented clamp for a pointer past the sum).
pub open spec fn roulette_pick(ws: Seq<u64>, pointer: u64, i: int) -> bool {
    &&& 0 <= i < ws.len()
    &&& forall|j: int| 0 <= j < i ==> #[trigger] prefix_sum(ws, j + 1) < pointer
    &&& (prefix_sum(ws, i + 1) >= pointer || i == ws.len() - 1)
}

/// Walks the weights, subtracting from `pointer`, and returns the index at
/// which the running remainder first goes non-positive; if no index satisfies
/// that (a pointer past the weight sum), returns the last index.
pub fn weighted_select(pointer: u64, weights: &Vec<u64>) -> (i: usize)
    requires
        weights@.len() > 0,
    ensures
        i < weights@.len(),
        roulette_pick(weights@, pointer, i as int),
{
    let mut remaining = pointer;
    let mut idx: usize = 0;
    while idx < weights.len()
        invariant
            idx <= weights@.len(),
            remaining == pointer - prefix_sum(weights@, idx as int),
            forall|j: int| 0 <= j < idx ==> #[trigger] prefix_sum(weights@, j + 1) < pointer,
        decreases weights@.len() - idx,
    {
        let w = weights[idx];
        if w >= remaining {
            return idx;
        }
        remaining = remaining - w;
        idx = idx + 1;
    }
    weights.len() - 1
}

/// Weights and their sum for the given values; each weight is the scalar of
/// the value at the same index.
pub fn calc_weights_and_sum<T: AsScalar>(values: &[T]) -> (r: (Vec<u64>, u64))
    requires
        scalar_prefix_sum(values@, values@.len() as int) <= u64::MAX,
    ensures
        r.0@.len() == values@.len(),
        forall|i: int| 0 <= i < values@.len() ==> #[trigger] r.0@[i] == values@[i].as_scalar_spec(),
        r.1 == prefix_sum(r.0@, r.0@.len() as int),
{
    let mut weights: Vec<u64> = Vec::new();
    let mut weight_sum: u64 = 0;
    let n = values.len();
    let mut i: usize = 0;
    while i < n
        invariant
            n == values@.len(),
            i <= n,
            weights@.len() == i,
            forall|k: int| 0 <= k < i ==> #[trigger] weights@[k] == values@[k].as_scalar_spec(),
            weight_sum == scalar_prefix_sum(values@, i as int),
            scalar_prefix_sum(values@, n as int) <= u64::MAX,
        decreases n - i,
    {
        let v = vstd::slice::slice_index_get(values, i);
        let s = v.as_scalar();
        proof {
            lemma_scalar_prefix_sum_mono(values@, i + 1, n as int);
        }
        weights.push(s);
        weight_sum = weight_sum + s;
        i = i + 1;
    }
    proof {
        lemma_prefix_sum_matches_scalars(values@, weights@, n as int);
    }
    (weights, weight_sum)
}

/// Selects values proportional to their scalar weights: a roulette wheel.
pub struct WeightedDistribution<'a, T: AsScalar> {
    /// The values selection draws from.
    pub values: &'a [T],
    /// Sum of all weights.
    pub sum: u64,
    /// The scalar weight of each value, at the value's index.
    pub weights: Vec<u64>,
}

impl<'a, T: AsScalar> WeightedDistribution<'a, T> {
    /// The distribution mirrors its values: one weight per value, each the
    /// value's scalar, with `sum` their total.
    pub open spec fn wf(self) -> bool {
        &&& self.weights@.len() == self.values@.len()
        &&& self.values@.len() > 0
        &&& forall|i: int|
            0 <= i < self.values@.len() ==> #[trigger] self.weights@[i]
                == self.values@[i].as_scalar_spec()
        &&& self.sum == prefix_sum(self.weights@, self.weights@.len() as int)
    }

    /// Builds the distribution over the given values.
    pub fn from_scalar_values(values: &'a [T]) -> (d: Self)
        requires
            values@.len() > 0,
            scalar_prefix_sum(values@, values@.len() as int) <= u64::MAX,
        ensures
            d.wf(),
            d.values@ == values@,
    {
        let (weights, weight_sum) = calc_weights_and_sum(values);
        WeightedDistribution { values, weights, sum: weight_sum }
    }

    /// The sum of all weights.
    pub fn sum(&self) -> (s: u64)
        ensures
            s == self.sum,
    {
        self.sum
    }

    /// One roulette-wheel draw: the index the pointer lands on. The pointer is
    /// expected to be drawn uniformly in `[0, sum)`; a pointer past the sum is
    /// clamped to the last index.
    pub fn select(&self, pointer: u64) -> (i: usize)
        requires
            self.wf(),
        ensures
            i < self.values@.len(),
            roulette_pick(self.weights@, pointer, i as int),
    {
        weighted_select(pointer, &self.weights)
    }

    /// The value at the given index.
    pub fn value(&self, index: usize) -> (v: &'a T)
        requires
            index < self.values@.len(),
        ensures
            *v == self.values@[index as int],
    {
        vstd::slice::slice_index_get(self.values, index)
    }
}

} // verus!
