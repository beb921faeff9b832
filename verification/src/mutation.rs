//! Order-preserving mutation strategies for permutation-encoded genomes:
//! insert-mutation and swap-mutation. Both perturb gene positions only, so
//! the multiset of gene values is preserved for every input and every
//! mutation rate.

use vstd::prelude::*;
use vstd::assert_multisets_equal;
use crate::RATE_SCALE;
use crate::valid_rate;
use crate::operator::GeneticOperator;
use crate::operator::MutationOp;
use crate::random::RandomSource;
use crate::random::random_cut_points;
use crate::random::random_probability;
use crate::simulation::SimError;

verus! {

/// The number of mutation events for one genome:
/// `floor(genome_length * mutation_rate + u)` where `u` is one fresh uniform
/// draw in `[0, 1)`. The fractional rounding with jitter keeps the expected
/// event count at `genome_length * mutation_rate` despite truncation.
pub open spec fn num_mutation_events(genome_length: int, rate: int, u: int) -> int {
    (genome_length * rate + u) / (RATE_SCALE as int)
}

/// Computes the number of mutation events for one genome from the rate and a
/// fresh uniform draw.
fn count_mutation_events(genome_length: usize, rate: u64, u: u64) -> (n: u64)
    requires
        valid_rate(rate),
        u < RATE_SCALE,
        genome_length * RATE_SCALE + RATE_SCALE <= u64::MAX,
    ensures
        n == num_mutation_events(genome_length as int, rate as int, u as int),
        n <= genome_length,
        genome_length * rate == 0 ==> n == 0,
        n > 0 ==> genome_length * rate > 0,
{
    proof {
        assert((genome_length as int) * (rate as int) <= (genome_length as int) * (
        RATE_SCALE as int)) by (nonlinear_arith)
            requires
                0 <= genome_length,
                rate <= RATE_SCALE,
        ;
    }
    let n = ((genome_length as u64) * rate + u) / RATE_SCALE;
    proof {
        let g = genome_length as int;
        let s = RATE_SCALE as int;
        assert(g * (rate as int) + u < (g + 1) * s) by (nonlinear_arith)
            requires
                0 <= g,
                0 <= rate <= s,
                0 <= u < s,
        ;
        assert(((g * (rate as int) + u) as int) / s <= g) by (nonlinear_arith)
            requires
                0 <= g,
                s > 0,
                0 <= g * (rate as int) + u,
                g * (rate as int) + u < (g + 1) * s,
        ;
        if g * (rate as int) == 0 {
            assert((u as int) / s == 0);
        }
        if n > 0 {
            assert(g * (rate as int) + u >= s) by (nonlinear_arith)
                requires
                    s > 0,
                    0 <= g * (rate as int) + u,
                    ((g * (rate as int) + u) as int) / s > 0,
            ;
        }
    }
    n
}

/// Mutates a permutation-encoded genome by insert-mutation: per event, the
/// gene at the second sampled cut point is removed and reinserted immediately
/// after the first. Positions change; the multiset of gene values does not.
#[derive(Clone, Copy)]
pub struct InsertOrderMutator {
    /// Expected per-gene mutation probability, scaled by [`RATE_SCALE`].
    pub mutation_rate: u64,
}

impl InsertOrderMutator {
    /// Builds the mutator with the given mutation rate.
    pub fn new(mutation_rate: u64) -> (m: Self)
        requires
            valid_rate(mutation_rate),
        ensures
            m.mutation_rate == mutation_rate,
    {
        InsertOrderMutator { mutation_rate }
    }

    /// The configured mutation rate.
    pub fn mutation_rate(&self) -> (r: u64)
        ensures
            r == self.mutation_rate,
    {
        self.mutation_rate
    }

    /// Replaces the mutation rate.
    pub fn set_mutation_rate(&mut self, value: u64)
        requires
            valid_rate(value),
        ensures
            final(self).mutation_rate == value,
    {
        self.mutation_rate = value;
    }
}

impl GeneticOperator for InsertOrderMutator {
    fn name(&self) -> String {
        "Order-Insert-Mutation".to_string()
    }
}

impl<V: Copy> MutationOp<Vec<V>> for InsertOrderMutator {
    open spec fn mutate_requires(&self, genome: Vec<V>) -> bool {
        &&& valid_rate(self.mutation_rate)
        &&& genome@.len() * RATE_SCALE + RATE_SCALE <= u64::MAX
    }

    open spec fn mutation_ok(&self, input: Vec<V>, output: Vec<V>) -> bool {
        &&& output@.to_multiset() == input@.to_multiset()
        &&& output@.len() == input@.len()
    }

    open spec fn mutate_succeeds(&self, genome: Vec<V>) -> bool {
        genome@.len() >= 4 || genome@.len() * self.mutation_rate == 0
    }

    fn mutate(&self, genome: Vec<V>, rng: &mut RandomSource) -> (r: Result<Vec<V>, SimError>) {
        let genome_length = genome.len();
        let u = random_probability(rng);
        let num_mutations = count_mutation_events(genome_length, self.mutation_rate, u);
        if num_mutations == 0 {
            return Ok(genome);
        }
        if genome_length < 4 {
            return Err(SimError::GenomeTooShort);
        }
        let ghost orig = genome@;
        let mut mutated = genome;
        let mut k: u64 = 0;
        while k < num_mutations
            invariant
                genome_length >= 4,
                mutated@.len() == genome_length,
                mutated@.to_multiset() == orig.to_multiset(),
                orig.len() == genome_length,
            decreases num_mutations - k,
        {
            let (locus1, locus2) = random_cut_points(rng, genome_length);
            let ghost before = mutated@;
            let value2 = mutated.remove(locus2);
            let ghost removed = mutated@;
            mutated.insert(locus1 + 1, value2);
            proof {
                broadcast use vstd::seq_lib::group_to_multiset_ensures;

                assert(before.contains(before[locus2 as int]));
                assert(removed.to_multiset() == before.to_multiset().remove(
                    before[locus2 as int],
                ));
                assert(mutated@.to_multiset() == removed.to_multiset().insert(value2));
                assert_multisets_equal!(
                    mutated@.to_multiset(),
                    before.to_multiset()
                );
            }
            k = k + 1;
        }
        Ok(mutated)
    }
}

/// Mutates a permutation-encoded genome by swap-mutation: per event, the genes
/// at the two sampled cut points exchange places. Positions change; the
/// multiset of gene values does not.
#[derive(Clone, Copy)]
pub struct SwapOrderMutator {
    /// Expected per-gene mutation probability, scaled by [`RATE_SCALE`].
    pub mutation_rate: u64,
}

impl SwapOrderMutator {
    /// Builds the mutator with the given mutation rate.
    pub fn new(mutation_rate: u64) -> (m: Self)
        requires
            valid_rate(mutation_rate),
        ensures
            m.mutation_rate == mutation_rate,
    {
        SwapOrderMutator { mutation_rate }
    }

    /// The configured mutation rate.
    pub fn mutation_rate(&self) -> (r: u64)
        ensures
            r == self.mutation_rate,
    {
        self.mutation_rate
    }

    /// Replaces the mutation rate.
    pub fn set_mutation_rate(&mut self, value: u64)
        requires
            valid_rate(value),
        ensures
            final(self).mutation_rate == value,
    {
        self.mutation_rate = value;
    }
}

impl GeneticOperator for SwapOrderMutator {
    fn name(&self) -> String {
        "Order-Swap-Mutation".to_string()
    }
}

impl<V: Copy> MutationOp<Vec<V>> for SwapOrderMutator {
    open spec fn mutate_requires(&self, genome: Vec<V>) -> bool {
        &&& valid_rate(self.mutation_rate)
        &&& genome@.len() * RATE_SCALE + RATE_SCALE <= u64::MAX
    }

    open spec fn mutation_ok(&self, input: Vec<V>, output: Vec<V>) -> bool {
        &&& output@.to_multiset() == input@.to_multiset()
        &&& output@.len() == input@.len()
    }

    open spec fn mutate_succeeds(&self, genome: Vec<V>) -> bool {
        genome@.len() >= 4 || genome@.len() * self.mutation_rate == 0
    }

    fn mutate(&self, genome: Vec<V>, rng: &mut RandomSource) -> (r: Result<Vec<V>, SimError>) {
        let genome_length = genome.len();
        let u = random_probability(rng);
        let num_mutations = count_mutation_events(genome_length, self.mutation_rate, u);
        if num_mutations == 0 {
            return Ok(genome);
        }
        if genome_length < 4 {
            return Err(SimError::GenomeTooShort);
        }
        let ghost orig = genome@;
        let mut mutated = genome;
        let mut k: u64 = 0;
        while k < num_mutations
            invariant
                genome_length >= 4,
                mutated@.len() == genome_length,
                mutated@.to_multiset() == orig.to_multiset(),
                orig.len() == genome_length,
            decreases num_mutations - k,
        {
            let (locus1, locus2) = random_cut_points(rng, genome_length);
            let ghost before = mutated@;
            let a = mutated[locus1];
            let b = mutated[locus2];
            mutated[locus1] = b;
            mutated[locus2] = a;
            proof {
                broadcast use vstd::seq_lib::group_to_multiset_ensures;

                let mid = before.update(locus1 as int, b);
                assert(before.contains(before[locus1 as int]));
                assert(mid.to_multiset() == before.to_multiset().insert(b).remove(a));
                assert(mid[locus2 as int] == b);
                assert(mutated@.to_multiset() == mid.to_multiset().insert(a).remove(b));
                assert_multisets_equal!(
                    mutated@.to_multiset(),
                    before.to_multiset()
                );
            }
            k = k + 1;
        }
        Ok(mutated)
    }
}

/// Mutates a value-encoded genome by redrawing genes: each gene is replaced,
/// independently with probability `mutation_rate`, by a value drawn uniformly
/// from the configured inclusive range.
#[derive(Clone, Copy)]
pub struct RandomValueMutator {
    /// Expected per-gene mutation probability, scaled by [`RATE_SCALE`].
    pub mutation_rate: u64,
    /// The smallest value a redrawn gene can take.
    pub min_value: u64,
    /// The largest value a redrawn gene can take.
    pub max_value: u64,
}

impl RandomValueMutator {
    /// Builds the mutator with the given mutation rate and value range.
    pub fn new(mutation_rate: u64, min_value: u64, max_value: u64) -> (m: Self)
        requires
            valid_rate(mutation_rate),
            min_value <= max_value,
            max_value - min_value < u64::MAX,
        ensures
            m.mutation_rate == mutation_rate,
            m.min_value == min_value,
            m.max_value == max_value,
    {
        RandomValueMutator { mutation_rate, min_value, max_value }
    }
}

impl GeneticOperator for RandomValueMutator {
    fn name(&self) -> String {
        "Random-Value-Mutation".to_string()
    }
}

impl MutationOp<Vec<u64>> for RandomValueMutator {
    open spec fn mutate_requires(&self, genome: Vec<u64>) -> bool {
        &&& valid_rate(self.mutation_rate)
        &&& self.min_value <= self.max_value
        &&& self.max_value - self.min_value < u64::MAX
    }

    open spec fn mutation_ok(&self, input: Vec<u64>, output: Vec<u64>) -> bool {
        &&& output@.len() == input@.len()
        &&& forall|i: int|
            0 <= i < output@.len() ==> #[trigger] output@[i] == input@[i] || (self.min_value
                <= output@[i] <= self.max_value)
    }

    open spec fn mutate_succeeds(&self, genome: Vec<u64>) -> bool {
        true
    }

    fn mutate(&self, genome: Vec<u64>, rng: &mut RandomSource) -> (r: Result<Vec<u64>, SimError>) {
        let ghost orig = genome@;
        let mut mutated = genome;
        let span = self.max_value - self.min_value;
        let mut i: usize = 0;
        while i < mutated.len()
            invariant
                valid_rate(self.mutation_rate),
                self.min_value <= self.max_value,
                span == self.max_value - self.min_value,
                span < u64::MAX,
                i <= mutated@.len(),
                mutated@.len() == orig.len(),
                forall|j: int| i <= j < orig.len() ==> #[trigger] mutated@[j] == orig[j],
                forall|j: int|
                    0 <= j < i ==> #[trigger] mutated@[j] == orig[j] || (self.min_value
                        <= mutated@[j] <= self.max_value),
            decreases mutated@.len() - i,
        {
            if random_probability(rng) < self.mutation_rate {
                let offset = if span > 0 {
                    crate::random::draw_below(rng, 0, span + 1)
                } else {
                    0
                };
                mutated[i] = self.min_value + offset;
            }
            i = i + 1;
        }
        Ok(mutated)
    }
}

/// The order-preserving mutation strategy plugged into a simulation: either
/// insert-mutation or swap-mutation.
#[derive(Clone, Copy)]
pub enum OrderMutator {
    /// Insert-mutation.
    Insert(InsertOrderMutator),
    /// Swap-mutation.
    Swap(SwapOrderMutator),
}

impl OrderMutator {
    /// The configured mutation rate of the chosen strategy.
    pub open spec fn rate_spec(self) -> u64 {
        match self {
            OrderMutator::Insert(m) => m.mutation_rate,
            OrderMutator::Swap(m) => m.mutation_rate,
        }
    }

    /// The configured mutation rate of the chosen strategy.
    pub fn mutation_rate(&self) -> (r: u64)
        ensures
            r == self.rate_spec(),
    {
        match self {
            OrderMutator::Insert(m) => m.mutation_rate(),
            OrderMutator::Swap(m) => m.mutation_rate(),
        }
    }

    /// Mutates one genome with the chosen strategy. Order-preserving: the
    /// multiset of gene values is unchanged on success.
    pub fn mutate_genome<V: Copy>(&self, genome: Vec<V>, rng: &mut RandomSource) -> (r: Result<
        Vec<V>,
        SimError,
    >)
        requires
            valid_rate(self.rate_spec()),
            genome@.len() * RATE_SCALE + RATE_SCALE <= u64::MAX,
        ensures
            r matches Ok(m) ==> m@.to_multiset() == genome@.to_multiset() && m@.len()
                == genome@.len(),
            genome@.len() >= 4 ==> r is Ok,
    {
        match self {
            OrderMutator::Insert(m) => m.mutate(genome, rng),
            OrderMutator::Swap(m) => m.mutate(genome, rng),
        }
    }
}

} // verus!
