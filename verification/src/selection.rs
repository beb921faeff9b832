//! Selection strategies: fitness-proportional roulette-wheel selection,
//! built on the weighted distribution primitive, and fittest-first
//! maximizing selection.

use vstd::prelude::*;
use crate::RATE_SCALE;
use crate::valid_rate;
use crate::genetic::EvaluatedIndividual;
use crate::genetic::copy_genome;
use crate::genetic::genome_in_pool;
use crate::operator::GeneticOperator;
use crate::operator::SelectionOp;
use crate::random::RandomSource;
use crate::random::WeightedDistribution;
use crate::random::draw_below;
use crate::random::scalar_prefix_sum;

verus! {

/// Selects parents with probability proportional to their fitness: each
/// member of each parent group is one roulette-wheel draw over the evaluated
/// population.
#[derive(Clone, Copy)]
pub struct RouletteWheelSelector {
    /// Fraction of the population selected as parents, scaled by
    /// [`RATE_SCALE`].
    pub selection_ratio: u64,
    /// The arity of every parent group.
    pub num_individuals_per_parents: usize,
}

impl RouletteWheelSelector {
    /// Builds the selector with the given ratio and group arity.
    pub fn new(selection_ratio: u64, num_individuals_per_parents: usize) -> (s: Self)
        requires
            valid_rate(selection_ratio),
            num_individuals_per_parents >= 1,
        ensures
            s.selection_ratio == selection_ratio,
            s.num_individuals_per_parents == num_individuals_per_parents,
    {
        RouletteWheelSelector { selection_ratio, num_individuals_per_parents }
    }
}

impl GeneticOperator for RouletteWheelSelector {
    fn name(&self) -> String {
        "Roulette-Wheel-Selection".to_string()
    }
}

impl<V: Copy> SelectionOp<Vec<V>> for RouletteWheelSelector {
    open spec fn selection_wf(&self) -> bool {
        &&& valid_rate(self.selection_ratio)
        &&& self.num_individuals_per_parents >= 1
    }

    open spec fn parents_arity(&self) -> int {
        self.num_individuals_per_parents as int
    }

    open spec fn num_groups(&self, pool_len: int) -> int {
        (pool_len * self.selection_ratio + RATE_SCALE / 2) / (RATE_SCALE as int)
    }

    open spec fn select_requires(&self, pool: Seq<EvaluatedIndividual<Vec<V>>>) -> bool {
        &&& pool.len() > 0
        &&& scalar_prefix_sum(pool, pool.len() as int) <= u64::MAX
        &&& pool.len() * RATE_SCALE + RATE_SCALE <= u64::MAX
    }

    open spec fn members_of(
        &self,
        pool: Seq<EvaluatedIndividual<Vec<V>>>,
        groups: Seq<Vec<Vec<V>>>,
    ) -> bool {
        forall|g: int, m: int|
            0 <= g < groups.len() && 0 <= m < groups[g]@.len() ==> genome_in_pool(
                pool,
                #[trigger] groups[g]@[m]@,
            )
    }

    fn select(&self, pool: &Vec<EvaluatedIndividual<Vec<V>>>, rng: &mut RandomSource) -> (groups:
        Vec<Vec<Vec<V>>>) {
        let pool_len = pool.len();
        proof {
            assert((pool_len as int) * (self.selection_ratio as int) <= (pool_len as int) * (
            RATE_SCALE as int)) by (nonlinear_arith)
                requires
                    0 <= pool_len,
                    self.selection_ratio <= RATE_SCALE,
            ;
        }
        let num_parents = ((pool_len as u64) * self.selection_ratio + RATE_SCALE / 2) / RATE_SCALE;
        let wd = WeightedDistribution::from_scalar_values(pool.as_slice());
        let mut groups: Vec<Vec<Vec<V>>> = Vec::new();
        let mut g: u64 = 0;
        while g < num_parents
            invariant
                groups@.len() == g,
                g <= num_parents,
                wd.wf(),
                wd.values@ == pool@,
                pool@.len() > 0,
                self.num_individuals_per_parents >= 1,
                forall|k: int|
                    0 <= k < groups@.len() ==> #[trigger] groups@[k]@.len()
                        == self.num_individuals_per_parents,
                forall|k: int, m: int|
                    0 <= k < groups@.len() && 0 <= m < groups@[k]@.len() ==> genome_in_pool(
                        pool@,
                        #[trigger] groups@[k]@[m]@,
                    ),
            decreases num_parents - g,
        {
            let mut tuple: Vec<Vec<V>> = Vec::new();
            let mut m: usize = 0;
            while m < self.num_individuals_per_parents
                invariant
                    tuple@.len() == m,
                    m <= self.num_individuals_per_parents,
                    wd.wf(),
                    wd.values@ == pool@,
                    pool@.len() > 0,
                    forall|j: int|
                        0 <= j < tuple@.len() ==> genome_in_pool(pool@, #[trigger] tuple@[j]@),
                decreases self.num_individuals_per_parents - m,
            {
                let sum = wd.sum();
                let pointer = if sum > 0 {
                    draw_below(rng, 0, sum)
                } else {
                    0
                };
                let idx = wd.select(pointer);
                let chosen = copy_genome(&pool[idx].genome);
                proof {
                    assert(chosen@ == pool@[idx as int].genome@);
                }
                tuple.push(chosen);
                m = m + 1;
            }
            groups.push(tuple);
            g = g + 1;
        }
        groups
    }
}

/// Selects the fittest fraction of the population as parents: individuals
/// are ordered by descending fitness (ties keep their original order, so a
/// run is reproducible for a fixed seed), truncated to `selection_ratio`
/// of the population, and partitioned into groups of the configured arity.
#[derive(Clone, Copy)]
pub struct MaximizeSelector {
    /// Fraction of the population selected as parents, scaled by
    /// [`RATE_SCALE`].
    pub selection_ratio: u64,
    /// The arity of every parent group.
    pub num_individuals_per_parents: usize,
}

impl MaximizeSelector {
    /// Builds the selector with the given ratio and group arity.
    pub fn new(selection_ratio: u64, num_individuals_per_parents: usize) -> (s: Self)
        requires
            valid_rate(selection_ratio),
            num_individuals_per_parents >= 1,
        ensures
            s.selection_ratio == selection_ratio,
            s.num_individuals_per_parents == num_individuals_per_parents,
    {
        MaximizeSelector { selection_ratio, num_individuals_per_parents }
    }
}

impl GeneticOperator for MaximizeSelector {
    fn name(&self) -> String {
        "Maximizing-Selection".to_string()
    }
}

impl<V: Copy> SelectionOp<Vec<V>> for MaximizeSelector {
    open spec fn selection_wf(&self) -> bool {
        &&& valid_rate(self.selection_ratio)
        &&& self.num_individuals_per_parents >= 1
    }

    open spec fn parents_arity(&self) -> int {
        self.num_individuals_per_parents as int
    }

    open spec fn num_groups(&self, pool_len: int) -> int {
        ((pool_len * self.selection_ratio + RATE_SCALE / 2) / (RATE_SCALE as int)) / (
        self.num_individuals_per_parents as int)
    }

    open spec fn select_requires(&self, pool: Seq<EvaluatedIndividual<Vec<V>>>) -> bool {
        &&& pool.len() > 0
        &&& pool.len() * RATE_SCALE + RATE_SCALE <= u64::MAX
    }

    open spec fn members_of(
        &self,
        pool: Seq<EvaluatedIndividual<Vec<V>>>,
        groups: Seq<Vec<Vec<V>>>,
    ) -> bool {
        &&& forall|g: int, m: int|
            0 <= g < groups.len() && 0 <= m < groups[g]@.len() ==> genome_in_pool(
                pool,
                #[trigger] groups[g]@[m]@,
            )
        &&& groups.len() > 0 ==> groups[0]@.len() > 0 && (exists|i: int|
            0 <= i < pool.len() && groups[0]@[0]@ == (#[trigger] pool[i]).genome@
                && crate::reinsertion::fitness_dominates(pool, pool[i].fitness))
    }

    fn select(&self, pool: &Vec<EvaluatedIndividual<Vec<V>>>, _rng: &mut RandomSource) -> (groups:
        Vec<Vec<Vec<V>>>) {
        let pool_len = pool.len();
        proof {
            let p = pool_len as int;
            let r = self.selection_ratio as int;
            let sc = RATE_SCALE as int;
            assert(p * r <= p * sc) by (nonlinear_arith)
                requires
                    0 <= p,
                    0 <= r <= sc,
            ;
            assert(p * r + sc / 2 < (p + 1) * sc) by (nonlinear_arith)
                requires
                    p * r <= p * sc,
                    sc > 1,
            ;
            assert((p * r + sc / 2) / sc <= p) by (nonlinear_arith)
                requires
                    0 <= p,
                    sc > 0,
                    0 <= p * r + sc / 2,
                    p * r + sc / 2 < (p + 1) * sc,
            ;
        }
        let num_selected = (((pool_len as u64) * self.selection_ratio + RATE_SCALE / 2)
            / RATE_SCALE) as usize;
        let arity = self.num_individuals_per_parents;
        let num_groups = num_selected / arity;
        proof {
            vstd::arithmetic::div_mod::lemma_fundamental_div_mod(
                num_selected as int,
                arity as int,
            );
            assert((arity as int) * ((num_selected as int) / (arity as int)) == ((
            num_selected as int) / (arity as int)) * (arity as int)) by (nonlinear_arith);
        }
        let idxs = crate::reinsertion::sort_indices_by_fitness_desc(pool);
        proof {
            assert forall|j: int|
                0 <= j < pool@.len() implies (#[trigger] pool@[j]).fitness
                <= pool@[idxs@[0] as int].fitness by {
                assert(idxs@.contains(j as usize));
                let p = choose|p: int| 0 <= p < idxs@.len() && idxs@[p] == j as usize;
                assert(pool@[idxs@[0] as int].fitness >= pool@[idxs@[p] as int].fitness);
            }
        }
        let mut groups: Vec<Vec<Vec<V>>> = Vec::new();
        let mut g: usize = 0;
        let mut base: usize = 0;
        while g < num_groups
            invariant
                g <= num_groups,
                arity == self.num_individuals_per_parents,
                arity >= 1,
                base == g * arity,
                (num_groups as int) * (arity as int) <= num_selected,
                num_selected <= pool_len,
                pool_len == pool@.len(),
                pool@.len() > 0,
                idxs@.len() == pool@.len(),
                forall|i: int| 0 <= i < idxs@.len() ==> (#[trigger] idxs@[i]) < pool@.len(),
                crate::reinsertion::fitness_dominates(pool@, pool@[idxs@[0] as int].fitness),
                groups@.len() == g,
                forall|k: int| 0 <= k < groups@.len() ==> #[trigger] groups@[k]@.len() == arity,
                forall|k: int, m: int|
                    0 <= k < groups@.len() && 0 <= m < groups@[k]@.len() ==> genome_in_pool(
                        pool@,
                        #[trigger] groups@[k]@[m]@,
                    ),
                groups@.len() > 0 ==> groups@[0]@.len() > 0 && groups@[0]@[0]@ == pool@[idxs@[0] as int].genome@,
            decreases num_groups - g,
        {
            proof {
                assert((g as int + 1) * (arity as int) <= (num_groups as int) * (
                arity as int)) by (nonlinear_arith)
                    requires
                        0 <= arity,
                        g + 1 <= num_groups,
                ;
                assert((g as int) * (arity as int) + arity == (g as int + 1) * (
                arity as int)) by (nonlinear_arith);
            }
            let mut tuple: Vec<Vec<V>> = Vec::new();
            let mut m: usize = 0;
            while m < arity
                invariant
                    m <= arity,
                    tuple@.len() == m,
                    base + arity <= num_selected,
                    num_selected <= pool_len,
                    pool_len == pool@.len(),
                    idxs@.len() == pool@.len(),
                    forall|i: int| 0 <= i < idxs@.len() ==> (#[trigger] idxs@[i]) < pool@.len(),
                    forall|j: int|
                        0 <= j < tuple@.len() ==> genome_in_pool(pool@, #[trigger] tuple@[j]@),
                    base == 0 && m > 0 ==> tuple@[0]@ == pool@[idxs@[0] as int].genome@,
                decreases arity - m,
            {
                let idx = idxs[base + m];
                let chosen = copy_genome(&pool[idx].genome);
                proof {
                    assert(chosen@ == pool@[idx as int].genome@);
                }
                tuple.push(chosen);
                m = m + 1;
            }
            groups.push(tuple);
            base = base + arity;
            g = g + 1;
        }
        proof {
            if groups@.len() > 0 {
                let i0 = idxs@[0] as int;
                assert(0 <= i0 < pool@.len());
                assert(groups@[0]@[0]@ == pool@[i0].genome@);
                assert(crate::reinsertion::fitness_dominates(pool@, pool@[i0].fitness));
            }
        }
        groups
    }
}

/// The selection strategy plugged into a simulation: fitness-proportional
/// roulette-wheel selection or maximizing selection.
#[derive(Clone, Copy)]
pub enum SelectionStrategy {
    /// Fitness-proportional selection.
    RouletteWheel(RouletteWheelSelector),
    /// Fittest-first selection.
    Maximize(MaximizeSelector),
}

impl SelectionStrategy {
    /// The chosen strategy's own well-formedness: its ratio is a probability
    /// and its group arity is at least one.
    pub open spec fn wf_spec(self) -> bool {
        match self {
            SelectionStrategy::RouletteWheel(s) => valid_rate(s.selection_ratio)
                && s.num_individuals_per_parents >= 1,
            SelectionStrategy::Maximize(s) => valid_rate(s.selection_ratio)
                && s.num_individuals_per_parents >= 1,
        }
    }

    /// The arity of every parent group the chosen strategy produces.
    pub open spec fn arity_spec(self) -> int {
        match self {
            SelectionStrategy::RouletteWheel(s) => s.num_individuals_per_parents as int,
            SelectionStrategy::Maximize(s) => s.num_individuals_per_parents as int,
        }
    }

    /// How many parent groups the chosen strategy produces from a pool of the
    /// given size.
    pub open spec fn num_groups_spec(self, pool_len: int) -> int {
        match self {
            SelectionStrategy::RouletteWheel(s) => (pool_len * s.selection_ratio + RATE_SCALE / 2)
                / (RATE_SCALE as int),
            SelectionStrategy::Maximize(s) => ((pool_len * s.selection_ratio + RATE_SCALE / 2) / (
            RATE_SCALE as int)) / (s.num_individuals_per_parents as int),
        }
    }

    /// Selects parent groups from the evaluated population with the chosen
    /// strategy.
    pub fn select_parents<V: Copy>(
        &self,
        pool: &Vec<EvaluatedIndividual<Vec<V>>>,
        rng: &mut RandomSource,
    ) -> (groups: Vec<Vec<Vec<V>>>)
        requires
            self.wf_spec(),
            pool@.len() > 0,
            pool@.len() * RATE_SCALE + RATE_SCALE <= u64::MAX,
            scalar_prefix_sum(pool@, pool@.len() as int) <= u64::MAX,
        ensures
            groups@.len() == self.num_groups_spec(pool@.len() as int),
            forall|g: int|
                0 <= g < groups@.len() ==> #[trigger] groups@[g]@.len() == self.arity_spec(),
            forall|g: int, m: int|
                0 <= g < groups@.len() && 0 <= m < groups@[g]@.len() ==> genome_in_pool(
                    pool@,
                    #[trigger] groups@[g]@[m]@,
                ),
    {
        match self {
            SelectionStrategy::RouletteWheel(s) => s.select(pool, rng),
            SelectionStrategy::Maximize(s) => s.select(pool, rng),
        }
    }
}

} // verus!
