//! Multi-point crossover: cut points partition the genome, and the offspring
//! takes each segment from the parents in turn, cycling through the group.

use vstd::prelude::*;
use crate::operator::GeneticOperator;
use crate::operator::RecombinationOp;
use crate::random::RandomSource;
use crate::random::random_n_cut_points;
use crate::simulation::SimError;

verus! {

/// Crosses a parent group at `num_cut_points` cut points: the offspring walks
/// the genome and, at every cut boundary, switches to the next parent in the
/// group, so every gene comes from one of the parents at the same position.
/// Genome length is preserved.
#[derive(Clone, Copy)]
pub struct MultiPointCrossBreeder {
    /// How many cut points partition the genome.
    pub num_cut_points: usize,
}

impl MultiPointCrossBreeder {
    /// Builds the strategy with the given number of cut points.
    pub fn new(num_cut_points: usize) -> (c: Self)
        requires
            num_cut_points >= 1,
        ensures
            c.num_cut_points == num_cut_points,
    {
        MultiPointCrossBreeder { num_cut_points }
    }
}

impl GeneticOperator for MultiPointCrossBreeder {
    fn name(&self) -> String {
        "Multi-Point-Cross-Breeder".to_string()
    }
}

impl<V: Copy> RecombinationOp<Vec<V>> for MultiPointCrossBreeder {
    open spec fn recombination_wf(&self) -> bool {
        self.num_cut_points >= 1
    }

    open spec fn recombine_requires(&self, parents: Seq<Vec<V>>) -> bool {
        &&& parents.len() > 0
        &&& forall|p: int|
            0 <= p < parents.len() ==> #[trigger] parents[p]@.len() == parents[0]@.len()
        &&& parents[0]@.len() >= 2 * self.num_cut_points
    }

    open spec fn offspring_ok(&self, parents: Seq<Vec<V>>, offspring: Seq<Vec<V>>) -> bool {
        &&& offspring.len() == 1
        &&& parents.len() > 0
        &&& offspring[0]@.len() == parents[0]@.len()
        &&& forall|j: int|
            0 <= j < offspring[0]@.len() ==> exists|p: int|
                0 <= p < parents.len() && #[trigger] offspring[0]@[j] == parents[p]@[j]
    }

    fn recombine(&self, parents: &Vec<Vec<V>>, rng: &mut RandomSource) -> (r: Result<
        Vec<Vec<V>>,
        SimError,
    >) {
        let num_parents = parents.len();
        if num_parents == 0 {
            return Err(SimError::GenomeTooShort);
        }
        let genome_len = parents[0].len();
        let mut p: usize = 1;
        while p < num_parents
            invariant
                num_parents == parents@.len(),
                1 <= p <= num_parents,
                genome_len == parents@[0]@.len(),
                forall|q: int| 0 <= q < p ==> #[trigger] parents@[q]@.len() == genome_len,
            decreases num_parents - p,
        {
            if parents[p].len() != genome_len {
                return Err(SimError::GenomeTooShort);
            }
            p = p + 1;
        }
        if genome_len / 2 < self.num_cut_points {
            return Err(SimError::GenomeTooShort);
        }
        let cuts = random_n_cut_points(rng, self.num_cut_points, genome_len);
        let num_cuts = cuts.len();
        let mut child: Vec<V> = Vec::new();
        let mut which: usize = 0;
        let mut cut_idx: usize = 0;
        let mut j: usize = 0;
        while j < genome_len
            invariant
                num_parents == parents@.len(),
                num_parents > 0,
                genome_len == parents@[0]@.len(),
                forall|q: int| 0 <= q < num_parents ==> #[trigger] parents@[q]@.len() == genome_len,
                num_cuts == cuts@.len(),
                which < num_parents,
                cut_idx <= num_cuts,
                child@.len() == j,
                j <= genome_len,
                forall|k: int|
                    0 <= k < child@.len() ==> exists|p: int|
                        0 <= p < num_parents && #[trigger] child@[k] == parents@[p]@[k],
            decreases genome_len - j,
        {
            while cut_idx < num_cuts && cuts[cut_idx] <= j
                invariant
                    num_cuts == cuts@.len(),
                    cut_idx <= num_cuts,
                    which < num_parents,
                    num_parents > 0,
                decreases num_cuts - cut_idx,
            {
                which = (which + 1) % num_parents;
                cut_idx = cut_idx + 1;
            }
            let gene = parents[which][j];
            child.push(gene);
            proof {
                assert(child@[j as int] == parents@[which as int]@[j as int]);
            }
            j = j + 1;
        }
        let mut offspring: Vec<Vec<V>> = Vec::new();
        offspring.push(child);
        Ok(offspring)
    }
}

} // verus!
