//! Tracking of the best solution seen across all generations.

use vstd::prelude::*;
use crate::genetic::EvaluatedIndividual;
use crate::genetic::copy_genome;

verus! {

/// Holds the best evaluated individual seen across all generations, together
/// with the generation at which it was found. Updated monotonically: the
/// tracked fitness never regresses.
pub struct BestSolutionTracker<V> {
    /// The best individual seen so far, if any generation was processed.
    pub best: Option<EvaluatedIndividual<Vec<V>>>,
    /// The generation at which the best individual was found.
    pub generation_found: u64,
}

impl<V: Copy> BestSolutionTracker<V> {
    /// The tracked fitness: one less than any real fitness while nothing was
    /// seen, so that the first candidate always becomes the best.
    pub open spec fn best_fitness_spec(self) -> int {
        match self.best {
            Option::None => -1,
            Option::Some(e) => e.fitness as int,
        }
    }

    /// An empty tracker.
    pub fn new() -> (t: Self)
        ensures
            t.best is None,
            t.generation_found == 0,
    {
        BestSolutionTracker { best: None, generation_found: 0 }
    }

    /// Offers one candidate: it becomes the best exactly when it strictly
    /// improves on the tracked fitness; otherwise nothing changes. The tracked
    /// fitness never decreases.
    pub fn consider(&mut self, candidate: &EvaluatedIndividual<Vec<V>>, generation: u64)
        ensures
            final(self).best_fitness_spec() >= old(self).best_fitness_spec(),
            final(self).best_fitness_spec() >= candidate.fitness,
            final(self).best is Some,
            candidate.fitness > old(self).best_fitness_spec() ==> (final(self).best matches Some(b)
                && b.genome@ == candidate.genome@ && b.fitness == candidate.fitness)
                && final(self).generation_found == generation,
            candidate.fitness <= old(self).best_fitness_spec() ==> *final(self) == *old(self)
                && old(self).best is Some,
    {
        let improves = match &self.best {
            Option::None => true,
            Option::Some(e) => candidate.fitness > e.fitness,
        };
        if improves {
            self.best = Some(
                EvaluatedIndividual {
                    genome: copy_genome(&candidate.genome),
                    fitness: candidate.fitness,
                },
            );
            self.generation_found = generation;
        }
    }

    /// Offers every member of an evaluated pool. The tracked fitness never
    /// decreases and afterwards dominates the whole pool.
    pub fn consider_all(&mut self, pool: &Vec<EvaluatedIndividual<Vec<V>>>, generation: u64)
        ensures
            final(self).best_fitness_spec() >= old(self).best_fitness_spec(),
            forall|i: int|
                0 <= i < pool@.len() ==> final(self).best_fitness_spec() >= (
                #[trigger] pool@[i]).fitness,
            pool@.len() > 0 ==> final(self).best is Some,
            old(self).best is Some ==> final(self).best is Some,
    {
        let mut i: usize = 0;
        while i < pool.len()
            invariant
                i <= pool@.len(),
                self.best_fitness_spec() >= old(self).best_fitness_spec(),
                forall|j: int|
                    0 <= j < i ==> self.best_fitness_spec() >= (#[trigger] pool@[j]).fitness,
                i > 0 ==> self.best is Some,
                old(self).best is Some ==> self.best is Some,
            decreases pool@.len() - i,
        {
            self.consider(&pool[i], generation);
            i = i + 1;
        }
    }

    /// The tracked best fitness, or `None` while nothing was seen.
    pub fn best_fitness(&self) -> (f: Option<u64>)
        ensures
            f matches Some(v) ==> self.best is Some && v == self.best_fitness_spec(),
            f is None <==> self.best is None,
    {
        match &self.best {
            Option::None => None,
            Option::Some(e) => Some(e.fitness),
        }
    }
}

} // verus!
