//! The operator capability contracts: every pluggable strategy in the
//! pipeline (selection, recombination, mutation, reinsertion) satisfies one of
//! these traits, and the simulator is generic over which concrete strategy is
//! plugged in at each stage.

use vstd::prelude::*;
use crate::genetic::EvaluatedIndividual;
use crate::random::RandomSource;
use crate::simulation::SimError;

verus! {

/// Common to every genetic operator: a human-readable strategy name.
pub trait GeneticOperator {
    /// The name of this operator strategy.
    fn name(&self) -> String;
}

/// A mutation strategy: perturbs a single genome at random.
pub trait MutationOp<G> {
    /// When the operator accepts an input genome: the operator's own
    /// well-formedness plus any machine limit on the genome size.
    spec fn mutate_requires(&self, genome: G) -> bool;

    /// What every successful mutation guarantees about the output genome in
    /// terms of the input.
    spec fn mutation_ok(&self, input: G, output: G) -> bool;

    /// Inputs on which mutation is guaranteed to succeed.
    spec fn mutate_succeeds(&self, genome: G) -> bool;

    /// Mutates one genome, or fails with a simulation error when the genome is
    /// malformed for the strategy.
    fn mutate(&self, genome: G, rng: &mut RandomSource) -> (r: Result<G, SimError>)
        requires
            self.mutate_requires(genome),
        ensures
            r matches Ok(m) ==> self.mutation_ok(genome, m),
            self.mutate_succeeds(genome) ==> r is Ok,
    ;
}

/// A selection strategy: picks parent groups out of the evaluated population.
pub trait SelectionOp<G> {
    /// The operator's own well-formedness.
    spec fn selection_wf(&self) -> bool;

    /// The arity of every produced parent group.
    spec fn parents_arity(&self) -> int;

    /// How many parent groups are produced from a pool of the given size.
    spec fn num_groups(&self, pool_len: int) -> int;

    /// When the operator accepts an evaluated population.
    spec fn select_requires(&self, pool: Seq<EvaluatedIndividual<G>>) -> bool;

    /// Every genome of every group is a member of the pool.
    spec fn members_of(&self, pool: Seq<EvaluatedIndividual<G>>, groups: Seq<Vec<G>>) -> bool;

    /// Selects parent groups from the evaluated population: the configured
    /// number of groups, each of exactly the configured arity, every member
    /// drawn from the pool.
    fn select(&self, pool: &Vec<EvaluatedIndividual<G>>, rng: &mut RandomSource) -> (groups: Vec<
        Vec<G>,
    >)
        requires
            self.selection_wf(),
            self.select_requires(pool@),
        ensures
            groups@.len() == self.num_groups(pool@.len() as int),
            forall|g: int|
                0 <= g < groups@.len() ==> #[trigger] groups@[g]@.len() == self.parents_arity(),
            self.members_of(pool@, groups@),
    ;
}

/// A recombination (crossover) strategy: combines one parent group into one
/// or more offspring genomes.
pub trait RecombinationOp<G> {
    /// The operator's own well-formedness.
    spec fn recombination_wf(&self) -> bool;

    /// When the operator accepts a parent group.
    spec fn recombine_requires(&self, parents: Seq<G>) -> bool;

    /// What every successful recombination guarantees about the offspring.
    spec fn offspring_ok(&self, parents: Seq<G>, offspring: Seq<G>) -> bool;

    /// Produces offspring from one parent group, or fails with a simulation
    /// error when the group is malformed for the strategy.
    fn recombine(&self, parents: &Vec<G>, rng: &mut RandomSource) -> (r: Result<Vec<G>, SimError>)
        requires
            self.recombination_wf(),
        ensures
            r matches Ok(children) ==> self.offspring_ok(parents@, children@),
            self.recombine_requires(parents@) ==> r is Ok,
    ;
}

/// A reinsertion strategy: merges offspring and the previous generation into
/// the next generation of exactly the configured population size.
pub trait ReinsertionOp<G> {
    /// The operator's own well-formedness.
    spec fn reinsertion_wf(&self) -> bool;

    /// When the operator accepts the old generation and the offspring.
    spec fn reinsert_requires(
        &self,
        parents: Seq<EvaluatedIndividual<G>>,
        offspring: Seq<EvaluatedIndividual<G>>,
    ) -> bool;

    /// Every member of the next generation comes from the parents or the
    /// offspring.
    spec fn next_generation_ok(
        &self,
        parents: Seq<EvaluatedIndividual<G>>,
        offspring: Seq<EvaluatedIndividual<G>>,
        next: Seq<EvaluatedIndividual<G>>,
    ) -> bool;

    /// Builds the next generation. Its size is always exactly `size`,
    /// regardless of how many offspring recombination produced.
    fn reinsert(
        &self,
        parents: &Vec<EvaluatedIndividual<G>>,
        offspring: &Vec<EvaluatedIndividual<G>>,
        size: usize,
        rng: &mut RandomSource,
    ) -> (next: Vec<EvaluatedIndividual<G>>)
        requires
            self.reinsertion_wf(),
            self.reinsert_requires(parents@, offspring@),
            parents@.len() >= size,
        ensures
            next@.len() == size,
            self.next_generation_ok(parents@, offspring@, next@),
    ;
}

} // verus!
