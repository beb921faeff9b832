//! Simulation errors and the step-wise simulator driving the operator
//! pipeline one generation at a time.

use vstd::prelude::*;
use crate::RATE_SCALE;
use crate::valid_rate;
use crate::genetic::AsScalar;
use crate::genetic::EvaluatedIndividual;
use crate::genetic::FitnessEvaluation;
use crate::genetic::copy_genome;
use crate::genetic::genome_in_pool;
use crate::mutation::OrderMutator;
use crate::operator::MutationOp;
use crate::operator::RecombinationOp;
use crate::operator::ReinsertionOp;
use crate::random::RandomSource;
use crate::random::lemma_scalar_prefix_sum_bounded;
use crate::recombination::MultiPointCrossBreeder;
use crate::reinsertion::ElitistReinserter;
use crate::reinsertion::individual_in_pool;
use crate::selection::SelectionStrategy;
use crate::termination::StepStats;
use crate::termination::Termination;
use crate::tracker::BestSolutionTracker;

verus! {

/// A typed simulation error. Operator execution faults are distinct from
/// usage faults so a caller can tell a malformed genome apart from stepping a
/// simulator that already terminated.
#[derive(Clone, Copy, PartialEq, Eq, Debug, Structural)]
pub enum SimError {
    /// An operator found the genome malformed for its strategy: too short for
    /// the requested operation.
    GenomeTooShort,
    /// `step` was called on a simulator that already reached a termination
    /// condition.
    SimulationAlreadyTerminated,
    /// The builder rejected the configuration: a rate outside `[0, 1]`, a
    /// population size mismatch, a genome too short for the plugged
    /// operators, or a size past the machine limits.
    InvalidConfiguration,
}

/// The result of one simulation step: an intermediate snapshot while the run
/// goes on, or a final snapshot with the reason termination triggered.
#[derive(Clone, Copy, PartialEq, Eq, Debug, Structural)]
pub enum StepResult {
    /// The run goes on: the generation just computed and the best fitness
    /// seen so far.
    Intermediate {
        /// The generation counter after the step.
        generation: u64,
        /// The best fitness seen so far.
        best_fitness: u64,
    },
    /// A termination condition fired after this step.
    Final {
        /// The generation counter after the step.
        generation: u64,
        /// The best fitness seen so far.
        best_fitness: u64,
        /// Why the run stopped.
        reason: crate::termination::StopReason,
    },
}

/// Evaluates every genome of a population: one evaluated individual per slot,
/// each carrying the evaluator's fitness for its genome.
fn evaluate_population<V: Copy, F: FitnessEvaluation<Vec<V>>>(
    evaluator: &F,
    population: &Vec<Vec<V>>,
) -> (pool: Vec<EvaluatedIndividual<Vec<V>>>)
    ensures
        pool@.len() == population@.len(),
        forall|i: int|
            0 <= i < pool@.len() ==> (#[trigger] pool@[i]).genome@ == population@[i]@
                && pool@[i].fitness == evaluator.fitness_spec(population@[i])
                && evaluator.lowest_spec() <= pool@[i].fitness <= evaluator.highest_spec(),
{
    let mut pool: Vec<EvaluatedIndividual<Vec<V>>> = Vec::new();
    let mut i: usize = 0;
    while i < population.len()
        invariant
            i <= population@.len(),
            pool@.len() == i,
            forall|j: int|
                0 <= j < pool@.len() ==> (#[trigger] pool@[j]).genome@ == population@[j]@
                    && pool@[j].fitness == evaluator.fitness_spec(population@[j])
                    && evaluator.lowest_spec() <= pool@[j].fitness <= evaluator.highest_spec(),
        decreases population@.len() - i,
    {
        let f = evaluator.fitness_of(&population[i]);
        pool.push(EvaluatedIndividual { genome: copy_genome(&population[i]), fitness: f });
        i = i + 1;
    }
    pool
}

/// The step-wise simulation state machine: it owns the population, the
/// operator pipeline, the termination condition and the random source, and
/// advances one generation per call to `step`.
pub struct Simulator<V, F> {
    /// The fitness evaluation supplied by the application.
    pub evaluator: F,
    /// The selection strategy.
    pub selector: SelectionStrategy,
    /// The recombination strategy.
    pub breeder: MultiPointCrossBreeder,
    /// The mutation strategy.
    pub mutator: OrderMutator,
    /// The reinsertion strategy.
    pub reinserter: ElitistReinserter,
    /// The composed stop condition.
    pub termination: Termination,
    /// The current population; replaced, not mutated in place, every step.
    pub population: Vec<Vec<V>>,
    /// The configured population size, constant across generations.
    pub population_size: usize,
    /// The common genome length, constant across generations.
    pub genome_length: usize,
    /// The generation counter; starts at 0 and increments each step.
    pub generation: u64,
    /// The best solution seen across all generations.
    pub tracker: BestSolutionTracker<V>,
    /// Whether a termination condition fired (or an operator fault stopped
    /// the run).
    pub finished: bool,
    /// The random source driving all sampling.
    pub rng: RandomSource,
}

impl<V: Copy, F: FitnessEvaluation<Vec<V>>> Simulator<V, F> {
    /// The simulator's invariant: the population has the configured size,
    /// every genome has the common length, every configured rate is a
    /// probability, the genome is long enough for the plugged operators, and
    /// the configured sizes stay inside machine limits.
    pub open spec fn wf(self) -> bool {
        &&& self.population_size > 0
        &&& self.population@.len() == self.population_size
        &&& self.genome_length >= 4
        &&& forall|i: int|
            0 <= i < self.population@.len() ==> (#[trigger] self.population@[i])@.len()
                == self.genome_length
        &&& self.selector.wf_spec()
        &&& self.breeder.num_cut_points >= 1
        &&& self.genome_length >= 2 * self.breeder.num_cut_points
        &&& valid_rate(self.mutator.rate_spec())
        &&& valid_rate(self.reinserter.reinsertion_ratio)
        &&& self.genome_length * RATE_SCALE + RATE_SCALE <= u64::MAX
        &&& self.population_size * RATE_SCALE + RATE_SCALE <= u64::MAX
        &&& self.population_size * self.evaluator.highest_spec() <= u64::MAX
    }

    /// Whether a configuration is accepted by the builder: exactly the
    /// conditions of the simulator invariant, checked on the initial
    /// population.
    pub open spec fn valid_config(
        evaluator: F,
        selector: SelectionStrategy,
        breeder: MultiPointCrossBreeder,
        mutator: OrderMutator,
        reinserter: ElitistReinserter,
        initial_population: Seq<Vec<V>>,
        population_size: int,
    ) -> bool {
        &&& population_size > 0
        &&& initial_population.len() == population_size
        &&& initial_population[0]@.len() >= 4
        &&& forall|i: int|
            0 <= i < initial_population.len() ==> (#[trigger] initial_population[i])@.len()
                == initial_population[0]@.len()
        &&& selector.wf_spec()
        &&& breeder.num_cut_points >= 1
        &&& initial_population[0]@.len() >= 2 * breeder.num_cut_points
        &&& valid_rate(mutator.rate_spec())
        &&& valid_rate(reinserter.reinsertion_ratio)
        &&& initial_population[0]@.len() * RATE_SCALE + RATE_SCALE <= u64::MAX
        &&& population_size * RATE_SCALE + RATE_SCALE <= u64::MAX
        &&& population_size * evaluator.highest_spec() <= u64::MAX
    }

    /// Validates the configuration and builds a runnable simulator, or fails
    /// fast with a configuration fault so that no invalid configuration ever
    /// reaches a running simulator.
    pub fn build(
        evaluator: F,
        selector: SelectionStrategy,
        breeder: MultiPointCrossBreeder,
        mutator: OrderMutator,
        reinserter: ElitistReinserter,
        termination: Termination,
        initial_population: Vec<Vec<V>>,
        population_size: usize,
        rng: RandomSource,
    ) -> (r: Result<Self, SimError>)
        ensures
            r is Ok <==> Self::valid_config(
                evaluator,
                selector,
                breeder,
                mutator,
                reinserter,
                initial_population@,
                population_size as int,
            ),
            r matches Ok(sim) ==> sim.wf() && sim.generation == 0 && !sim.finished
                && sim.population@ == initial_population@ && sim.population_size == population_size
                && sim.termination == termination && sim.tracker.best is None && sim.evaluator
                == evaluator && sim.selector == selector && sim.breeder == breeder && sim.mutator
                == mutator && sim.reinserter == reinserter,
    {
        if population_size == 0 || initial_population.len() != population_size {
            return Err(SimError::InvalidConfiguration);
        }
        let genome_length = initial_population[0].len();
        if genome_length < 4 {
            return Err(SimError::InvalidConfiguration);
        }
        let mut i: usize = 1;
        while i < initial_population.len()
            invariant
                1 <= i <= initial_population@.len(),
                genome_length == initial_population@[0]@.len(),
                forall|j: int|
                    0 <= j < i ==> (#[trigger] initial_population@[j])@.len() == genome_length,
            decreases initial_population@.len() - i,
        {
            if initial_population[i].len() != genome_length {
                return Err(SimError::InvalidConfiguration);
            }
            i = i + 1;
        }
        let (selection_ratio, parents_arity) = match selector {
            SelectionStrategy::RouletteWheel(s) => (s.selection_ratio, s.num_individuals_per_parents),
            SelectionStrategy::Maximize(s) => (s.selection_ratio, s.num_individuals_per_parents),
        };
        if selection_ratio > RATE_SCALE || parents_arity < 1 {
            return Err(SimError::InvalidConfiguration);
        }
        if breeder.num_cut_points < 1 || genome_length / 2 < breeder.num_cut_points {
            return Err(SimError::InvalidConfiguration);
        }
        if mutator.mutation_rate() > RATE_SCALE {
            return Err(SimError::InvalidConfiguration);
        }
        if reinserter.reinsertion_ratio > RATE_SCALE {
            return Err(SimError::InvalidConfiguration);
        }
        let scale_wide = RATE_SCALE as u128;
        let max_wide = u64::MAX as u128;
        if (genome_length as u128) * scale_wide + scale_wide > max_wide {
            return Err(SimError::InvalidConfiguration);
        }
        if (population_size as u128) * scale_wide + scale_wide > max_wide {
            return Err(SimError::InvalidConfiguration);
        }
        let highest = evaluator.highest_possible_fitness();
        proof {
            let p = population_size as int;
            let h = highest as int;
            let m = u64::MAX as int;
            if h > 0 {
                vstd::arithmetic::div_mod::lemma_fundamental_div_mod(m, h);
                if p <= m / h {
                    assert(p * h <= (m / h) * h) by (nonlinear_arith)
                        requires
                            0 <= h,
                            0 <= p <= m / h,
                    ;
                    assert((m / h) * h <= m) by (nonlinear_arith)
                        requires
                            m == h * (m / h) + m % h,
                            m % h >= 0,
                    ;
                } else {
                    assert(p * h >= (m / h + 1) * h) by (nonlinear_arith)
                        requires
                            0 <= h,
                            p >= m / h + 1,
                    ;
                    assert((m / h + 1) * h > m) by (nonlinear_arith)
                        requires
                            m == h * (m / h) + m % h,
                            m % h < h,
                            h > 0,
                    ;
                }
            }
        }
        if highest > 0 && (population_size as u64) > u64::MAX / highest {
            return Err(SimError::InvalidConfiguration);
        }
        Ok(
            Simulator {
                evaluator,
                selector,
                breeder,
                mutator,
                reinserter,
                termination,
                population: initial_population,
                population_size,
                genome_length,
                generation: 0,
                tracker: BestSolutionTracker::new(),
                finished: false,
                rng,
            },
        )
    }

    /// Advances the simulation by exactly one generation: evaluate the
    /// population, select parents, recombine, mutate, evaluate the offspring,
    /// reinsert into a population of the configured size, update the best
    /// solution, and check the termination condition. Returns an intermediate
    /// snapshot while the run goes on and a final snapshot with the stop
    /// reason once the condition triggers; stepping a terminated simulator is
    /// a usage fault.
    pub fn step(&mut self) -> (r: Result<StepResult, SimError>)
        requires
            old(self).wf(),
            old(self).generation < u64::MAX,
        ensures
            final(self).wf(),
            final(self).generation >= old(self).generation,
            old(self).finished ==> r == Err::<StepResult, SimError>(
                SimError::SimulationAlreadyTerminated,
            ) && *final(self) == *old(self),
            !old(self).finished ==> ({
                let stats = StepStats {
                    generation: (old(self).generation + 1) as u64,
                    best_fitness: final(self).tracker.best_fitness_spec() as u64,
                };
                &&& r is Ok
                &&& final(self).generation == old(self).generation + 1
                &&& final(self).population_size == old(self).population_size
                &&& final(self).genome_length == old(self).genome_length
                &&& final(self).termination == old(self).termination
                &&& final(self).tracker.best is Some
                &&& final(self).tracker.best_fitness_spec()
                    >= old(self).tracker.best_fitness_spec()
                &&& forall|i: int|
                    0 <= i < old(self).population@.len()
                        ==> final(self).tracker.best_fitness_spec()
                        >= old(self).evaluator.fitness_spec(#[trigger] old(self).population@[i])
                &&& final(self).finished == old(self).termination.triggered(stats)
                &&& (r matches Ok(sr) ==> sr == (if old(self).termination.triggered(stats) {
                    (StepResult::Final {
                        generation: (old(self).generation + 1) as u64,
                        best_fitness: stats.best_fitness,
                        reason: old(self).termination.reason_spec(stats),
                    })
                } else {
                    (StepResult::Intermediate {
                        generation: (old(self).generation + 1) as u64,
                        best_fitness: stats.best_fitness,
                    })
                }))
            }),
    {
        if self.finished {
            return Err(SimError::SimulationAlreadyTerminated);
        }
        let genome_length = self.genome_length;
        let population_size = self.population_size;
        let selector = self.selector;
        let breeder = self.breeder;
        let mutator = self.mutator;
        let reinserter = self.reinserter;
        // evaluate the current population
        let evaluated = evaluate_population(&self.evaluator, &self.population);
        proof {
            assert forall|i: int| 0 <= i < evaluated@.len() implies (
            #[trigger] evaluated@[i]).as_scalar_spec() <= self.evaluator.highest_spec() by {
                assert(evaluated@[i].fitness <= self.evaluator.highest_spec());
            }
            lemma_scalar_prefix_sum_bounded(
                evaluated@,
                evaluated@.len() as int,
                self.evaluator.highest_spec() as int,
            );
            assert((evaluated@.len() as int) * (self.evaluator.highest_spec() as int) <= (
            self.population_size as int) * (self.evaluator.highest_spec() as int));
        }
        // select parent groups
        let groups = selector.select_parents(&evaluated, &mut self.rng);
        // recombine each group and mutate every offspring genome
        let mut offspring_genomes: Vec<Vec<V>> = Vec::new();
        let mut gi: usize = 0;
        while gi < groups.len()
            invariant
                self.generation == old(self).generation,
                self.selector == old(self).selector,
                self.breeder == old(self).breeder,
                self.mutator == old(self).mutator,
                self.reinserter == old(self).reinserter,
                self.finished == false,
                self.population_size == old(self).population_size,
                self.genome_length == old(self).genome_length,
                self.termination == old(self).termination,
                self.tracker == old(self).tracker,
                self.evaluator == old(self).evaluator,
                self.population == old(self).population,
                self.generation < u64::MAX,
                gi <= groups@.len(),
                genome_length >= 4,
                genome_length * RATE_SCALE + RATE_SCALE <= u64::MAX,
                valid_rate(mutator.rate_spec()),
                breeder.num_cut_points >= 1,
                genome_length >= 2 * breeder.num_cut_points,
                forall|k: int|
                    0 <= k < groups@.len() ==> #[trigger] groups@[k]@.len()
                        == selector.arity_spec(),
                selector.arity_spec() >= 1,
                forall|k: int, m: int|
                    0 <= k < groups@.len() && 0 <= m < groups@[k]@.len() ==> genome_in_pool(
                        evaluated@,
                        #[trigger] groups@[k]@[m]@,
                    ),
                forall|i: int|
                    0 <= i < evaluated@.len() ==> (#[trigger] evaluated@[i]).genome@.len()
                        == genome_length,
                forall|i: int|
                    0 <= i < offspring_genomes@.len() ==> (
                    #[trigger] offspring_genomes@[i])@.len() == genome_length,
            decreases groups@.len() - gi,
        {
            proof {
                assert forall|m: int| 0 <= m < groups@[gi as int]@.len() implies (
                #[trigger] groups@[gi as int]@[m])@.len() == genome_length by {
                    assert(genome_in_pool(evaluated@, groups@[gi as int]@[m]@));
                    let w = choose|i: int|
                        0 <= i < evaluated@.len() && groups@[gi as int]@[m]@ == (
                        #[trigger] evaluated@[i]).genome@;
                    assert(evaluated@[w].genome@.len() == genome_length);
                }
            }
            let children = match breeder.recombine(&groups[gi], &mut self.rng) {
                Ok(c) => c,
                Err(e) => {
                    self.finished = true;
                    return Err(e);
                },
            };
            let mut ci: usize = 0;
            while ci < children.len()
                invariant
                    self.generation == old(self).generation,
                    self.selector == old(self).selector,
                    self.breeder == old(self).breeder,
                    self.mutator == old(self).mutator,
                    self.reinserter == old(self).reinserter,
                    self.finished == false,
                    self.population_size == old(self).population_size,
                    self.genome_length == old(self).genome_length,
                    self.termination == old(self).termination,
                    self.tracker == old(self).tracker,
                    self.evaluator == old(self).evaluator,
                    self.population == old(self).population,
                    self.generation < u64::MAX,
                    ci <= children@.len(),
                    genome_length >= 4,
                    genome_length * RATE_SCALE + RATE_SCALE <= u64::MAX,
                    valid_rate(mutator.rate_spec()),
                    forall|c: int|
                        0 <= c < children@.len() ==> (#[trigger] children@[c])@.len()
                            == genome_length,
                    forall|i: int|
                        0 <= i < offspring_genomes@.len() ==> (
                        #[trigger] offspring_genomes@[i])@.len() == genome_length,
                decreases children@.len() - ci,
            {
                let child = copy_genome(&children[ci]);
                let mutated = match mutator.mutate_genome(child, &mut self.rng) {
                    Ok(m) => m,
                    Err(e) => {
                        self.finished = true;
                        return Err(e);
                    },
                };
                offspring_genomes.push(mutated);
                ci = ci + 1;
            }
            gi = gi + 1;
        }
        // evaluate the offspring
        let offspring = evaluate_population(&self.evaluator, &offspring_genomes);
        // track the best solution over current population and offspring
        let new_generation = self.generation + 1;
        self.tracker.consider_all(&evaluated, new_generation);
        self.tracker.consider_all(&offspring, new_generation);
        proof {
            assert forall|i: int|
                0 <= i < old(self).population@.len() implies self.tracker.best_fitness_spec()
                >= old(self).evaluator.fitness_spec(#[trigger] old(self).population@[i]) by {
                assert(evaluated@[i].fitness == old(self).evaluator.fitness_spec(
                    old(self).population@[i],
                ));
                assert(self.tracker.best_fitness_spec() >= evaluated@[i].fitness);
            }
        }
        // reinsert into the next generation of the configured size
        let next = reinserter.reinsert(&evaluated, &offspring, population_size, &mut self.rng);
        let mut new_population: Vec<Vec<V>> = Vec::new();
        let mut ni: usize = 0;
        while ni < next.len()
            invariant
                ni <= next@.len(),
                new_population@.len() == ni,
                forall|i: int|
                    0 <= i < next@.len() ==> individual_in_pool(evaluated@, #[trigger] next@[i])
                        || individual_in_pool(offspring@, next@[i]),
                forall|i: int|
                    0 <= i < evaluated@.len() ==> (#[trigger] evaluated@[i]).genome@.len()
                        == genome_length,
                forall|i: int|
                    0 <= i < offspring@.len() ==> (#[trigger] offspring@[i]).genome@.len()
                        == genome_length,
                forall|i: int|
                    0 <= i < new_population@.len() ==> (#[trigger] new_population@[i])@.len()
                        == genome_length,
            decreases next@.len() - ni,
        {
            let g = copy_genome(&next[ni].genome);
            proof {
                if individual_in_pool(evaluated@, next@[ni as int]) {
                    let w = choose|i: int|
                        0 <= i < evaluated@.len() && next@[ni as int].genome@ == (
                        #[trigger] evaluated@[i]).genome@ && next@[ni as int].fitness
                            == evaluated@[i].fitness;
                    assert(evaluated@[w].genome@.len() == genome_length);
                } else {
                    let w = choose|i: int|
                        0 <= i < offspring@.len() && next@[ni as int].genome@ == (
                        #[trigger] offspring@[i]).genome@ && next@[ni as int].fitness
                            == offspring@[i].fitness;
                    assert(offspring@[w].genome@.len() == genome_length);
                }
            }
            new_population.push(g);
            ni = ni + 1;
        }
        self.population = new_population;
        self.generation = new_generation;
        // check the termination condition against the step's statistics
        let best_fitness = match self.tracker.best_fitness() {
            Some(f) => f,
            None => 0,
        };
        let stats = StepStats { generation: new_generation, best_fitness };
        let stop = self.termination.evaluate(&stats);
        match stop {
            Some(reason) => {
                self.finished = true;
                Ok(StepResult::Final { generation: new_generation, best_fitness, reason })
            },
            None => Ok(StepResult::Intermediate { generation: new_generation, best_fitness }),
        }
    }
}

} // verus!
