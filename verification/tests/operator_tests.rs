use evo_core::RATE_SCALE;
use evo_core::genetic::EvaluatedIndividual;
use evo_core::genetic::GeneMatchEvaluator;
use evo_core::genetic::PopulationGenerator;
use evo_core::genetic::UniformGenomeGenerator;
use evo_core::genetic::FitnessEvaluation;
use evo_core::genetic::generate_population;
use evo_core::mutation::InsertOrderMutator;
use evo_core::mutation::OrderMutator;
use evo_core::mutation::SwapOrderMutator;
use evo_core::operator::GeneticOperator;
use evo_core::operator::MutationOp;
use evo_core::operator::RecombinationOp;
use evo_core::operator::ReinsertionOp;
use evo_core::operator::SelectionOp;
use evo_core::random::RandomSource;
use evo_core::recombination::MultiPointCrossBreeder;
use evo_core::reinsertion::ElitistReinserter;
use evo_core::selection::RouletteWheelSelector;
use evo_core::simulation::SimError;
use evo_core::tracker::BestSolutionTracker;

fn sorted(mut v: Vec<u64>) -> Vec<u64> {
    v.sort();
    v
}

#[test]
fn swap_mutation_preserves_gene_multiset() {
    let mut rng = RandomSource::from_seed(21);
    let mutator = SwapOrderMutator::new(RATE_SCALE);
    for len in 4usize..12 {
        let genome: Vec<u64> = (0..len as u64).map(|g| g % 5).collect();
        let mutated = mutator.mutate(genome.clone(), &mut rng).unwrap();
        assert_eq!(mutated.len(), genome.len());
        assert_eq!(sorted(mutated), sorted(genome));
    }
}

#[test]
fn insert_mutation_preserves_gene_multiset() {
    let mut rng = RandomSource::from_seed(22);
    let mutator = InsertOrderMutator::new(RATE_SCALE);
    for len in 4usize..12 {
        let genome: Vec<u64> = (0..len as u64).map(|g| 10 + g % 3).collect();
        let mutated = mutator.mutate(genome.clone(), &mut rng).unwrap();
        assert_eq!(mutated.len(), genome.len());
        assert_eq!(sorted(mutated), sorted(genome));
    }
}

#[test]
fn mutation_rate_zero_returns_genome_unchanged() {
    let mut rng = RandomSource::from_seed(23);
    let swap = SwapOrderMutator::new(0);
    let insert = InsertOrderMutator::new(0);
    let genome = vec![4u64, 3, 2, 1, 0];
    assert_eq!(swap.mutate(genome.clone(), &mut rng).unwrap(), genome);
    assert_eq!(insert.mutate(genome.clone(), &mut rng).unwrap(), genome);
}

#[test]
fn mutation_rejects_genome_too_short_for_cut_points() {
    let mut rng = RandomSource::from_seed(24);
    let swap = SwapOrderMutator::new(RATE_SCALE);
    let insert = InsertOrderMutator::new(RATE_SCALE);
    assert_eq!(swap.mutate(vec![1u64, 2, 3], &mut rng), Err(SimError::GenomeTooShort));
    assert_eq!(insert.mutate(vec![1u64, 2, 3], &mut rng), Err(SimError::GenomeTooShort));
    // an empty genome never needs a mutation event, so it passes through
    assert_eq!(swap.mutate(Vec::<u64>::new(), &mut rng), Ok(vec![]));
}

#[test]
fn mutation_rate_accessors_round_trip() {
    let mut m = SwapOrderMutator::new(1000);
    assert_eq!(m.mutation_rate(), 1000);
    m.set_mutation_rate(2000);
    assert_eq!(m.mutation_rate(), 2000);
    let mut i = InsertOrderMutator::new(500);
    assert_eq!(i.mutation_rate(), 500);
    i.set_mutation_rate(700);
    assert_eq!(i.mutation_rate(), 700);
}

#[test]
fn operator_names_are_stable() {
    assert_eq!(SwapOrderMutator::new(0).name(), "Order-Swap-Mutation");
    assert_eq!(InsertOrderMutator::new(0).name(), "Order-Insert-Mutation");
    assert_eq!(RouletteWheelSelector::new(0, 1).name(), "Roulette-Wheel-Selection");
    assert_eq!(MultiPointCrossBreeder::new(1).name(), "Multi-Point-Cross-Breeder");
    assert_eq!(ElitistReinserter::new(0).name(), "Elitist-Reinserter");
}

#[test]
fn roulette_selection_produces_configured_groups() {
    let mut rng = RandomSource::from_seed(25);
    let pool: Vec<EvaluatedIndividual<Vec<u64>>> = vec![
        EvaluatedIndividual { genome: vec![0, 0, 0, 0], fitness: 10 },
        EvaluatedIndividual { genome: vec![1, 1, 1, 1], fitness: 20 },
        EvaluatedIndividual { genome: vec![2, 2, 2, 2], fitness: 30 },
        EvaluatedIndividual { genome: vec![3, 3, 3, 3], fitness: 40 },
    ];
    let selector = RouletteWheelSelector::new(RATE_SCALE / 2, 2);
    let groups = selector.select(&pool, &mut rng);
    assert_eq!(groups.len(), 2);
    for group in &groups {
        assert_eq!(group.len(), 2);
        for member in group {
            assert!(pool.iter().any(|e| e.genome == *member));
        }
    }
}

#[test]
fn crossover_preserves_length_and_sources_genes_from_parents() {
    let mut rng = RandomSource::from_seed(26);
    let breeder = MultiPointCrossBreeder::new(2);
    let parents = vec![vec![0u64; 8], vec![1u64; 8]];
    let children = breeder.recombine(&parents, &mut rng).unwrap();
    assert_eq!(children.len(), 1);
    assert_eq!(children[0].len(), 8);
    for gene in &children[0] {
        assert!(*gene == 0 || *gene == 1);
    }
    // both parents contribute when a cut point falls inside the genome
    let mut saw_switch = false;
    for _ in 0..20 {
        let child = &breeder.recombine(&parents, &mut rng).unwrap()[0];
        if child.iter().any(|g| *g == 0) && child.iter().any(|g| *g == 1) {
            saw_switch = true;
        }
    }
    assert!(saw_switch);
}

#[test]
fn crossover_rejects_mismatched_parent_lengths() {
    let mut rng = RandomSource::from_seed(27);
    let breeder = MultiPointCrossBreeder::new(2);
    let parents = vec![vec![0u64; 8], vec![1u64; 6]];
    assert_eq!(breeder.recombine(&parents, &mut rng), Err(SimError::GenomeTooShort));
    let short = vec![vec![0u64; 3], vec![1u64; 3]];
    assert_eq!(breeder.recombine(&short, &mut rng), Err(SimError::GenomeTooShort));
}

fn pool_of(fitnesses: &[u64]) -> Vec<EvaluatedIndividual<Vec<u64>>> {
    fitnesses
        .iter()
        .map(|f| EvaluatedIndividual { genome: vec![*f, *f, *f, *f], fitness: *f })
        .collect()
}

#[test]
fn reinsertion_returns_exactly_the_configured_size() {
    let mut rng = RandomSource::from_seed(28);
    let reinserter = ElitistReinserter::new(RATE_SCALE / 2);
    let parents = pool_of(&[5, 9, 1, 7, 3]);
    // fewer offspring than slots, equal, and more
    for offspring_count in [0usize, 2, 5, 12] {
        let offspring = pool_of(&vec![4u64; offspring_count]);
        let next = reinserter.reinsert(&parents, &offspring, 5, &mut rng);
        assert_eq!(next.len(), 5);
    }
    // a smaller configured size is honored too
    let offspring = pool_of(&[4, 4]);
    let next = reinserter.reinsert(&parents, &offspring, 3, &mut rng);
    assert_eq!(next.len(), 3);
}

#[test]
fn reinsertion_keeps_the_best_individual() {
    let mut rng = RandomSource::from_seed(29);
    let reinserter = ElitistReinserter::new(RATE_SCALE);
    let parents = pool_of(&[5, 9, 1, 7, 3]);
    let offspring = pool_of(&[4, 8]);
    let next = reinserter.reinsert(&parents, &offspring, 5, &mut rng);
    assert!(next.iter().any(|e| e.fitness == 9));
}

#[test]
fn tracker_fitness_never_regresses() {
    let mut tracker: BestSolutionTracker<u64> = BestSolutionTracker::new();
    assert_eq!(tracker.best_fitness(), None);
    let mut last: u64 = 0;
    for (generation, fitness) in [(1u64, 5u64), (2, 3), (3, 8), (4, 8), (5, 2)] {
        let candidate = EvaluatedIndividual { genome: vec![fitness], fitness };
        tracker.consider(&candidate, generation);
        let now = tracker.best_fitness().unwrap();
        assert!(now >= last);
        assert!(now >= fitness);
        last = now;
    }
    assert_eq!(tracker.best_fitness(), Some(8));
    assert_eq!(tracker.generation_found, 3);
}

#[test]
fn gene_match_evaluator_counts_matches() {
    let evaluator = GeneMatchEvaluator { target: 1, genome_length: 6 };
    assert_eq!(evaluator.fitness_of(&vec![1, 0, 1, 1, 0, 0]), 3);
    assert_eq!(evaluator.fitness_of(&vec![0, 0, 0, 0, 0, 0]), 0);
    assert_eq!(evaluator.fitness_of(&vec![1, 1, 1, 1, 1, 1]), 6);
    assert_eq!(evaluator.highest_possible_fitness(), 6);
    assert_eq!(evaluator.lowest_possible_fitness(), 0);
    assert_eq!(evaluator.average(&vec![2, 4, 9]), 5);
}

#[test]
fn uniform_generator_builds_population_of_requested_size() {
    let mut rng = RandomSource::from_seed(30);
    let generator = UniformGenomeGenerator { genome_length: 6, min_value: 0, max_value: 2 };
    let population = generate_population(&generator, 8, &mut rng);
    assert_eq!(population.len(), 8);
    for genome in &population {
        assert_eq!(genome.len(), 6);
        for gene in genome {
            assert!(*gene < 2);
        }
    }
    let single = generator.generate_genotype(&mut rng);
    assert_eq!(single.len(), 6);
}

#[test]
fn value_mutation_redraws_genes_inside_the_range() {
    let mut rng = RandomSource::from_seed(32);
    let mutator = evo_core::mutation::RandomValueMutator::new(RATE_SCALE, 10, 20);
    let genome = vec![0u64; 32];
    let mutated = mutator.mutate(genome.clone(), &mut rng).unwrap();
    assert_eq!(mutated.len(), 32);
    for gene in &mutated {
        assert!(*gene == 0 || (*gene >= 10 && *gene <= 20));
    }
    // with a rate of one whole, at least one gene is redrawn over 32 slots
    assert!(mutated.iter().any(|g| *g >= 10));
    // a rate of zero leaves the genome untouched
    let keeper = evo_core::mutation::RandomValueMutator::new(0, 10, 20);
    assert_eq!(keeper.mutate(genome.clone(), &mut rng).unwrap(), genome);
}

#[test]
fn maximize_selection_picks_the_fittest_individuals() {
    let mut rng = RandomSource::from_seed(33);
    let pool: Vec<EvaluatedIndividual<Vec<u64>>> = vec![
        EvaluatedIndividual { genome: vec![0, 0, 0, 0], fitness: 1 },
        EvaluatedIndividual { genome: vec![1, 1, 1, 1], fitness: 100 },
        EvaluatedIndividual { genome: vec![2, 2, 2, 2], fitness: 2 },
        EvaluatedIndividual { genome: vec![3, 3, 3, 3], fitness: 50 },
    ];
    let selector = evo_core::selection::MaximizeSelector::new(RATE_SCALE / 2, 2);
    let groups = selector.select(&pool, &mut rng);
    assert_eq!(groups.len(), 1);
    assert_eq!(groups[0].len(), 2);
    assert_eq!(groups[0][0], vec![1, 1, 1, 1]);
    assert_eq!(groups[0][1], vec![3, 3, 3, 3]);
    assert_eq!(selector.name(), "Maximizing-Selection");
}

#[test]
fn order_mutator_enum_delegates() {
    let mut rng = RandomSource::from_seed(31);
    let m = OrderMutator::Swap(SwapOrderMutator::new(RATE_SCALE));
    assert_eq!(m.mutation_rate(), RATE_SCALE);
    let genome = vec![1u64, 2, 3, 4, 5];
    let mutated = m.mutate_genome(genome.clone(), &mut rng).unwrap();
    assert_eq!(sorted(mutated), sorted(genome));
}
