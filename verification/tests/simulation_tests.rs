use evo_core::RATE_SCALE;
use evo_core::genetic::FitnessEvaluation;
use evo_core::genetic::GeneMatchEvaluator;
use evo_core::mutation::OrderMutator;
use evo_core::mutation::SwapOrderMutator;
use evo_core::random::RandomSource;
use evo_core::recombination::MultiPointCrossBreeder;
use evo_core::reinsertion::ElitistReinserter;
use evo_core::selection::MaximizeSelector;
use evo_core::selection::RouletteWheelSelector;
use evo_core::selection::SelectionStrategy;
use evo_core::simulation::SimError;
use evo_core::simulation::StepResult;
use evo_core::simulation::Simulator;
use evo_core::termination::StepStats;
use evo_core::termination::StopReason;
use evo_core::termination::Termination;

fn simulator_with(
    termination: Termination,
    population: Vec<Vec<u64>>,
) -> Simulator<u64, GeneMatchEvaluator> {
    let genome_length = population[0].len();
    let population_size = population.len();
    Simulator::build(
        GeneMatchEvaluator { target: 1, genome_length },
        SelectionStrategy::RouletteWheel(RouletteWheelSelector::new(RATE_SCALE / 2, 2)),
        MultiPointCrossBreeder::new(2),
        OrderMutator::Swap(SwapOrderMutator::new(RATE_SCALE / 10)),
        ElitistReinserter::new(RATE_SCALE / 2),
        termination,
        population,
        population_size,
        RandomSource::from_seed(99),
    )
    .unwrap()
}

fn mixed_population() -> Vec<Vec<u64>> {
    vec![
        vec![1, 0, 0, 1, 0, 0],
        vec![0, 1, 0, 0, 1, 0],
        vec![1, 1, 0, 0, 0, 0],
        vec![0, 0, 0, 0, 0, 1],
    ]
}

#[test]
fn run_stops_at_exactly_the_generation_limit() {
    let mut sim = simulator_with(Termination::GenerationLimit(5), mixed_population());
    for expected_generation in 1u64..5 {
        match sim.step().unwrap() {
            StepResult::Intermediate { generation, .. } => {
                assert_eq!(generation, expected_generation);
            },
            StepResult::Final { .. } => panic!("stopped before the generation limit"),
        }
    }
    match sim.step().unwrap() {
        StepResult::Final { generation, reason, .. } => {
            assert_eq!(generation, 5);
            assert_eq!(reason, StopReason::GenerationLimitReached);
        },
        StepResult::Intermediate { .. } => panic!("did not stop at the generation limit"),
    }
}

#[test]
fn run_stops_when_fitness_limit_is_reached() {
    // one individual already carries the highest possible fitness
    let population = vec![
        vec![1, 1, 1, 1, 1, 1],
        vec![0, 0, 0, 0, 0, 0],
        vec![1, 0, 0, 0, 0, 0],
        vec![0, 1, 0, 0, 0, 0],
    ];
    let evaluator = GeneMatchEvaluator { target: 1, genome_length: 6 };
    let mut sim = simulator_with(Termination::FitnessLimit(6), population);
    assert_eq!(sim.evaluator.highest_possible_fitness(), evaluator.highest_possible_fitness());
    match sim.step().unwrap() {
        StepResult::Final { generation, best_fitness, reason } => {
            assert_eq!(generation, 1);
            assert_eq!(best_fitness, 6);
            assert_eq!(reason, StopReason::FitnessLimitReached);
        },
        StepResult::Intermediate { .. } => panic!("did not stop at the fitness limit"),
    }
}

#[test]
fn stepping_a_terminated_simulator_is_a_usage_fault() {
    let mut sim = simulator_with(Termination::GenerationLimit(1), mixed_population());
    assert!(matches!(sim.step().unwrap(), StepResult::Final { .. }));
    assert_eq!(sim.step(), Err(SimError::SimulationAlreadyTerminated));
    assert_eq!(sim.step(), Err(SimError::SimulationAlreadyTerminated));
}

#[test]
fn best_fitness_never_regresses_across_generations() {
    let mut sim = simulator_with(Termination::GenerationLimit(12), mixed_population());
    let mut last: u64 = 0;
    loop {
        match sim.step().unwrap() {
            StepResult::Intermediate { best_fitness, .. } => {
                assert!(best_fitness >= last);
                last = best_fitness;
            },
            StepResult::Final { best_fitness, .. } => {
                assert!(best_fitness >= last);
                break;
            },
        }
    }
}

#[test]
fn population_size_stays_constant_across_generations() {
    let mut sim = simulator_with(Termination::GenerationLimit(6), mixed_population());
    loop {
        let done = matches!(sim.step().unwrap(), StepResult::Final { .. });
        assert_eq!(sim.population.len(), 4);
        for genome in &sim.population {
            assert_eq!(genome.len(), 6);
        }
        if done {
            break;
        }
    }
}

#[test]
fn builder_rejects_invalid_configurations() {
    let population = mixed_population();
    let build = |selection_ratio: u64,
                 mutation_rate: u64,
                 reinsertion_ratio: u64,
                 num_cut_points: usize,
                 population: Vec<Vec<u64>>,
                 population_size: usize| {
        Simulator::build(
            GeneMatchEvaluator { target: 1, genome_length: 6 },
            SelectionStrategy::RouletteWheel(RouletteWheelSelector { selection_ratio, num_individuals_per_parents: 2 }),
            MultiPointCrossBreeder { num_cut_points },
            OrderMutator::Swap(SwapOrderMutator { mutation_rate }),
            ElitistReinserter { reinsertion_ratio },
            Termination::GenerationLimit(3),
            population,
            population_size,
            RandomSource::from_seed(1),
        )
    };
    // a rate past one whole is rejected at each knob
    assert!(matches!(
        build(RATE_SCALE + 1, 0, 0, 2, population.clone(), 4),
        Err(SimError::InvalidConfiguration)
    ));
    assert!(matches!(
        build(0, RATE_SCALE + 1, 0, 2, population.clone(), 4),
        Err(SimError::InvalidConfiguration)
    ));
    assert!(matches!(
        build(0, 0, RATE_SCALE + 1, 2, population.clone(), 4),
        Err(SimError::InvalidConfiguration)
    ));
    // a population size mismatch is rejected
    assert!(matches!(
        build(0, 0, 0, 2, population.clone(), 5),
        Err(SimError::InvalidConfiguration)
    ));
    // a genome too short for the requested cut points is rejected
    assert!(matches!(
        build(0, 0, 0, 4, population.clone(), 4),
        Err(SimError::InvalidConfiguration)
    ));
    // unequal genome lengths are rejected
    let ragged = vec![vec![1, 0, 0, 1, 0, 0], vec![0, 1, 0]];
    assert!(matches!(build(0, 0, 0, 2, ragged, 2), Err(SimError::InvalidConfiguration)));
    // an empty population is rejected
    assert!(matches!(
        build(0, 0, 0, 2, Vec::new(), 0),
        Err(SimError::InvalidConfiguration)
    ));
    // the same knobs inside bounds are accepted
    assert!(build(RATE_SCALE, RATE_SCALE, RATE_SCALE, 3, population, 4).is_ok());
}

#[test]
fn termination_combinators_short_circuit_and_record_reasons() {
    let stats_low = StepStats { generation: 2, best_fitness: 3 };
    let stats_gen = StepStats { generation: 7, best_fitness: 3 };
    let stats_both = StepStats { generation: 7, best_fitness: 10 };

    let fitness = Termination::FitnessLimit(10);
    let generations = Termination::GenerationLimit(5);
    assert_eq!(fitness.evaluate(&stats_low), None);
    assert_eq!(generations.evaluate(&stats_gen), Some(StopReason::GenerationLimitReached));

    let either = Termination::Or(
        Box::new(Termination::FitnessLimit(10)),
        Box::new(Termination::GenerationLimit(5)),
    );
    assert_eq!(either.evaluate(&stats_low), None);
    assert_eq!(either.evaluate(&stats_gen), Some(StopReason::GenerationLimitReached));
    assert_eq!(either.evaluate(&stats_both), Some(StopReason::FitnessLimitReached));

    let both = Termination::And(
        Box::new(Termination::FitnessLimit(10)),
        Box::new(Termination::GenerationLimit(5)),
    );
    assert_eq!(both.evaluate(&stats_low), None);
    assert_eq!(both.evaluate(&stats_gen), None);
    assert_eq!(both.evaluate(&stats_both), Some(StopReason::AllConditionsMet));
}

#[test]
fn simulator_accepts_a_swapped_selection_strategy() {
    let mut sim = Simulator::build(
        GeneMatchEvaluator { target: 1, genome_length: 6 },
        SelectionStrategy::Maximize(MaximizeSelector::new(RATE_SCALE / 2, 2)),
        MultiPointCrossBreeder::new(2),
        OrderMutator::Swap(SwapOrderMutator::new(RATE_SCALE / 10)),
        ElitistReinserter::new(RATE_SCALE / 2),
        Termination::GenerationLimit(4),
        mixed_population(),
        4,
        RandomSource::from_seed(17),
    )
    .unwrap();
    for _ in 0..3 {
        assert!(matches!(sim.step().unwrap(), StepResult::Intermediate { .. }));
    }
    match sim.step().unwrap() {
        StepResult::Final { generation, reason, .. } => {
            assert_eq!(generation, 4);
            assert_eq!(reason, StopReason::GenerationLimitReached);
        },
        StepResult::Intermediate { .. } => panic!("did not stop at the generation limit"),
    }
}
