//! Composable stop conditions, evaluated once per generation against the
//! latest step's statistics.

use vstd::prelude::*;

verus! {

/// The per-generation statistics a stop condition is evaluated against.
#[derive(Clone, Copy, PartialEq, Eq, Debug, Structural)]
pub struct StepStats {
    /// The generation counter after the step.
    pub generation: u64,
    /// The best fitness seen so far across all generations.
    pub best_fitness: u64,
}

/// Why a run stopped.
#[derive(Clone, Copy, PartialEq, Eq, Debug, Structural)]
pub enum StopReason {
    /// The best fitness reached the configured fitness limit.
    FitnessLimitReached,
    /// The generation counter reached the configured generation limit.
    GenerationLimitReached,
    /// Every child of a conjunction of conditions triggered.
    AllConditionsMet,
}

/// A stop-condition predicate tree: primitive limits composed by logical
/// disjunction and conjunction.
pub enum Termination {
    /// Stop as soon as the best fitness reaches the limit.
    FitnessLimit(u64),
    /// Stop as soon as the generation counter reaches the limit.
    GenerationLimit(u64),
    /// Stop when either child condition triggers.
    Or(Box<Termination>, Box<Termination>),
    /// Stop only when both child conditions trigger.
    And(Box<Termination>, Box<Termination>),
}

impl Termination {
    /// Whether the condition has triggered for the given statistics.
    pub open spec fn triggered(self, stats: StepStats) -> bool
        decreases self,
    {
        match self {
            Termination::FitnessLimit(limit) => stats.best_fitness >= limit,
            Termination::GenerationLimit(limit) => stats.generation >= limit,
            Termination::Or(a, b) => a.triggered(stats) || b.triggered(stats),
            Termination::And(a, b) => a.triggered(stats) && b.triggered(stats),
        }
    }

    /// The reason reported when the condition has triggered: the reason of
    /// the first triggering child of a disjunction, and the conjunction marker
    /// for a conjunction.
    pub open spec fn reason_spec(self, stats: StepStats) -> StopReason
        decreases self,
    {
        match self {
            Termination::FitnessLimit(_) => StopReason::FitnessLimitReached,
            Termination::GenerationLimit(_) => StopReason::GenerationLimitReached,
            Termination::Or(a, b) => if a.triggered(stats) {
                a.reason_spec(stats)
            } else {
                b.reason_spec(stats)
            },
            Termination::And(_, _) => StopReason::AllConditionsMet,
        }
    }

    /// Evaluates the condition against the statistics: the stop reason when it
    /// triggered, `None` otherwise. Combinators short-circuit: a disjunction
    /// does not evaluate its second child when the first triggered, and a
    /// conjunction does not evaluate its second child when the first did not.
    pub fn evaluate(&self, stats: &StepStats) -> (r: Option<StopReason>)
        ensures
            r is Some <==> self.triggered(*stats),
            r matches Some(reason) ==> reason == self.reason_spec(*stats),
        decreases *self,
    {
        match self {
            Termination::FitnessLimit(limit) => {
                if stats.best_fitness >= *limit {
                    Some(StopReason::FitnessLimitReached)
                } else {
                    None
                }
            },
            Termination::GenerationLimit(limit) => {
                if stats.generation >= *limit {
                    Some(StopReason::GenerationLimitReached)
                } else {
                    None
                }
            },
            Termination::Or(a, b) => {
                let ra = a.evaluate(stats);
                if ra.is_some() {
                    ra
                } else {
                    b.evaluate(stats)
                }
            },
            Termination::And(a, b) => {
                let ra = a.evaluate(stats);
                if ra.is_some() {
                    let rb = b.evaluate(stats);
                    if rb.is_some() {
                        Some(StopReason::AllConditionsMet)
                    } else {
                        None
                    }
                } else {
                    None
                }
            },
        }
    }
}

/// A run limited only by generation count stops exactly when the generation
/// counter reaches the limit, never earlier and never later, and reports the
/// generation limit as the stop reason.
pub proof fn lemma_generation_limit_exact(limit: u64, stats: StepStats)
    ensures
        Termination::GenerationLimit(limit).triggered(stats) <==> stats.generation >= limit,
        Termination::GenerationLimit(limit).reason_spec(stats)
            == StopReason::GenerationLimitReached,
{
}

/// A run limited only by fitness stops exactly when the best fitness seen
/// reaches the limit — for a limit equal to the highest possible fitness,
/// the first generation an individual reaches that value — and reports the
/// fitness limit as the stop reason.
pub proof fn lemma_fitness_limit_exact(limit: u64, stats: StepStats)
    ensures
        Termination::FitnessLimit(limit).triggered(stats) <==> stats.best_fitness >= limit,
        Termination::FitnessLimit(limit).reason_spec(stats) == StopReason::FitnessLimitReached,
{
}

} // verus!
