//! A generic evolutionary-computation engine: randomized sampling primitives,
//! weighted (fitness-proportional) selection, genetic operators, termination
//! conditions, and a step-wise simulator.

use vstd::prelude::*;

pub mod genetic;
pub mod mutation;
pub mod operator;
pub mod random;
pub mod recombination;
pub mod reinsertion;
pub mod selection;
pub mod simulation;
pub mod termination;
pub mod tracker;

verus! {

/// Scale for fixed-point probabilities: a rate of `RATE_SCALE` parts means 1.0.
pub const RATE_SCALE: u64 = 1_000_000;

/// A rate (probability) is valid when it lies in [0, 1], i.e. at most one whole.
pub open spec fn valid_rate(ppm: u64) -> bool {
    ppm <= RATE_SCALE
}

} // verus!
