//! The operator families the engine chooses among at run time.

use vstd::prelude::*;

pub mod crossover;
pub mod mutation;
pub mod mating;
pub mod selection;
pub mod survivor;

verus! {

/// Parent-selection strategies.
#[derive(Copy, Clone, Debug, PartialEq, Eq, Structural)]
pub enum Selection {
    Random,
    RouletteWheel,
    StochasticUniversalSampling,
    Tournament,
}

/// Recombination strategies.
#[derive(Copy, Clone, Debug, PartialEq, Eq, Structural)]
pub enum Crossover {
    Cycle,
    MultiPoint,
    Uniform,
}

/// Mutation strategies.
#[derive(Copy, Clone, Debug, PartialEq, Eq, Structural)]
pub enum Mutation {
    Swap,
    Inversion,
    Scramble,
}

/// Survivor-replacement strategies.
#[derive(Copy, Clone, Debug, PartialEq, Eq, Structural)]
pub enum Survivor {
    Fitness,
    Age,
}

} // verus!
