//! A verified evolutionary-computation engine.
//!
//! Candidate solutions ("individuals") are fixed-length ordered sequences of
//! genes.  The engine iteratively applies selection, recombination, mutation
//! and survivor-replacement operators to search for individuals optimizing a
//! caller-supplied scalar fitness score, under a configurable termination
//! policy.  Fitness is an integer scalar throughout; probabilities are
//! integers scaled by [`configuration::PROBABILITY_SCALE`].

pub mod chromosomes;
pub mod configuration;
pub mod fitness;
pub mod ga;
pub mod genotypes;
pub mod operations;
pub mod helpers;
pub mod initializers;
pub mod population;
pub(crate) mod rng;
pub mod structures;
pub mod traits;
