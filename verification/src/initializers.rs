//! Random dna initialization for fresh individuals.

pub mod binary_initializer;
pub mod generic_initializer;

pub use binary_initializer::binary_random_initialization;
pub use generic_initializer::generic_random_initialization;
pub use generic_initializer::generic_random_initialization_without_repetitions;
