//! The capability sets that caller-supplied encodings implement.

pub mod chromosome;
pub mod configuration;
pub mod gene;

pub use chromosome::ChromosomeT;
pub use configuration::ConfigurationT;
pub use gene::GeneT;
