//! Ready-made fitness functions for the concrete encodings.

pub mod count_true;

pub use count_true::count_true;
