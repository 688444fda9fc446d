//! Mating helpers for the older encoding interface.

pub mod random;
