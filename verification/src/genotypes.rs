//! Concrete gene encodings.

pub mod binary;

pub use binary::Binary;
