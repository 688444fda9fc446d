//! The verified halves of the binary chromosome: its text import and
//! export.  The chromosome itself carries a caller-supplied scoring
//! closure and lives with the embedding, wrapping these helpers.

pub mod binary;
