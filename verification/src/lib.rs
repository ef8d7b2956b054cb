//! A compact, reversible binary encoding for primitive values built from a
//! four-symbol alphabet packed two bits per symbol, together with a randomized
//! segment-recombination (crossover) operator for combining two encoded values
//! of equal length.

pub mod codec;
pub mod crossover;
pub mod error;
pub mod genetic;
pub mod nucleotide;
pub mod rng;
