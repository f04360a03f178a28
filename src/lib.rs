//! Batch evaluation of option sensitivities ("Greeks") over columnar input.
//!
//! Numeric values travel through the library as the bit patterns of IEEE-754
//! binary64 numbers (`u64`); the analytic pricing model is supplied by the
//! caller as a pair of closures.

pub mod greek;
pub mod flags;
pub mod columns;
pub mod accumulate;
pub mod engine;
pub mod laws;
