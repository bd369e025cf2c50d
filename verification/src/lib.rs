//! A recursive proof-verification circuit and its identity pipeline.
//!
//! The circuit consumes a nested proof receipt, checks it against the
//! program identity its claim carries, and commits a single digest that
//! binds that identity to the journal the proof attests to.  The pipeline
//! side resolves the build configuration and derives a reproducible method
//! identifier from a compiled artifact's bytes.

pub mod circuit;
pub mod commitment;
pub mod engine;
pub mod pipeline;
pub mod structs;
