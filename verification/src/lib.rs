//! Configuration and results layer over a wavefront pairwise-alignment engine.
//!
//! The engine itself is native code that a driver calls. This crate holds
//! everything the driver has to decide or check around those calls: the
//! attribute set an aligner is created from, the life cycle of the handle that
//! owns the engine's context, the mapping of the engine's outcome codes, the
//! choice of the engine call for a pruning heuristic, and the decoding of the
//! CIGAR the engine leaves behind.

pub mod aligner;
pub mod attributes;
pub mod cigar;
pub mod engine;
pub mod error;
pub mod heuristic;
pub mod status;
pub mod std_string;
