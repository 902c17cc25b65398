//! The values that pass between this layer and the driver of the engine.
//!
//! The driver makes the engine calls. What it needs for a call it gets from
//! the handle as a request; what the engine leaves behind it hands to the
//! handle as a report.

use crate::heuristic::HeuristicCall;
use vstd::prelude::*;

verus! {

/// Largest sequence length that the engine's length type can express.
pub const MAX_SEQUENCE_LEN: usize = 0x7fff_ffff;

/// Whether both lengths can be handed to the engine.
pub open spec fn fits_engine(pattern_len: nat, text_len: nat) -> bool {
    pattern_len <= MAX_SEQUENCE_LEN && text_len <= MAX_SEQUENCE_LEN
}

/// One end-to-end alignment: the driver sets the context to end-to-end mode
/// and then calls the engine's alignment routine on it, with the two
/// sequences and these lengths.
#[derive(Debug, Clone, Copy, PartialEq, Eq, Structural)]
pub struct EndToEndRequest {
    pub context: usize,
    pub pattern_len: i32,
    pub text_len: i32,
}

/// The call that installs a pruning strategy, and the context to make it on.
#[derive(Debug, Clone, Copy, PartialEq, Eq, Structural)]
pub struct HeuristicRequest {
    pub context: usize,
    pub call: HeuristicCall,
}

/// What the driver reads from the engine when an alignment call has returned:
/// the returned outcome code, and from the context the score, the operation
/// buffer and the offsets of the CIGAR in it.
#[derive(Debug)]
pub struct EngineReport {
    pub status: i32,
    pub score: i32,
    pub operations: Vec<u8>,
    pub begin_offset: i32,
    pub end_offset: i32,
}

} // verus!
