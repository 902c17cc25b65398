//! Typed failures of the layer.

use vstd::prelude::*;

verus! {

/// Why the engine's CIGAR could not be decoded.
#[derive(Debug, Clone, Copy, PartialEq, Eq, Structural)]
pub enum DecodeError {
    /// The reported begin and end offsets do not delimit a range of the
    /// operation buffer.
    WindowOutOfBounds { begin_offset: i32, end_offset: i32 },
    /// The operation at `index` is none of `M`, `X`, `D`, `I`.
    UnknownOperation { index: usize, symbol: u8 },
    /// The operation at `index` needs a pattern character and none is left.
    PatternExhausted { index: usize },
    /// The operation at `index` needs a text character and none is left.
    TextExhausted { index: usize },
    /// The CIGAR of a completed alignment does not consume the two sequences
    /// exactly; the fields say how many characters of each it does consume.
    LengthMismatch { pattern_consumed: usize, text_consumed: usize },
}

/// Why an operation on an aligner handle was refused.
#[derive(Debug, Clone, Copy, PartialEq, Eq, Structural)]
pub enum AlignerError {
    /// The engine returned a null context.
    AllocationFailed,
    /// The handle has already been given its context.
    AlreadyAllocated,
    /// The handle holds no live context.
    NotAllocated,
    /// No alignment has been recorded since the context was created.
    NotAligned,
    /// A sequence is longer than the engine's length type can express.
    SequenceTooLong,
    /// The engine returned an outcome code outside the known set.
    UnknownStatus(i32),
    /// The engine's CIGAR broke the decoding contract.
    Decode(DecodeError),
}

} // verus!
