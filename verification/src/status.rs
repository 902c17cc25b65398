//! Outcome codes of the engine's alignment routine.

use crate::error::AlignerError;
use vstd::prelude::*;

verus! {

/// Code the engine returns when the alignment ran to completion.
pub const WF_STATUS_SUCCESSFUL: i32 = 0;

/// Code the engine returns when a pruning heuristic discarded the alignment.
pub const WF_STATUS_HEURISTICALY_DROPPED: i32 = -1;

/// Code the engine returns when the score limit was hit before the end.
pub const WF_STATUS_MAX_SCORE_REACHED: i32 = -2;

/// Code the engine returns when it ran out of memory.
pub const WF_STATUS_OOM: i32 = -3;

/// Outcome of one alignment call.
#[derive(Debug, Clone, Copy, PartialEq, Eq, Structural)]
pub enum AlignmentStatus {
    StatusSuccessful,
    StatusDropped,
    StatusMaxScoreReached,
    StatusOOM,
}

impl AlignmentStatus {
    /// The engine's integer code for this outcome.
    pub open spec fn code(self) -> i32 {
        match self {
            AlignmentStatus::StatusSuccessful => WF_STATUS_SUCCESSFUL,
            AlignmentStatus::StatusDropped => WF_STATUS_HEURISTICALY_DROPPED,
            AlignmentStatus::StatusMaxScoreReached => WF_STATUS_MAX_SCORE_REACHED,
            AlignmentStatus::StatusOOM => WF_STATUS_OOM,
        }
    }

    /// The outcome that `value` is the code of, if it is the code of one.
    pub open spec fn of_code(value: i32) -> Option<AlignmentStatus> {
        if value == WF_STATUS_SUCCESSFUL {
            Some(AlignmentStatus::StatusSuccessful)
        } else if value == WF_STATUS_HEURISTICALY_DROPPED {
            Some(AlignmentStatus::StatusDropped)
        } else if value == WF_STATUS_MAX_SCORE_REACHED {
            Some(AlignmentStatus::StatusMaxScoreReached)
        } else if value == WF_STATUS_OOM {
            Some(AlignmentStatus::StatusOOM)
        } else {
            None
        }
    }

    /// Maps an engine code to its outcome. A code outside the known set is a
    /// breach of the engine's contract and comes back as `UnknownStatus`,
    /// carrying the code.
    pub fn from_i32(value: i32) -> (status: Result<AlignmentStatus, AlignerError>)
        ensures
            status == match Self::of_code(value) {
                Some(known) => Ok::<AlignmentStatus, AlignerError>(known),
                None => Err::<AlignmentStatus, AlignerError>(AlignerError::UnknownStatus(value)),
            },
    {
        if value == WF_STATUS_SUCCESSFUL {
            Ok(AlignmentStatus::StatusSuccessful)
        } else if value == WF_STATUS_HEURISTICALY_DROPPED {
            Ok(AlignmentStatus::StatusDropped)
        } else if value == WF_STATUS_MAX_SCORE_REACHED {
            Ok(AlignmentStatus::StatusMaxScoreReached)
        } else if value == WF_STATUS_OOM {
            Ok(AlignmentStatus::StatusOOM)
        } else {
            Err(AlignerError::UnknownStatus(value))
        }
    }

    /// Whether an alignment with this outcome leaves a score and a CIGAR
    /// behind: one that ran to its end does, and so does one that was cut
    /// short by a heuristic or by the score limit; one that ran out of memory
    /// does not.
    pub open spec fn leaves_result(self) -> bool {
        !(self is StatusOOM)
    }

    /// The engine's integer code for this outcome.
    pub fn to_i32(self) -> (value: i32)
        ensures
            value == self.code(),
    {
        match self {
            AlignmentStatus::StatusSuccessful => WF_STATUS_SUCCESSFUL,
            AlignmentStatus::StatusDropped => WF_STATUS_HEURISTICALY_DROPPED,
            AlignmentStatus::StatusMaxScoreReached => WF_STATUS_MAX_SCORE_REACHED,
            AlignmentStatus::StatusOOM => WF_STATUS_OOM,
        }
    }
}

/// Decoding inverts encoding: the code of an outcome is read back as that
/// outcome, and a value is read as an outcome only if it is that outcome's
/// code.
pub proof fn lemma_of_code_inverts_code(status: AlignmentStatus, value: i32)
    ensures
        AlignmentStatus::of_code(status.code()) == Some(status),
        AlignmentStatus::of_code(value) == Some(status) <==> status.code() == value,
{
}

} // verus!
