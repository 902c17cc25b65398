//! The aligner handle: one engine context, its life cycle and its results.
//!
//! A handle starts without a context. A variant constructor finishes its
//! attribute set; the driver creates the engine context from it and gives the
//! handle the context's address. From then on the handle owns the context
//! until it is released, which happens once. Each alignment call is prepared
//! by the handle and, when the engine has returned, recorded in it; the score
//! and the CIGAR are read from what was recorded.

use crate::attributes::{
    AffinePenalties, AlignmentScope, DistanceMetric, LinearPenalties, MemoryModel, WFAttributes,
};
use crate::cigar::{
    as_text, bottom_line, check_alignment, check_alphabet, cigar_matching, cigar_text,
    consumes_exactly, is_alphabet_fault, is_cigar, is_length_fault, is_walk_fault,
    lemma_exact_cigar_is_walkable, middle_line, read_window, top_line, walkable, window,
};
use crate::engine::{fits_engine, EndToEndRequest, EngineReport, HeuristicRequest, MAX_SEQUENCE_LEN};
use crate::error::{AlignerError, DecodeError};
use crate::heuristic::Heuristic;
use crate::status::AlignmentStatus;
use vstd::prelude::*;

verus! {

/// Where a handle stands in its life.
#[derive(Debug, Clone, Copy, PartialEq, Eq, Structural)]
pub enum HandleState {
    /// No context has been created yet.
    Unconfigured,
    /// The handle owns a context; no alignment is recorded.
    Allocated,
    /// The handle owns a context and holds the result of its last alignment.
    Aligned,
    /// The context, if there was one, has been given up for destruction.
    Released,
}

/// Whether the CIGAR of an alignment with this outcome, computed under this
/// scope, has to use up both sequences exactly.
pub open spec fn is_complete(status: AlignmentStatus, scope: AlignmentScope) -> bool {
    status == AlignmentStatus::StatusSuccessful && scope == AlignmentScope::Alignment
}

/// A recorded alignment, as a mathematical value.
pub struct AlignmentView {
    pub status: AlignmentStatus,
    pub score: i32,
    pub cigar: Seq<u8>,
    pub pattern_len: nat,
    pub text_len: nat,
}

impl AlignmentView {
    /// The outcome is one that leaves a result, the CIGAR is over the
    /// alphabet, and that of a complete alignment uses up exactly the two
    /// sequences that were aligned.
    pub open spec fn wf(self, scope: AlignmentScope) -> bool {
        &&& self.status.leaves_result()
        &&& is_cigar(self.cigar)
        &&& is_complete(self.status, scope) ==> consumes_exactly(
            self.cigar,
            self.pattern_len,
            self.text_len,
        )
    }
}

/// A handle, as a mathematical value.
pub struct AlignerView {
    pub attributes: WFAttributes,
    pub state: HandleState,
    /// Address of the engine context; 0 while the handle owns none.
    pub context: usize,
    /// The pruning strategy last installed through the handle, if any.
    pub heuristic: Option<Heuristic>,
    pub alignment: Option<AlignmentView>,
}

impl AlignerView {
    /// A handle that has its attributes and nothing else.
    pub open spec fn unconfigured(attributes: WFAttributes) -> AlignerView {
        AlignerView {
            attributes,
            state: HandleState::Unconfigured,
            context: 0,
            heuristic: None,
            alignment: None,
        }
    }

    /// Whether the handle owns a context.
    pub open spec fn is_live(self) -> bool {
        self.state is Allocated || self.state is Aligned
    }

    /// A handle owns a context, which is not null, exactly in the states
    /// `Allocated` and `Aligned`, and holds an alignment exactly in the state
    /// `Aligned`.
    pub open spec fn wf(self) -> bool {
        &&& self.is_live() <==> self.context != 0
        &&& self.state is Aligned <==> self.alignment is Some
        &&& !self.is_live() ==> self.heuristic is None
        &&& self.alignment matches Some(alignment) ==> alignment.wf(
            self.attributes.alignment_scope,
        )
    }

    /// The handle once it owns `context`.
    pub open spec fn materialized(self, context: usize) -> AlignerView {
        AlignerView { state: HandleState::Allocated, context, ..self }
    }

    /// The handle with `heuristic` in force.
    pub open spec fn with_heuristic(self, heuristic: Heuristic) -> AlignerView {
        AlignerView { heuristic: Some(heuristic), ..self }
    }

    /// The context that the handle gives up when it is released.
    pub open spec fn owned_context(self) -> Option<usize> {
        if self.is_live() {
            Some(self.context)
        } else {
            None
        }
    }

    /// What a read of the score returns.
    pub open spec fn score_reading(self) -> Result<i32, AlignerError> {
        match self.alignment {
            Some(alignment) => Ok(alignment.score),
            None => Err(AlignerError::NotAligned),
        }
    }

    /// What a read of the CIGAR returns, as a sequence of characters.
    pub open spec fn cigar_reading(self) -> Result<Seq<char>, AlignerError> {
        match self.alignment {
            Some(alignment) => Ok(as_text(alignment.cigar)),
            None => Err(AlignerError::NotAligned),
        }
    }

    /// The handle with `alignment` recorded in it.
    pub open spec fn recording(self, alignment: AlignmentView) -> AlignerView {
        AlignerView { state: HandleState::Aligned, alignment: Some(alignment), ..self }
    }

    /// The handle with no alignment recorded in it.
    pub open spec fn cleared(self) -> AlignerView {
        AlignerView { state: HandleState::Allocated, alignment: None, ..self }
    }

    /// The handle after an alignment call that left `recorded` to record.
    pub open spec fn after_alignment(self, recorded: Option<AlignmentView>) -> AlignerView {
        match recorded {
            Some(alignment) => self.recording(alignment),
            None => self.cleared(),
        }
    }

    /// The handle after it gave up its context.
    pub open spec fn released(self) -> AlignerView {
        AlignerView {
            state: HandleState::Released,
            context: 0,
            heuristic: None,
            alignment: None,
            ..self
        }
    }
}

/// The outcome that an alignment call returns when it recorded `recorded`:
/// the outcome of the alignment recorded, and out of memory where there is
/// none.
pub open spec fn outcome_of(recorded: Option<AlignmentView>) -> AlignmentStatus {
    match recorded {
        Some(alignment) => alignment.status,
        None => AlignmentStatus::StatusOOM,
    }
}

/// Whether `outcome` is what a report amounts to, for an alignment of a
/// pattern of `pattern_len` characters with a text of `text_len` characters
/// under `scope`: the alignment to record, or nothing to record, or the
/// breach of the engine's contract.
///
/// The outcome code is judged first. An alignment that ran out of memory
/// leaves nothing to record, whatever else the report holds. Of any other
/// the offsets are judged next, then the symbols of the CIGAR, and last, for
/// a complete alignment, what the CIGAR uses up.
pub open spec fn reads_as(
    report: EngineReport,
    scope: AlignmentScope,
    pattern_len: nat,
    text_len: nat,
    outcome: Result<Option<AlignmentView>, AlignerError>,
) -> bool {
    match AlignmentStatus::of_code(report.status) {
        None => outcome == Err::<Option<AlignmentView>, AlignerError>(
            AlignerError::UnknownStatus(report.status),
        ),
        Some(status) => if !status.leaves_result() {
            outcome == Ok::<Option<AlignmentView>, AlignerError>(None)
        } else {
            match window(
                report.operations@,
                report.begin_offset as int,
                report.end_offset as int,
            ) {
                None => outcome == Err::<Option<AlignmentView>, AlignerError>(
                    AlignerError::Decode(
                        DecodeError::WindowOutOfBounds {
                            begin_offset: report.begin_offset,
                            end_offset: report.end_offset,
                        },
                    ),
                ),
                Some(cigar) => match outcome {
                    Ok(recorded) => {
                        &&& recorded == Some(
                            AlignmentView {
                                status,
                                score: report.score,
                                cigar,
                                pattern_len,
                                text_len,
                            },
                        )
                        &&& recorded->0.wf(scope)
                    },
                    Err(error) => {
                        &&& error matches AlignerError::Decode(fault)
                        &&& is_alphabet_fault(cigar, fault) || (is_complete(status, scope)
                            && is_length_fault(cigar, pattern_len, text_len, fault))
                    },
                },
            }
        },
    }
}

struct Alignment {
    status: AlignmentStatus,
    score: i32,
    cigar: Vec<u8>,
    pattern_len: usize,
    text_len: usize,
}

impl View for Alignment {
    type V = AlignmentView;

    closed spec fn view(&self) -> AlignmentView {
        AlignmentView {
            status: self.status,
            score: self.score,
            cigar: self.cigar@,
            pattern_len: self.pattern_len as nat,
            text_len: self.text_len as nat,
        }
    }
}

/// Owner of one engine context.
pub struct WFAligner {
    attributes: WFAttributes,
    state: HandleState,
    context: usize,
    heuristic: Option<Heuristic>,
    alignment: Option<Alignment>,
}

impl View for WFAligner {
    type V = AlignerView;

    closed spec fn view(&self) -> AlignerView {
        AlignerView {
            attributes: self.attributes,
            state: self.state,
            context: self.context,
            heuristic: self.heuristic,
            alignment: match self.alignment {
                Some(alignment) => Some(alignment@),
                None => None,
            },
        }
    }
}

impl WFAligner {
    #[verifier::type_invariant]
    spec fn inv(self) -> bool {
        self@.wf()
    }

    /// A handle without a context, configured with the engine's baseline
    /// attributes but for the scope and the memory model given.
    pub fn new(alignment_scope: AlignmentScope, memory_model: MemoryModel) -> (aligner: WFAligner)
        ensures
            aligner@ == AlignerView::unconfigured(
                WFAttributes { alignment_scope, memory_model, ..WFAttributes::baseline() },
            ),
            aligner@.wf(),
    {
        let attributes = WFAttributes::default().memory_model(memory_model).alignment_scope(
            alignment_scope,
        );
        WFAligner {
            attributes,
            state: HandleState::Unconfigured,
            context: 0,
            heuristic: None,
            alignment: None,
        }
    }

    /// The attributes from which the driver creates the engine context.
    pub fn attributes(&self) -> (attributes: WFAttributes)
        ensures
            attributes == self@.attributes,
    {
        self.attributes
    }

    /// Where the handle stands in its life.
    pub fn state(&self) -> (state: HandleState)
        ensures
            state == self@.state,
    {
        self.state
    }

    /// The pruning strategy last installed through the handle, if any.
    pub fn heuristic(&self) -> (heuristic: Option<Heuristic>)
        ensures
            heuristic == self@.heuristic,
    {
        self.heuristic
    }

    /// Takes ownership of the context that the engine created from the
    /// handle's attributes. A null context is an allocation failure; a handle
    /// that has had its context takes no other.
    pub fn materialize(&mut self, context: usize) -> (r: Result<(), AlignerError>)
        ensures
            final(self)@.wf(),
            !(old(self)@.state is Unconfigured) ==> r == Err::<(), AlignerError>(
                AlignerError::AlreadyAllocated,
            ) && final(self)@ == old(self)@,
            old(self)@.state is Unconfigured && context == 0 ==> r == Err::<(), AlignerError>(
                AlignerError::AllocationFailed,
            ) && final(self)@ == old(self)@,
            old(self)@.state is Unconfigured && context != 0 ==> r == Ok::<(), AlignerError>(())
                && final(self)@ == old(self)@.materialized(context),
    {
        proof {
            use_type_invariant(&*self);
        }
        match self.state {
            HandleState::Unconfigured => {
                if context == 0 {
                    Err(AlignerError::AllocationFailed)
                } else {
                    *self = WFAligner {
                        attributes: self.attributes,
                        state: HandleState::Allocated,
                        context,
                        heuristic: None,
                        alignment: None,
                    };
                    Ok(())
                }
            },
            _ => Err(AlignerError::AlreadyAllocated),
        }
    }

    /// Ends the handle's life and gives up its context: returns the address
    /// of the context that the driver has to destroy, or nothing where the
    /// handle owns none, because none was created or because it was given up
    /// before.
    pub fn release(&mut self) -> (context: Option<usize>)
        ensures
            final(self)@.wf(),
            final(self)@ == old(self)@.released(),
            context == old(self)@.owned_context(),
            context matches Some(address) ==> address != 0,
    {
        proof {
            use_type_invariant(&*self);
        }
        let owned = self.context;
        *self = WFAligner {
            attributes: self.attributes,
            state: HandleState::Released,
            context: 0,
            heuristic: None,
            alignment: None,
        };
        if owned != 0 {
            Some(owned)
        } else {
            None
        }
    }

    /// Prepares an end-to-end alignment of `pattern` with `text`: the context
    /// to align in, which is not null, and the two lengths in the engine's
    /// length type. Refused where the handle owns no context, and otherwise
    /// where a sequence is too long for that type.
    pub fn prepare_end_to_end(&self, pattern: &[u8], text: &[u8]) -> (r: Result<
        EndToEndRequest,
        AlignerError,
    >)
        ensures
            !self@.is_live() ==> r == Err::<EndToEndRequest, AlignerError>(AlignerError::NotAllocated),
            self@.is_live() && !fits_engine(pattern@.len(), text@.len()) ==> r == Err::<
                EndToEndRequest,
                AlignerError,
            >(AlignerError::SequenceTooLong),
            self@.is_live() && fits_engine(pattern@.len(), text@.len()) ==> r == Ok::<
                EndToEndRequest,
                AlignerError,
            >(
                EndToEndRequest {
                    context: self@.context,
                    pattern_len: pattern@.len() as i32,
                    text_len: text@.len() as i32,
                },
            ) && self@.context != 0,
    {
        proof {
            use_type_invariant(self);
        }
        if self.context == 0 {
            return Err(AlignerError::NotAllocated);
        }
        if pattern.len() > MAX_SEQUENCE_LEN || text.len() > MAX_SEQUENCE_LEN {
            return Err(AlignerError::SequenceTooLong);
        }
        Ok(
            EndToEndRequest {
                context: self.context,
                pattern_len: pattern.len() as i32,
                text_len: text.len() as i32,
            },
        )
    }

    /// Records what the engine reported for the end-to-end alignment of
    /// `pattern` with `text`, and returns the alignment's outcome.
    ///
    /// The call is refused, and the handle left as it is, where the handle
    /// owns no context, and otherwise where a sequence is too long for the
    /// engine. In every other case the engine has overwritten its earlier
    /// result, so the handle drops what it had recorded. An alignment that
    /// ran out of memory leaves nothing to record. Any other is recorded if
    /// the report keeps the engine's contract: a known outcome code, offsets
    /// inside the operation buffer, operations only, and, for a complete
    /// alignment, a CIGAR that uses up both sequences exactly. A report that
    /// breaks the contract is answered with the breach, and nothing is
    /// recorded.
    pub fn align_end_to_end(&mut self, pattern: &[u8], text: &[u8], report: &EngineReport) -> (r:
        Result<AlignmentStatus, AlignerError>)
        ensures
            final(self)@.wf(),
            !old(self)@.is_live() ==> r == Err::<AlignmentStatus, AlignerError>(
                AlignerError::NotAllocated,
            ) && final(self)@ == old(self)@,
            old(self)@.is_live() && !fits_engine(pattern@.len(), text@.len()) ==> r == Err::<
                AlignmentStatus,
                AlignerError,
            >(AlignerError::SequenceTooLong) && final(self)@ == old(self)@,
            old(self)@.is_live() && fits_engine(pattern@.len(), text@.len()) ==> match r {
                Ok(status) => {
                    &&& reads_as(
                        *report,
                        old(self)@.attributes.alignment_scope,
                        pattern@.len(),
                        text@.len(),
                        Ok(final(self)@.alignment),
                    )
                    &&& status == outcome_of(final(self)@.alignment)
                    &&& final(self)@ == old(self)@.after_alignment(final(self)@.alignment)
                },
                Err(error) => {
                    &&& reads_as(
                        *report,
                        old(self)@.attributes.alignment_scope,
                        pattern@.len(),
                        text@.len(),
                        Err(error),
                    )
                    &&& final(self)@ == old(self)@.cleared()
                },
            },
            r == Ok::<AlignmentStatus, AlignerError>(AlignmentStatus::StatusSuccessful) && old(
                self,
            )@.attributes.alignment_scope == AlignmentScope::Alignment ==> {
                &&& final(self)@.alignment matches Some(alignment)
                &&& consumes_exactly(alignment.cigar, pattern@.len(), text@.len())
            },
    {
        proof {
            use_type_invariant(&*self);
        }
        if self.context == 0 {
            return Err(AlignerError::NotAllocated);
        }
        if pattern.len() > MAX_SEQUENCE_LEN || text.len() > MAX_SEQUENCE_LEN {
            return Err(AlignerError::SequenceTooLong);
        }
        let scope = self.attributes.alignment_scope;
        let reading = read_report(report, scope, pattern.len(), text.len());
        match reading {
            Ok(Some(alignment)) => {
                let status = alignment.status;
                *self = WFAligner {
                    attributes: self.attributes,
                    state: HandleState::Aligned,
                    context: self.context,
                    heuristic: self.heuristic,
                    alignment: Some(alignment),
                };
                Ok(status)
            },
            Ok(None) => {
                *self = WFAligner {
                    attributes: self.attributes,
                    state: HandleState::Allocated,
                    context: self.context,
                    heuristic: self.heuristic,
                    alignment: None,
                };
                Ok(AlignmentStatus::StatusOOM)
            },
            Err(error) => {
                *self = WFAligner {
                    attributes: self.attributes,
                    state: HandleState::Allocated,
                    context: self.context,
                    heuristic: self.heuristic,
                    alignment: None,
                };
                Err(error)
            },
        }
    }

    /// Chooses the engine call that installs `heuristic`, to be made on the
    /// handle's context, and notes the strategy as the one in force. Every
    /// strategy is accepted, whatever its parameters, as long as the handle
    /// owns a context; the last one set is the one in force. A recorded
    /// alignment stays as it is.
    pub fn set_heuristic(&mut self, heuristic: Heuristic) -> (r: Result<
        HeuristicRequest,
        AlignerError,
    >)
        ensures
            final(self)@.wf(),
            old(self)@.is_live() ==> {
                &&& r matches Ok(request)
                &&& request.context == old(self)@.context
                &&& request.context != 0
                &&& heuristic.is_installed_by(request.call)
                &&& request.call.arguments() == heuristic.parameters()
                &&& final(self)@ == old(self)@.with_heuristic(heuristic)
            },
            !old(self)@.is_live() ==> r == Err::<HeuristicRequest, AlignerError>(
                AlignerError::NotAllocated,
            ) && final(self)@ == old(self)@,
            final(self)@.alignment == old(self)@.alignment,
    {
        proof {
            use_type_invariant(&*self);
        }
        if self.context == 0 {
            return Err(AlignerError::NotAllocated);
        }
        self.heuristic = Some(heuristic);
        Ok(HeuristicRequest { context: self.context, call: heuristic.engine_call() })
    }

    /// The score of the recorded alignment. There is none to read before an
    /// alignment has been recorded.
    pub fn alignment_score(&self) -> (r: Result<i32, AlignerError>)
        ensures
            r == self@.score_reading(),
    {
        match &self.alignment {
            Some(alignment) => Ok(alignment.score),
            None => Err(AlignerError::NotAligned),
        }
    }

    /// The CIGAR of the recorded alignment as text, one of the letters `M`,
    /// `X`, `D`, `I` per column. That of a complete alignment uses up exactly
    /// the pattern and the text that were aligned. There is none to read
    /// before an alignment has been recorded.
    pub fn alignment_cigar(&self) -> (r: Result<String, AlignerError>)
        ensures
            match r {
                Ok(text) => self@.cigar_reading() == Ok::<Seq<char>, AlignerError>(text@),
                Err(error) => self@.cigar_reading() == Err::<Seq<char>, AlignerError>(error),
            },
            self@.alignment matches Some(alignment) ==> {
                &&& is_cigar(alignment.cigar)
                &&& is_complete(alignment.status, self@.attributes.alignment_scope)
                    ==> consumes_exactly(
                    alignment.cigar,
                    alignment.pattern_len,
                    alignment.text_len,
                )
            },
    {
        proof {
            use_type_invariant(self);
        }
        match &self.alignment {
            Some(alignment) => Ok(cigar_text(alignment.cigar.as_slice())),
            None => Err(AlignerError::NotAligned),
        }
    }

    /// Lays out the recorded alignment as three lines of one character per
    /// column of the CIGAR: `pattern` with its gaps, the marks of the paired
    /// characters, and `text` with its gaps. The layout fails at the first
    /// column that needs a character of a sequence that has none left; it
    /// cannot fail for the sequences of a complete alignment, nor for any of
    /// their lengths. There is nothing to lay out before an alignment has
    /// been recorded.
    pub fn alignment_matching(&self, pattern: &[u8], text: &[u8]) -> (r: Result<
        (String, String, String),
        AlignerError,
    >)
        ensures
            self@.alignment is None ==> r == Err::<(String, String, String), AlignerError>(
                AlignerError::NotAligned,
            ),
            self@.alignment matches Some(alignment) ==> {
                &&& r is Ok <==> walkable(alignment.cigar, pattern@.len(), text@.len())
                &&& r matches Ok(lines) ==> {
                    &&& lines.0@ == top_line(alignment.cigar, pattern@)
                    &&& lines.1@ == middle_line(alignment.cigar)
                    &&& lines.2@ == bottom_line(alignment.cigar, text@)
                    &&& lines.0@.len() == alignment.cigar.len()
                    &&& lines.1@.len() == alignment.cigar.len()
                    &&& lines.2@.len() == alignment.cigar.len()
                }
                &&& r matches Err(error) ==> {
                    &&& error matches AlignerError::Decode(fault)
                    &&& is_walk_fault(alignment.cigar, pattern@.len(), text@.len(), fault)
                }
                &&& is_complete(alignment.status, self@.attributes.alignment_scope)
                    && pattern@.len() == alignment.pattern_len && text@.len()
                    == alignment.text_len ==> r is Ok
            },
    {
        proof {
            use_type_invariant(self);
        }
        match &self.alignment {
            Some(alignment) => {
                proof {
                    if is_complete(alignment@.status, self@.attributes.alignment_scope)
                        && pattern@.len() == alignment@.pattern_len && text@.len()
                        == alignment@.text_len {
                        lemma_exact_cigar_is_walkable(
                            alignment@.cigar,
                            pattern@.len(),
                            text@.len(),
                        );
                    }
                }
                match cigar_matching(alignment.cigar.as_slice(), pattern, text) {
                    Ok(lines) => Ok(lines),
                    Err(fault) => Err(AlignerError::Decode(fault)),
                }
            },
            None => Err(AlignerError::NotAligned),
        }
    }
}

/// Every step of a handle's life keeps it well formed: taking a context
/// that is not null, installing a heuristic, recording a well-formed
/// alignment, dropping the recorded alignment, and giving up the context.
pub proof fn lemma_steps_keep_wf(
    handle: AlignerView,
    context: usize,
    heuristic: Heuristic,
    alignment: AlignmentView,
)
    requires
        handle.wf(),
    ensures
        handle.state is Unconfigured && context != 0 ==> handle.materialized(context).wf(),
        handle.is_live() ==> handle.with_heuristic(heuristic).wf(),
        handle.is_live() && alignment.wf(handle.attributes.alignment_scope) ==> handle.recording(
            alignment,
        ).wf(),
        handle.is_live() ==> handle.cleared().wf(),
        handle.released().wf(),
{
}

/// A handle gives up its context once: the context it took is the one that
/// its release hands back, a release hands back nothing where none was taken,
/// and after a release there is nothing left to hand back.
pub proof fn lemma_context_is_released_once(handle: AlignerView, context: usize)
    requires
        handle.wf(),
    ensures
        handle.state is Unconfigured && context != 0 ==> handle.materialized(
            context,
        ).owned_context() == Some(context),
        handle.state is Unconfigured ==> handle.owned_context() is None,
        handle.released().owned_context() is None,
        handle.released().released() == handle.released(),
{
}

/// What a read returns depends on the recorded alignment alone. A read does
/// not change the handle, so two reads with nothing recorded between them
/// return the same.
pub proof fn lemma_reads_depend_on_recorded_alignment(first: AlignerView, second: AlignerView)
    requires
        first.alignment == second.alignment,
    ensures
        first.score_reading() == second.score_reading(),
        first.cigar_reading() == second.cigar_reading(),
{
}

/// Installing a heuristic changes no result that has been recorded: the
/// score and the CIGAR read the same after it as before.
pub proof fn lemma_heuristic_keeps_reads(handle: AlignerView, heuristic: Heuristic)
    ensures
        handle.with_heuristic(heuristic).score_reading() == handle.score_reading(),
        handle.with_heuristic(heuristic).cigar_reading() == handle.cigar_reading(),
        handle.with_heuristic(heuristic).alignment == handle.alignment,
{
}

/// Of the heuristics installed through a handle, the last is the one in
/// force, and installing it again changes nothing.
pub proof fn lemma_last_heuristic_wins(handle: AlignerView, earlier: Heuristic, last: Heuristic)
    ensures
        handle.with_heuristic(earlier).with_heuristic(last) == handle.with_heuristic(last),
        handle.with_heuristic(last).with_heuristic(last) == handle.with_heuristic(last),
        handle.with_heuristic(last).heuristic == Some(last),
{
}

/// A report is read in one way only: two outcomes that both are what the
/// report amounts to are the same outcome.
pub proof fn lemma_report_reads_one_way(
    report: EngineReport,
    scope: AlignmentScope,
    pattern_len: nat,
    text_len: nat,
    first: Result<Option<AlignmentView>, AlignerError>,
    second: Result<Option<AlignmentView>, AlignerError>,
)
    requires
        reads_as(report, scope, pattern_len, text_len, first),
        reads_as(report, scope, pattern_len, text_len, second),
    ensures
        first == second,
{
}

/// The CIGAR recorded for a complete alignment uses up the pattern through
/// `M`, `X` and `D` and the text through `M`, `X` and `I`, each exactly, and
/// can therefore be laid out against them.
pub proof fn lemma_complete_alignment_consumes_both(
    report: EngineReport,
    scope: AlignmentScope,
    pattern_len: nat,
    text_len: nat,
    alignment: AlignmentView,
)
    requires
        reads_as(report, scope, pattern_len, text_len, Ok(Some(alignment))),
        is_complete(alignment.status, scope),
    ensures
        consumes_exactly(alignment.cigar, pattern_len, text_len),
        walkable(alignment.cigar, pattern_len, text_len),
{
    lemma_exact_cigar_is_walkable(alignment.cigar, pattern_len, text_len);
}

/// Judges a report: the outcome code first, then, unless the engine ran out
/// of memory, the offsets, the symbols of the CIGAR, and last, for a complete
/// alignment, what the CIGAR uses up.
fn read_report(report: &EngineReport, scope: AlignmentScope, pattern_len: usize, text_len: usize) -> (r:
    Result<Option<Alignment>, AlignerError>)
    ensures
        match r {
            Ok(Some(alignment)) => reads_as(
                *report,
                scope,
                pattern_len as nat,
                text_len as nat,
                Ok(Some(alignment@)),
            ),
            Ok(None) => reads_as(*report, scope, pattern_len as nat, text_len as nat, Ok(None)),
            Err(error) => reads_as(*report, scope, pattern_len as nat, text_len as nat, Err(error)),
        },
{
    let status = match AlignmentStatus::from_i32(report.status) {
        Ok(status) => status,
        Err(error) => {
            return Err(error);
        },
    };
    if let AlignmentStatus::StatusOOM = status {
        return Ok(None);
    }
    let cigar = match read_window(
        report.operations.as_slice(),
        report.begin_offset,
        report.end_offset,
    ) {
        Ok(cigar) => cigar,
        Err(fault) => {
            return Err(AlignerError::Decode(fault));
        },
    };
    let complete = match (status, scope) {
        (AlignmentStatus::StatusSuccessful, AlignmentScope::Alignment) => true,
        _ => false,
    };
    let checked = if complete {
        check_alignment(cigar.as_slice(), pattern_len, text_len)
    } else {
        check_alphabet(cigar.as_slice())
    };
    match checked {
        Ok(()) => Ok(Some(Alignment { status, score: report.score, cigar, pattern_len, text_len })),
        Err(fault) => Err(AlignerError::Decode(fault)),
    }
}

/// Aligner for the indel model (longest common subsequence).
pub struct WFAlignerIndel;

impl WFAlignerIndel {
    /// A handle without a context whose attributes select the indel metric,
    /// with the scope and the memory model given.
    pub fn new(alignment_scope: AlignmentScope, memory_model: MemoryModel) -> (aligner: WFAligner)
        ensures
            aligner@ == AlignerView::unconfigured(
                WFAttributes {
                    distance_metric: DistanceMetric::Indel,
                    alignment_scope,
                    memory_model,
                    ..WFAttributes::baseline()
                },
            ),
            aligner@.wf(),
    {
        let mut aligner = WFAligner::new(alignment_scope, memory_model);
        aligner.attributes = aligner.attributes.distance_metric(DistanceMetric::Indel);
        aligner
    }
}

/// Aligner for the edit model (Levenshtein).
pub struct WFAlignerEdit;

impl WFAlignerEdit {
    /// A handle without a context whose attributes select the edit metric,
    /// with the scope and the memory model given.
    pub fn new(alignment_scope: AlignmentScope, memory_model: MemoryModel) -> (aligner: WFAligner)
        ensures
            aligner@ == AlignerView::unconfigured(
                WFAttributes {
                    distance_metric: DistanceMetric::Edit,
                    alignment_scope,
                    memory_model,
                    ..WFAttributes::baseline()
                },
            ),
            aligner@.wf(),
    {
        let mut aligner = WFAligner::new(alignment_scope, memory_model);
        aligner.attributes = aligner.attributes.distance_metric(DistanceMetric::Edit);
        aligner
    }
}

/// Aligner for the gap-linear model (Needleman-Wunsch).
pub struct WFAlignerGapLinear;

impl WFAlignerGapLinear {
    /// A handle without a context whose attributes select the gap-linear
    /// metric with the penalties given and a match penalty of 0, with the
    /// scope and the memory model given.
    pub fn new(
        mismatch: i32,
        indel: i32,
        alignment_scope: AlignmentScope,
        memory_model: MemoryModel,
    ) -> (aligner: WFAligner)
        ensures
            aligner@ == AlignerView::unconfigured(
                WFAttributes {
                    distance_metric: DistanceMetric::GapLinear,
                    linear_penalties: LinearPenalties { match_: 0, mismatch, indel },
                    alignment_scope,
                    memory_model,
                    ..WFAttributes::baseline()
                },
            ),
            aligner@.wf(),
    {
        let mut aligner = WFAligner::new(alignment_scope, memory_model);
        aligner.attributes = aligner.attributes.linear_penalties(0, mismatch, indel);
        aligner
    }
}

/// Aligner for the gap-affine model (Smith-Waterman-Gotoh).
pub struct WFAlignerGapAffine;

impl WFAlignerGapAffine {
    /// A handle without a context whose attributes select the gap-affine
    /// metric with the penalties given and a match penalty of 0, with the
    /// scope and the memory model given.
    pub fn new(
        mismatch: i32,
        gap_opening: i32,
        gap_extension: i32,
        alignment_scope: AlignmentScope,
        memory_model: MemoryModel,
    ) -> (aligner: WFAligner)
        ensures
            aligner@ == AlignerView::unconfigured(
                WFAttributes {
                    distance_metric: DistanceMetric::GapAffine,
                    affine_penalties: AffinePenalties {
                        match_: 0,
                        mismatch,
                        gap_opening,
                        gap_extension,
                    },
                    alignment_scope,
                    memory_model,
                    ..WFAttributes::baseline()
                },
            ),
            aligner@.wf(),
    {
        let mut aligner = WFAligner::new(alignment_scope, memory_model);
        aligner.attributes = aligner.attributes.affine_penalties(
            0,
            mismatch,
            gap_opening,
            gap_extension,
        );
        aligner
    }
}

} // verus!
