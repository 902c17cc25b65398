//! The attribute set an aligner is created from.

use vstd::prelude::*;

verus! {

/// Cost model of the alignment.
#[derive(Debug, Clone, Copy, PartialEq, Eq, Structural)]
pub enum DistanceMetric {
    /// Insertions and deletions only (longest common subsequence).
    Indel,
    /// Unit-cost mismatches, insertions and deletions (Levenshtein).
    Edit,
    /// One penalty per gap character (Needleman-Wunsch).
    GapLinear,
    /// A penalty to open a gap and one to extend it (Smith-Waterman-Gotoh).
    GapAffine,
}

/// How much of the computation the engine keeps in memory.
#[derive(Debug, Clone, Copy, PartialEq, Eq, Structural)]
pub enum MemoryModel {
    MemoryHigh,
    MemoryMed,
    MemoryLow,
}

/// What the engine is asked to compute.
#[derive(Debug, Clone, Copy, PartialEq, Eq, Structural)]
pub enum AlignmentScope {
    /// The score only.
    Score,
    /// The score and the CIGAR.
    Alignment,
}

/// Penalties of the gap-linear model.
#[derive(Debug, Clone, Copy, PartialEq, Eq, Structural)]
pub struct LinearPenalties {
    pub match_: i32,
    pub mismatch: i32,
    pub indel: i32,
}

/// Penalties of the gap-affine model.
#[derive(Debug, Clone, Copy, PartialEq, Eq, Structural)]
pub struct AffinePenalties {
    pub match_: i32,
    pub mismatch: i32,
    pub gap_opening: i32,
    pub gap_extension: i32,
}

/// The penalties that count under a distance metric.
#[derive(Debug, Clone, Copy, PartialEq, Eq, Structural)]
pub enum ActivePenalties {
    /// The metric has no parameters.
    Fixed,
    Linear(LinearPenalties),
    Affine(AffinePenalties),
}

/// Configuration of an aligner, as plain values. The driver copies it into
/// the engine's own attribute structure when it creates the context.
#[derive(Debug, Clone, Copy, PartialEq, Eq, Structural)]
pub struct WFAttributes {
    pub distance_metric: DistanceMetric,
    pub alignment_scope: AlignmentScope,
    pub memory_model: MemoryModel,
    pub linear_penalties: LinearPenalties,
    pub affine_penalties: AffinePenalties,
}

impl WFAttributes {
    /// The engine's baseline configuration: gap-affine with penalties
    /// (0, 4, 6, 2), linear penalties (0, 4, 2), full alignment, high memory.
    pub open spec fn baseline() -> WFAttributes {
        WFAttributes {
            distance_metric: DistanceMetric::GapAffine,
            alignment_scope: AlignmentScope::Alignment,
            memory_model: MemoryModel::MemoryHigh,
            linear_penalties: LinearPenalties { match_: 0, mismatch: 4, indel: 2 },
            affine_penalties: AffinePenalties {
                match_: 0,
                mismatch: 4,
                gap_opening: 6,
                gap_extension: 2,
            },
        }
    }

    /// The one penalty shape that the distance metric selects.
    pub open spec fn active_penalties(self) -> ActivePenalties {
        match self.distance_metric {
            DistanceMetric::Indel => ActivePenalties::Fixed,
            DistanceMetric::Edit => ActivePenalties::Fixed,
            DistanceMetric::GapLinear => ActivePenalties::Linear(self.linear_penalties),
            DistanceMetric::GapAffine => ActivePenalties::Affine(self.affine_penalties),
        }
    }

    /// A fresh copy of the engine's baseline configuration.
    pub fn default() -> (attributes: WFAttributes)
        ensures
            attributes == Self::baseline(),
    {
        WFAttributes {
            distance_metric: DistanceMetric::GapAffine,
            alignment_scope: AlignmentScope::Alignment,
            memory_model: MemoryModel::MemoryHigh,
            linear_penalties: LinearPenalties { match_: 0, mismatch: 4, indel: 2 },
            affine_penalties: AffinePenalties {
                match_: 0,
                mismatch: 4,
                gap_opening: 6,
                gap_extension: 2,
            },
        }
    }

    /// Sets the memory model and leaves the rest as it is.
    pub fn memory_model(self, memory_model: MemoryModel) -> (attributes: WFAttributes)
        ensures
            attributes == (WFAttributes { memory_model, ..self }),
    {
        let mut attributes = self;
        attributes.memory_model = memory_model;
        attributes
    }

    /// Sets the alignment scope and leaves the rest as it is.
    pub fn alignment_scope(self, alignment_scope: AlignmentScope) -> (attributes: WFAttributes)
        ensures
            attributes == (WFAttributes { alignment_scope, ..self }),
    {
        let mut attributes = self;
        attributes.alignment_scope = alignment_scope;
        attributes
    }

    /// Sets the distance metric and leaves the rest as it is.
    pub fn distance_metric(self, distance_metric: DistanceMetric) -> (attributes: WFAttributes)
        ensures
            attributes == (WFAttributes { distance_metric, ..self }),
    {
        let mut attributes = self;
        attributes.distance_metric = distance_metric;
        attributes
    }

    /// Sets the linear penalties and selects the gap-linear metric, so that
    /// they are the ones that count.
    pub fn linear_penalties(self, match_: i32, mismatch: i32, indel: i32) -> (attributes:
        WFAttributes)
        ensures
            attributes == (WFAttributes {
                distance_metric: DistanceMetric::GapLinear,
                linear_penalties: LinearPenalties { match_, mismatch, indel },
                ..self
            }),
            attributes.active_penalties() == ActivePenalties::Linear(
                LinearPenalties { match_, mismatch, indel },
            ),
    {
        let mut attributes = self;
        attributes.distance_metric = DistanceMetric::GapLinear;
        attributes.linear_penalties = LinearPenalties { match_, mismatch, indel };
        attributes
    }

    /// Sets the affine penalties and selects the gap-affine metric, so that
    /// they are the ones that count.
    pub fn affine_penalties(
        self,
        match_: i32,
        mismatch: i32,
        gap_opening: i32,
        gap_extension: i32,
    ) -> (attributes: WFAttributes)
        ensures
            attributes == (WFAttributes {
                distance_metric: DistanceMetric::GapAffine,
                affine_penalties: AffinePenalties { match_, mismatch, gap_opening, gap_extension },
                ..self
            }),
            attributes.active_penalties() == ActivePenalties::Affine(
                AffinePenalties { match_, mismatch, gap_opening, gap_extension },
            ),
    {
        let mut attributes = self;
        attributes.distance_metric = DistanceMetric::GapAffine;
        attributes.affine_penalties = AffinePenalties {
            match_,
            mismatch,
            gap_opening,
            gap_extension,
        };
        attributes
    }
}

} // verus!
