use wfa_aligner::attributes::{
    AffinePenalties, AlignmentScope, DistanceMetric, LinearPenalties, MemoryModel, WFAttributes,
};

fn baseline() -> WFAttributes {
    WFAttributes {
        distance_metric: DistanceMetric::GapAffine,
        alignment_scope: AlignmentScope::Alignment,
        memory_model: MemoryModel::MemoryHigh,
        linear_penalties: LinearPenalties { match_: 0, mismatch: 4, indel: 2 },
        affine_penalties: AffinePenalties { match_: 0, mismatch: 4, gap_opening: 6, gap_extension: 2 },
    }
}

#[test]
fn default_is_the_baseline() {
    assert_eq!(WFAttributes::default(), baseline());
}

#[test]
fn default_is_fresh_on_every_call() {
    let changed = WFAttributes::default().memory_model(MemoryModel::MemoryLow);
    assert_eq!(changed.memory_model, MemoryModel::MemoryLow);
    assert_eq!(WFAttributes::default(), baseline());
}

#[test]
fn memory_model_sets_only_the_memory_model() {
    for model in [MemoryModel::MemoryHigh, MemoryModel::MemoryMed, MemoryModel::MemoryLow] {
        let attributes = WFAttributes::default().memory_model(model);
        assert_eq!(attributes, WFAttributes { memory_model: model, ..baseline() });
    }
}

#[test]
fn alignment_scope_sets_only_the_scope() {
    for scope in [AlignmentScope::Score, AlignmentScope::Alignment] {
        let attributes = WFAttributes::default().alignment_scope(scope);
        assert_eq!(attributes, WFAttributes { alignment_scope: scope, ..baseline() });
    }
}

#[test]
fn distance_metric_sets_only_the_metric() {
    for metric in [
        DistanceMetric::Indel,
        DistanceMetric::Edit,
        DistanceMetric::GapLinear,
        DistanceMetric::GapAffine,
    ] {
        let attributes = WFAttributes::default().distance_metric(metric);
        assert_eq!(attributes, WFAttributes { distance_metric: metric, ..baseline() });
    }
}

#[test]
fn linear_penalties_select_the_gap_linear_metric() {
    let attributes = WFAttributes::default().linear_penalties(0, 5, 3);
    assert_eq!(
        attributes,
        WFAttributes {
            distance_metric: DistanceMetric::GapLinear,
            linear_penalties: LinearPenalties { match_: 0, mismatch: 5, indel: 3 },
            ..baseline()
        }
    );
}

#[test]
fn affine_penalties_select_the_gap_affine_metric() {
    let attributes = WFAttributes::default()
        .distance_metric(DistanceMetric::Edit)
        .affine_penalties(0, 7, 9, 1);
    assert_eq!(
        attributes,
        WFAttributes {
            distance_metric: DistanceMetric::GapAffine,
            affine_penalties: AffinePenalties {
                match_: 0,
                mismatch: 7,
                gap_opening: 9,
                gap_extension: 1
            },
            ..baseline()
        }
    );
}

#[test]
fn the_last_penalty_setter_decides_the_metric() {
    let attributes = WFAttributes::default().affine_penalties(0, 7, 9, 1).linear_penalties(0, 5, 3);
    assert_eq!(attributes.distance_metric, DistanceMetric::GapLinear);
    assert_eq!(
        attributes.affine_penalties,
        AffinePenalties { match_: 0, mismatch: 7, gap_opening: 9, gap_extension: 1 }
    );
    assert_eq!(attributes.linear_penalties, LinearPenalties { match_: 0, mismatch: 5, indel: 3 });
}

#[test]
fn penalties_are_taken_as_given() {
    let attributes = WFAttributes::default().affine_penalties(-1, i32::MIN, i32::MAX, 0);
    assert_eq!(
        attributes.affine_penalties,
        AffinePenalties { match_: -1, mismatch: i32::MIN, gap_opening: i32::MAX, gap_extension: 0 }
    );
    let attributes = WFAttributes::default().linear_penalties(3, -2, i32::MAX);
    assert_eq!(
        attributes.linear_penalties,
        LinearPenalties { match_: 3, mismatch: -2, indel: i32::MAX }
    );
}

#[test]
fn setters_leave_the_original_value_alone() {
    let first = WFAttributes::default();
    let second = first.alignment_scope(AlignmentScope::Score);
    assert_eq!(first.alignment_scope, AlignmentScope::Alignment);
    assert_eq!(second.alignment_scope, AlignmentScope::Score);
}
