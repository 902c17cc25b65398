use wfa_aligner::heuristic::{Heuristic, HeuristicCall};

#[test]
fn no_heuristic_takes_no_arguments() {
    assert_eq!(Heuristic::NoHeuristic.engine_call(), HeuristicCall::SetNone);
}

#[test]
fn banded_static_passes_its_band() {
    assert_eq!(
        Heuristic::BandedStatic(1, 2).engine_call(),
        HeuristicCall::SetBandedStatic { band_min_k: 1, band_max_k: 2 }
    );
}

#[test]
fn banded_adaptive_passes_band_and_cadence() {
    assert_eq!(
        Heuristic::BandedAdaptive(1, 2, 3).engine_call(),
        HeuristicCall::SetBandedAdaptive { band_min_k: 1, band_max_k: 2, steps_between_cutoffs: 3 }
    );
}

#[test]
fn wfadaptive_passes_length_distance_and_cadence() {
    assert_eq!(
        Heuristic::WFadaptive(10, 50, 1).engine_call(),
        HeuristicCall::SetWFadaptive {
            min_wavefront_length: 10,
            max_distance_threshold: 50,
            steps_between_cutoffs: 1
        }
    );
}

#[test]
fn xdrop_passes_threshold_and_cadence() {
    assert_eq!(
        Heuristic::XDrop(100, 7).engine_call(),
        HeuristicCall::SetXDrop { xdrop: 100, steps_between_cutoffs: 7 }
    );
}

#[test]
fn zdrop_passes_threshold_and_cadence() {
    assert_eq!(
        Heuristic::ZDrop(200, 9).engine_call(),
        HeuristicCall::SetZDrop { zdrop: 200, steps_between_cutoffs: 9 }
    );
}

#[test]
fn parameters_pass_unchanged_whatever_their_value() {
    assert_eq!(
        Heuristic::BandedStatic(i32::MIN, i32::MAX).engine_call(),
        HeuristicCall::SetBandedStatic { band_min_k: i32::MIN, band_max_k: i32::MAX }
    );
    assert_eq!(
        Heuristic::BandedAdaptive(5, -5, 0).engine_call(),
        HeuristicCall::SetBandedAdaptive { band_min_k: 5, band_max_k: -5, steps_between_cutoffs: 0 }
    );
    assert_eq!(
        Heuristic::XDrop(-1, -2).engine_call(),
        HeuristicCall::SetXDrop { xdrop: -1, steps_between_cutoffs: -2 }
    );
}
