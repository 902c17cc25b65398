//! Pruning strategies and the engine calls that install them.

use vstd::prelude::*;

verus! {

/// A pruning strategy with its parameters, in the order in which the engine
/// takes them.
#[derive(Debug, Clone, Copy, PartialEq, Eq, Structural)]
pub enum Heuristic {
    /// No pruning.
    NoHeuristic,
    /// Static band: lowest and highest diagonal.
    BandedStatic(i32, i32),
    /// Adaptive band: lowest and highest diagonal, steps between cut-offs.
    BandedAdaptive(i32, i32, i32),
    /// Adaptive wavefront: minimum wavefront length, maximum distance
    /// threshold, steps between cut-offs.
    WFadaptive(i32, i32, i32),
    /// X-drop: threshold, steps between cut-offs.
    XDrop(i32, i32),
    /// Z-drop: threshold, steps between cut-offs.
    ZDrop(i32, i32),
}

/// One of the engine's entry points for pruning, with its arguments by name.
#[derive(Debug, Clone, Copy, PartialEq, Eq, Structural)]
pub enum HeuristicCall {
    SetNone,
    SetBandedStatic { band_min_k: i32, band_max_k: i32 },
    SetBandedAdaptive { band_min_k: i32, band_max_k: i32, steps_between_cutoffs: i32 },
    SetWFadaptive {
        min_wavefront_length: i32,
        max_distance_threshold: i32,
        steps_between_cutoffs: i32,
    },
    SetXDrop { xdrop: i32, steps_between_cutoffs: i32 },
    SetZDrop { zdrop: i32, steps_between_cutoffs: i32 },
}

impl HeuristicCall {
    /// The arguments of the call after the context, in call order.
    pub open spec fn arguments(self) -> Seq<i32> {
        match self {
            HeuristicCall::SetNone => seq![],
            HeuristicCall::SetBandedStatic { band_min_k, band_max_k } => seq![
                band_min_k,
                band_max_k,
            ],
            HeuristicCall::SetBandedAdaptive {
                band_min_k,
                band_max_k,
                steps_between_cutoffs,
            } => seq![band_min_k, band_max_k, steps_between_cutoffs],
            HeuristicCall::SetWFadaptive {
                min_wavefront_length,
                max_distance_threshold,
                steps_between_cutoffs,
            } => seq![min_wavefront_length, max_distance_threshold, steps_between_cutoffs],
            HeuristicCall::SetXDrop { xdrop, steps_between_cutoffs } => seq![
                xdrop,
                steps_between_cutoffs,
            ],
            HeuristicCall::SetZDrop { zdrop, steps_between_cutoffs } => seq![
                zdrop,
                steps_between_cutoffs,
            ],
        }
    }
}

impl Heuristic {
    /// The parameters of the strategy, in the order in which it carries them.
    pub open spec fn parameters(self) -> Seq<i32> {
        match self {
            Heuristic::NoHeuristic => seq![],
            Heuristic::BandedStatic(a, b) => seq![a, b],
            Heuristic::BandedAdaptive(a, b, c) => seq![a, b, c],
            Heuristic::WFadaptive(a, b, c) => seq![a, b, c],
            Heuristic::XDrop(a, b) => seq![a, b],
            Heuristic::ZDrop(a, b) => seq![a, b],
        }
    }

    /// Whether `call` is the entry point that belongs to this strategy.
    pub open spec fn is_installed_by(self, call: HeuristicCall) -> bool {
        match self {
            Heuristic::NoHeuristic => call is SetNone,
            Heuristic::BandedStatic(..) => call is SetBandedStatic,
            Heuristic::BandedAdaptive(..) => call is SetBandedAdaptive,
            Heuristic::WFadaptive(..) => call is SetWFadaptive,
            Heuristic::XDrop(..) => call is SetXDrop,
            Heuristic::ZDrop(..) => call is SetZDrop,
        }
    }

    /// The engine call that installs this strategy: each strategy has its own
    /// entry point, which takes the strategy's parameters unchanged and in
    /// order.
    pub fn engine_call(self) -> (call: HeuristicCall)
        ensures
            self.is_installed_by(call),
            call.arguments() == self.parameters(),
    {
        match self {
            Heuristic::NoHeuristic => HeuristicCall::SetNone,
            Heuristic::BandedStatic(band_min_k, band_max_k) => HeuristicCall::SetBandedStatic {
                band_min_k,
                band_max_k,
            },
            Heuristic::BandedAdaptive(
                band_min_k,
                band_max_k,
                steps_between_cutoffs,
            ) => HeuristicCall::SetBandedAdaptive { band_min_k, band_max_k, steps_between_cutoffs },
            Heuristic::WFadaptive(
                min_wavefront_length,
                max_distance_threshold,
                steps_between_cutoffs,
            ) => HeuristicCall::SetWFadaptive {
                min_wavefront_length,
                max_distance_threshold,
                steps_between_cutoffs,
            },
            Heuristic::XDrop(xdrop, steps_between_cutoffs) => HeuristicCall::SetXDrop {
                xdrop,
                steps_between_cutoffs,
            },
            Heuristic::ZDrop(zdrop, steps_between_cutoffs) => HeuristicCall::SetZDrop {
                zdrop,
                steps_between_cutoffs,
            },
        }
    }
}

/// A strategy's entry point and arguments determine the call: two calls that
/// both install one strategy with its parameters are the same call.
pub proof fn lemma_engine_call_is_determined(
    heuristic: Heuristic,
    first: HeuristicCall,
    second: HeuristicCall,
)
    requires
        heuristic.is_installed_by(first),
        first.arguments() == heuristic.parameters(),
        heuristic.is_installed_by(second),
        second.arguments() == heuristic.parameters(),
    ensures
        first == second,
{
    let p = heuristic.parameters();
    assert(first.arguments().len() == p.len());
    assert(second.arguments().len() == p.len());
    assert(forall|i: int| 0 <= i < p.len() ==> first.arguments()[i] == second.arguments()[i]);
    match heuristic {
        Heuristic::NoHeuristic => {},
        Heuristic::BandedStatic(..) => {
            assert(first.arguments()[0] == second.arguments()[0]);
            assert(first.arguments()[1] == second.arguments()[1]);
        },
        Heuristic::BandedAdaptive(..) => {
            assert(first.arguments()[0] == second.arguments()[0]);
            assert(first.arguments()[1] == second.arguments()[1]);
            assert(first.arguments()[2] == second.arguments()[2]);
        },
        Heuristic::WFadaptive(..) => {
            assert(first.arguments()[0] == second.arguments()[0]);
            assert(first.arguments()[1] == second.arguments()[1]);
            assert(first.arguments()[2] == second.arguments()[2]);
        },
        Heuristic::XDrop(..) => {
            assert(first.arguments()[0] == second.arguments()[0]);
            assert(first.arguments()[1] == second.arguments()[1]);
        },
        Heuristic::ZDrop(..) => {
            assert(first.arguments()[0] == second.arguments()[0]);
            assert(first.arguments()[1] == second.arguments()[1]);
        },
    }
}

} // verus!
