//! The per-bounce decision of the path tracer.
//!
//! Each bounce alternates floating-point work (intersecting the world,
//! asking the material to scatter) with a decision on plain values:
//! whether to stop with black, paint the sky gradient, or follow the
//! scattered ray with one bounce less. The float work stays outside the
//! library; the decision is verified here.

use vstd::prelude::*;

verus! {

/// What probing the world with the current ray reported: no object in
/// the ray's interval, a hit whose material absorbed the ray, or a hit
/// whose material produced a scattered ray and an attenuation.
#[derive(Clone, Copy, PartialEq, Eq, Structural, Debug)]
pub enum HitOutcome {
    Miss,
    Absorbed,
    Scattered,
}

/// What the renderer must do for the current ray: return black, return
/// the sky gradient for the ray's direction, or recurse along the
/// scattered ray with the depth budget decreased by one.
#[derive(Clone, Copy, PartialEq, Eq, Structural, Debug)]
pub enum TraceStep {
    EmitBlack,
    EmitSky,
    Bounce,
}

/// The decision at one bounce: black once the depth budget is spent,
/// whatever the outcome; otherwise sky on a miss, black on absorption,
/// and another bounce on a scatter.
pub open spec fn step_of(depth: int, outcome: HitOutcome) -> TraceStep {
    if depth <= 0 {
        TraceStep::EmitBlack
    } else {
        match outcome {
            HitOutcome::Miss => TraceStep::EmitSky,
            HitOutcome::Absorbed => TraceStep::EmitBlack,
            HitOutcome::Scattered => TraceStep::Bounce,
        }
    }
}

/// Decides what the renderer does at one bounce.
pub fn trace_step(depth: i32, outcome: HitOutcome) -> (step: TraceStep)
    ensures
        step == step_of(depth as int, outcome),
{
    if depth <= 0 {
        TraceStep::EmitBlack
    } else {
        match outcome {
            HitOutcome::Miss => TraceStep::EmitSky,
            HitOutcome::Absorbed => TraceStep::EmitBlack,
            HitOutcome::Scattered => TraceStep::Bounce,
        }
    }
}

/// A spent depth budget ends the trace in black, whatever the world
/// reported for the ray: the recursion's termination guarantee.
pub proof fn lemma_spent_budget_is_black(depth: int, outcome: HitOutcome)
    requires
        depth <= 0,
    ensures
        step_of(depth, outcome) == TraceStep::EmitBlack,
{
}

} // verus!
