use raytracer::trace::{trace_step, HitOutcome, TraceStep};

#[test]
fn spent_budget_is_black_for_every_outcome() {
    assert_eq!(trace_step(0, HitOutcome::Miss), TraceStep::EmitBlack);
    assert_eq!(trace_step(0, HitOutcome::Absorbed), TraceStep::EmitBlack);
    assert_eq!(trace_step(0, HitOutcome::Scattered), TraceStep::EmitBlack);
}

#[test]
fn negative_budget_is_black() {
    assert_eq!(trace_step(-3, HitOutcome::Scattered), TraceStep::EmitBlack);
}

#[test]
fn miss_paints_the_sky() {
    assert_eq!(trace_step(30, HitOutcome::Miss), TraceStep::EmitSky);
}

#[test]
fn absorption_is_black() {
    assert_eq!(trace_step(30, HitOutcome::Absorbed), TraceStep::EmitBlack);
}

#[test]
fn scatter_bounces() {
    assert_eq!(trace_step(1, HitOutcome::Scattered), TraceStep::Bounce);
}
