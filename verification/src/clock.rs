use vstd::prelude::*;

verus! {

#[verifier::external_type_specification]
#[verifier::external_body]
pub struct ExInstant(std::time::Instant);

/// Relies on std's `Instant::now`: an opaque reading of the monotonic clock.
/// The value depends on when the call runs, so nothing is promised of it.
#[verifier::external_body]
pub(crate) fn instant_now() -> std::time::Instant {
    std::time::Instant::now()
}

/// Relies on std's `Instant::elapsed`: the time since `start`. The value
/// depends on the clock, so nothing is promised of it.
#[verifier::external_body]
pub(crate) fn elapsed_since(start: &std::time::Instant) -> core::time::Duration {
    start.elapsed()
}

/// Relies on std's derived total order on `Duration`: whether `a` is strictly
/// longer than `b`. Durations are opaque here, so nothing is promised of the
/// answer.
#[verifier::external_body]
pub(crate) fn duration_exceeds(a: &core::time::Duration, b: &core::time::Duration) -> bool {
    *a > *b
}

} // verus!
