//! Timing one run of a unit of work on the monotonic clock.

use crate::duration::Duration;
use std::time::Instant;
use vstd::prelude::*;

verus! {

#[verifier::external_type_specification]
#[verifier::external_body]
pub struct ExInstant(std::time::Instant);

/// Relies on `Instant::now`: a reading of the monotonic clock. Nothing is
/// known of its value.
pub assume_specification[ std::time::Instant::now ]() -> std::time::Instant;

/// Relies on `Instant::elapsed`: the time since that reading, which
/// saturates at zero rather than panicking. Nothing is known of its value.
pub assume_specification[ std::time::Instant::elapsed ](
    start: &std::time::Instant,
) -> core::time::Duration;

/// Relies on `Duration::as_secs`: the whole seconds of a std duration.
pub assume_specification[ core::time::Duration::as_secs ](d: &core::time::Duration) -> u64;

/// Relies on `Duration::subsec_nanos`: the nanoseconds past the whole
/// seconds, which its documentation puts below one billion.
pub assume_specification[ core::time::Duration::subsec_nanos ](d: &core::time::Duration) -> (r:
    u32)
    ensures
        r < 1_000_000_000,
;

/// The time passed since `start`, as a span of this library.
fn elapsed_since(start: &Instant) -> Duration {
    let d = start.elapsed();
    Duration::new(d.as_secs(), d.subsec_nanos())
}

/// Runs `f` once and returns how long the run took on the monotonic clock;
/// what `f` returns is dropped.
pub fn measure_time<R>(f: impl FnOnce() -> R) -> (d: Duration)
    requires
        f.requires(()),
    ensures
        exists|v: R| f.ensures((), v),
{
    let start = Instant::now();
    let value = f();
    assert(f.ensures((), value));
    elapsed_since(&start)
}

/// Runs `f` once and returns what it returned together with how long the
/// run took on the monotonic clock.
pub fn measure_time_with_value<R>(f: impl FnOnce() -> R) -> (r: (R, Duration))
    requires
        f.requires(()),
    ensures
        f.ensures((), r.0),
{
    let start = Instant::now();
    let value = f();
    (value, elapsed_since(&start))
}

} // verus!
