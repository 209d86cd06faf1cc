//! The clock, and the one thing that is relied on of a duration.
//!
//! Nothing here is proved. A reading of the clock depends on the moment it
//! is taken, so nothing is claimed of it. The length of a duration in
//! nanoseconds depends on the duration alone, so it has a name that the
//! contracts of the timeout policy can speak of.

use std::time::{Duration, Instant};
use vstd::prelude::*;

verus! {

#[verifier::external_type_specification]
#[verifier::external_body]
pub struct ExInstant(Instant);

/// The whole number of nanoseconds that a duration spans: what
/// `Duration::as_nanos` returns for it.
pub uninterp spec fn duration_nanos(d: Duration) -> nat;

/// `Duration::as_nanos`: the total number of nanoseconds in `d`, which is
/// what `duration_nanos` names.
#[verifier::external_body]
pub(crate) fn nanos_of(d: &Duration) -> (n: u128)
    ensures
        n == duration_nanos(*d),
{
    d.as_nanos()
}

/// `Instant::now`: the current reading of the monotonic clock. Nothing is
/// claimed of the reading.
#[verifier::external_body]
pub(crate) fn now() -> (t: Instant) {
    Instant::now()
}

/// `Instant::elapsed`: the time that has passed since `start` was read.
/// Nothing is claimed of the amount.
#[verifier::external_body]
pub(crate) fn elapsed_since(start: &Instant) -> (d: Duration) {
    start.elapsed()
}

} // verus!
