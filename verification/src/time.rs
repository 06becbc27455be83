//! What the library assumes of `std::time`.
//!
//! A `Duration` is a whole number of nanoseconds. The clock itself is not
//! modelled: nothing is claimed of the value that a reading returns.

use vstd::prelude::*;
use std::time::Duration;
use std::time::Instant;

verus! {

/// `std::time::Instant`, a point on the monotonic clock. Verus sees nothing
/// inside a value of this type.
#[verifier::external_type_specification]
#[verifier::external_body]
pub struct ExInstant(std::time::Instant);

/// The total number of nanoseconds that a `Duration` holds, as
/// `Duration::as_nanos` returns it.
pub uninterp spec fn duration_nanos(d: Duration) -> nat;

/// `Instant::now` reads the clock. Nothing is claimed of the reading.
pub assume_specification[ Instant::now ]() -> Instant;

/// `Instant::elapsed` reads the clock. Nothing is claimed of the reading.
pub assume_specification[ Instant::elapsed ](origin: &Instant) -> Duration;

/// `Duration::as_nanos` returns the total number of nanoseconds.
pub assume_specification[ Duration::as_nanos ](d: &Duration) -> (n: u128)
    ensures
        n == duration_nanos(*d),
;

/// `Duration::as_micros` returns the number of whole microseconds: the
/// nanoseconds divided by one thousand, rounded down.
pub assume_specification[ Duration::as_micros ](d: &Duration) -> (n: u128)
    ensures
        n == duration_nanos(*d) / 1000,
;

/// `Duration::saturating_sub` returns the difference of two durations, and
/// the zero duration where the difference would be negative.
pub assume_specification[ Duration::saturating_sub ](a: Duration, b: Duration) -> (r: Duration)
    ensures
        duration_nanos(r) == if duration_nanos(a) >= duration_nanos(b) {
            duration_nanos(a) - duration_nanos(b)
        } else {
            0
        },
;

} // verus!
