//! Bindings to the standard library's clock and durations.

use std::time::Duration;
use std::time::Instant;
use vstd::prelude::*;

verus! {

/// `std::time::Instant`, a reading of the monotonic clock. Opaque to the verifier.
#[verifier::external_type_specification]
#[verifier::external_body]
pub struct ExInstant(Instant);

/// The length of a duration, in nanoseconds.
pub uninterp spec fn nanos(d: Duration) -> nat;

/// The length of `Duration::MAX` in nanoseconds: `u64::MAX` seconds and
/// 999,999,999 nanoseconds.
pub const FOREVER_NANOS: u128 = 18_446_744_073_709_551_615_999_999_999u128;

/// `Duration::as_nanos`: the whole length of the duration in nanoseconds.
pub assume_specification[ Duration::as_nanos ](d: &Duration) -> (n: u128)
    ensures
        n == nanos(*d),
;

/// `Duration::saturating_sub`: the difference of the two lengths, or zero where
/// `rhs` is the longer one.
pub assume_specification[ Duration::saturating_sub ](d: Duration, rhs: Duration) -> (r: Duration)
    ensures
        nanos(r) == if nanos(d) >= nanos(rhs) {
            nanos(d) - nanos(rhs)
        } else {
            0
        },
;

/// `Duration::MAX`, the longest duration there is.
#[verifier::external_body]
pub(crate) fn forever() -> (d: Duration)
    ensures
        nanos(d) == FOREVER_NANOS,
{
    Duration::MAX
}

/// `Instant::now`: the current reading of the monotonic clock. Nothing is
/// claimed of it.
pub assume_specification[ Instant::now ]() -> (i: Instant);

/// `Instant::elapsed`: the time that has passed since the instant was taken.
/// Nothing is claimed of it.
pub assume_specification[ Instant::elapsed ](i: &Instant) -> (d: Duration);

} // verus!
