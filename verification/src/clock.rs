//! The boundary to the monotonic clock and to `std::time::Duration`.
//!
//! Nothing in this module is proved: each function states what the standard
//! library documents of the call it makes.

use std::time::Duration;
use std::time::Instant;
use vstd::prelude::*;

verus! {

/// `std::time::Instant`: a reading of the monotonic clock. The timer keeps
/// one as the origin of a run and never looks inside.
#[verifier::external_type_specification]
#[verifier::external_body]
pub struct ExInstant(std::time::Instant);

/// The length of a `Duration`, in whole nanoseconds: its seconds times
/// 1,000,000,000, plus its nanoseconds below a second.
pub uninterp spec fn duration_nanos(d: Duration) -> nat;

/// The length of `Duration::MAX`, the longest span a `Duration` can hold:
/// `u64::MAX` seconds and 999,999,999 nanoseconds.
pub open spec fn max_duration_nanos() -> nat {
    0xffff_ffff_ffff_ffff * 1_000_000_000 + 999_999_999
}

/// A span of `total` nanoseconds, clamped at the longest representable one.
pub open spec fn saturating_nanos(total: nat) -> nat {
    if total <= max_duration_nanos() {
        total
    } else {
        max_duration_nanos()
    }
}

/// `Instant::now`: the current reading of the monotonic clock. Nothing is
/// claimed of the value.
#[verifier::external_body]
pub(crate) fn now() -> (t: Instant) {
    Instant::now()
}

/// `Instant::elapsed`: the time that has passed since `origin` was read.
/// Nothing is claimed of the value.
#[verifier::external_body]
pub(crate) fn elapsed_since(origin: &Instant) -> (slice: Duration) {
    origin.elapsed()
}

/// `Duration::ZERO`: the empty span.
#[verifier::external_body]
pub(crate) fn zero() -> (d: Duration)
    ensures
        duration_nanos(d) == 0,
{
    Duration::ZERO
}

/// `Duration::saturating_add`: the sum of both spans, or `Duration::MAX`
/// where the sum cannot be represented.
#[verifier::external_body]
pub(crate) fn saturating_add(a: Duration, b: Duration) -> (sum: Duration)
    ensures
        duration_nanos(sum) == saturating_nanos(duration_nanos(a) + duration_nanos(b)),
{
    a.saturating_add(b)
}

/// `Duration::as_millis`: the whole milliseconds in the span, the rest
/// dropped.
#[verifier::external_body]
pub(crate) fn as_millis(d: Duration) -> (ms: u128)
    ensures
        ms == duration_nanos(d) / 1_000_000,
{
    d.as_millis()
}

} // verus!
