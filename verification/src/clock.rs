//! The monotonic clock that times touch sequences and clicks.
use vstd::prelude::*;

use std::time::{Duration, Instant};

verus! {

/// Largest number of nanoseconds a `Duration` holds: `u64::MAX` whole
/// seconds plus 999 999 999 nanoseconds.
pub const MAX_CLOCK_NANOS: u128 = 18_446_744_073_709_551_615_999_999_999;

#[verifier::external_type_specification]
#[verifier::external_body]
pub struct ExInstant(Instant);

/// `std::time::Instant::now`: the current reading of the monotonic clock.
/// Nothing is stated of the value, which depends on the time of the call.
#[verifier::external_body]
pub fn instant_now() -> Instant {
    Instant::now()
}

/// `Instant::elapsed`: the time since `epoch`. Nothing is stated of the
/// value, which depends on the time of the call.
#[verifier::external_body]
pub fn elapsed_since(epoch: &Instant) -> Duration {
    epoch.elapsed()
}

/// `Duration::as_nanos`: the total number of nanoseconds of the duration.
/// A `Duration` holds whole seconds in a `u64` and a sub-second part below
/// one second, which bounds the count; nothing more is stated.
#[verifier::external_body]
pub fn duration_as_nanos(d: &Duration) -> (r: u128)
    ensures
        r <= MAX_CLOCK_NANOS,
{
    d.as_nanos()
}

/// Nanoseconds since `epoch` on the monotonic clock.
pub fn nanos_since(epoch: &Instant) -> (r: u128)
    ensures
        r <= MAX_CLOCK_NANOS,
{
    let elapsed = elapsed_since(epoch);
    duration_as_nanos(&elapsed)
}

} // verus!
