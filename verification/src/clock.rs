//! The monotonic clock. Readings depend on time, so nothing is stated of their
//! values; decisions that depend on elapsed time take the readings as
//! arguments and are verified for every value of them.
use vstd::prelude::*;
use std::time::{Duration, Instant};

verus! {

/// A point on the monotonic clock (std `Instant`), opaque to proofs.
#[verifier::external_type_specification]
#[verifier::external_body]
pub struct ExInstant(Instant);

/// Cloning an `Instant` (std `Clone for Instant`): `Instant` is `Copy`, so a
/// clone is the same instant. Trusted.
pub assume_specification[ <Instant as Clone>::clone ](t: &Instant) -> (r: Instant)
    ensures
        r == *t,
;

/// Reads the monotonic clock (std `Instant::now`). Trusted; nothing is stated
/// of the reading.
#[verifier::external_body]
pub(crate) fn now() -> Instant {
    Instant::now()
}

/// Time elapsed since `t` (std `Instant::elapsed`). Trusted; nothing is stated
/// of the result, which depends on the time of the call.
#[verifier::external_body]
pub(crate) fn elapsed(t: &Instant) -> Duration {
    t.elapsed()
}

/// Time elapsed since `t` in whole nanoseconds (std `Instant::elapsed`, read
/// with `Duration::as_nanos`). Trusted; nothing is stated of the result, which
/// depends on the time of the call.
#[verifier::external_body]
pub(crate) fn elapsed_nanos(t: &Instant) -> u128 {
    t.elapsed().as_nanos()
}

/// Nanoseconds in a second.
pub const NANOS_PER_SEC: u128 = 1_000_000_000;

} // verus!
