//! Wall-clock readings for the request-latency instrument.
//!
//! A timestamp is taken when a request arrives and read again once the
//! response is built. The readings depend on the machine's clock, so nothing
//! is promised of their values; the router states what holds of every
//! outcome, and a reading that fails (a clock gone backwards) ends up as a
//! zero latency sample.

use vstd::prelude::*;

verus! {

/// `std::time::SystemTime`, declared so a start-of-request timestamp can pass
/// through verified code. The value itself is opaque.
#[verifier::external_type_specification]
#[verifier::external_body]
pub struct ExSystemTime(std::time::SystemTime);

/// Relies on std::time::SystemTime::now: the current wall-clock time. Nothing
/// is promised of the value.
#[verifier::external_body]
pub(crate) fn system_now() -> (t: std::time::SystemTime) {
    std::time::SystemTime::now()
}

/// Relies on std::time::SystemTime::elapsed: the time since `t`, or `None`
/// when the clock went backwards meanwhile. Nothing is promised of the
/// outcome.
#[verifier::external_body]
pub(crate) fn elapsed_since(t: &std::time::SystemTime) -> (r: Option<core::time::Duration>) {
    t.elapsed().ok()
}

/// Relies on core::time::Duration::as_nanos: the whole number of nanoseconds
/// in `d`.
#[verifier::external_body]
pub(crate) fn duration_nanos(d: &core::time::Duration) -> (r: u128) {
    d.as_nanos()
}

} // verus!
