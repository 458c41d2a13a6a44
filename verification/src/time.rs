use vstd::prelude::*;

verus! {

/// Relies on chrono's Utc::now: the wall clock in milliseconds since the
/// Unix epoch. The clock is not monotonic, so nothing is promised of the
/// value; callers state what holds for every reading.
#[verifier::external_body]
pub fn now_millis() -> u64 {
    chrono::Utc::now().timestamp_millis() as u64
}

} // verus!
