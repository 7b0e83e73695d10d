//! The wall clock.
use vstd::prelude::*;

verus! {

/// The current time in milliseconds since the Unix epoch.
///
/// Calls `chrono::Utc::now` and converts the result with
/// `DateTime::timestamp_millis`. The time differs from call to call, so the
/// contract states only what holds of every reading: `Utc::now` measures the
/// time elapsed since the epoch, which is never negative. It panics if the
/// system clock is set before the epoch.
#[verifier::external_body]
pub(crate) fn now_millis() -> (millis: i64)
    ensures
        millis >= 0,
{
    chrono::Utc::now().timestamp_millis()
}

} // verus!
