//! The wall clock, behind a trusted boundary.

use vstd::prelude::*;

verus! {

/// Relies on `chrono::Utc::now` (and `DateTime::timestamp_millis`):
/// milliseconds since the Unix epoch by the machine's clock. The value
/// depends on the moment of the call, so nothing is promised of it.
#[verifier::external_body]
pub(crate) fn current_timestamp_millis() -> i64 {
    chrono::Utc::now().timestamp_millis()
}

} // verus!
