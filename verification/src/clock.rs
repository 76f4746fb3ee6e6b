//! The wall clock, behind a trusted wrapper. Nothing is promised of the
//! value: every caller states what holds whatever time comes back.

use vstd::prelude::*;

verus! {

/// Relies on `chrono::Utc::now().timestamp_millis()`: the current wall-clock
/// time in milliseconds since the epoch. No two calls need agree.
#[verifier::external_body]
pub fn now_millis() -> i64 {
    chrono::Utc::now().timestamp_millis()
}

} // verus!
