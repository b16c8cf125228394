//! The wall clock, for the decide-time metric.

use vstd::prelude::*;

verus! {

/// Relies on chrono's `Utc::now` and `DateTime::timestamp`: seconds since the
/// Unix epoch. The value depends on the wall clock, so nothing is promised of
/// it; `Utc::now` aborts only on a system clock set before the Unix epoch.
#[verifier::external_body]
pub fn current_timestamp() -> i64 {
    chrono::Utc::now().timestamp()
}

} // verus!
