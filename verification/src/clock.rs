//! The wall clock, read through the chrono crate.

use vstd::prelude::*;

verus! {

/// Relies on chrono's `Utc::now`: the current time, as seconds since the
/// Unix epoch. Nothing is promised of the reading; callers state what holds
/// of every value.
#[verifier::external_body]
pub(crate) fn now_epoch_seconds() -> i64 {
    chrono::Utc::now().timestamp()
}

} // verus!
