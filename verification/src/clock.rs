//! The wall clock. The reading is handed to the poller as a plain value, so
//! every decision made from it is verified for every possible reading.

use vstd::prelude::*;

verus! {

/// Relies on `chrono::Utc::now` and `chrono::DateTime::timestamp`: the
/// current wall-clock time as whole seconds since the Unix epoch. Nothing is
/// assumed of the returned value, so callers state what holds of every
/// reading. Caveat inherited from `chrono::Utc::now`: on a host whose clock
/// is set before the Unix epoch it panics instead of returning.
#[verifier::external_body]
pub(crate) fn now_timestamp() -> (r: i64) {
    chrono::Utc::now().timestamp()
}

} // verus!
