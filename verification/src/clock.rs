//! The wall clock.

use vstd::prelude::*;

verus! {

/// Calls `chrono::Utc::now` and returns its `timestamp`: the seconds since
/// the Unix epoch on this machine's clock. Nothing is claimed of the value.
/// `Utc::now` does not return on a machine whose clock stands before the
/// epoch.
#[verifier::external_body]
pub(crate) fn unix_now() -> (now: i64) {
    chrono::Utc::now().timestamp()
}

} // verus!
