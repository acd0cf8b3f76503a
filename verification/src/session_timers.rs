//! When the two sweeps are next due.

use vstd::prelude::*;

verus! {

/// The times, in seconds since the epoch, from which the next memory sweep
/// and the next storage sweep are due.
#[derive(Clone, Copy, Debug, PartialEq, Eq, Structural)]
pub struct AxumSessionTimers {
    pub last_expiry_sweep: i64,
    pub last_database_expiry_sweep: i64,
}

impl AxumSessionTimers {
    /// Whether a memory sweep is due at time `now`.
    pub open spec fn memory_due(self, now: int) -> bool {
        self.last_expiry_sweep <= now
    }

    /// Whether a storage sweep is due at time `now`.
    pub open spec fn storage_due(self, now: int) -> bool {
        self.last_database_expiry_sweep <= now
    }

    /// Timers whose two sweeps are due from `now` on.
    pub fn new(now: i64) -> (timers: AxumSessionTimers)
        ensures
            timers == (AxumSessionTimers { last_expiry_sweep: now, last_database_expiry_sweep: now }),
    {
        AxumSessionTimers { last_expiry_sweep: now, last_database_expiry_sweep: now }
    }
}

} // verus!
