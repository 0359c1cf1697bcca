//! Shared run statistics: in-flight, succeeded and failed request counts.
//! Updates are independent counter deltas; the dispatcher owns the counters
//! for the lifetime of one run and every update has an exact contract.

use vstd::prelude::*;

verus! {

/// Outcome statistics of one run: how many requests are in flight, how many
/// succeeded, and how many failed. `succeeded` and `failed` only grow;
/// `pending` is decremented exactly once for each increment.
#[derive(Clone, Copy, Debug, PartialEq, Eq, Structural)]
pub struct StatsCounters {
    pub pending: u64,
    pub succeeded: u64,
    pub failed: u64,
}

impl StatsCounters {
    pub fn new() -> (r: StatsCounters)
        ensures
            r == (StatsCounters { pending: 0, succeeded: 0, failed: 0 }),
    {
        StatsCounters { pending: 0, succeeded: 0, failed: 0 }
    }

    /// One more request is in flight.
    pub fn inc_pending(&mut self)
        requires
            old(self).pending < u64::MAX,
        ensures
            *final(self) == (StatsCounters { pending: (old(self).pending + 1) as u64, ..*old(self) }),
    {
        self.pending = self.pending + 1;
    }

    /// One request left the in-flight set.
    pub fn dec_pending(&mut self)
        requires
            old(self).pending >= 1,
        ensures
            *final(self) == (StatsCounters { pending: (old(self).pending - 1) as u64, ..*old(self) }),
    {
        self.pending = self.pending - 1;
    }

    /// One submission came back successful.
    pub fn inc_succeeded(&mut self)
        requires
            old(self).succeeded < u64::MAX,
        ensures
            *final(self) == (StatsCounters {
                succeeded: (old(self).succeeded + 1) as u64,
                ..*old(self)
            }),
    {
        self.succeeded = self.succeeded + 1;
    }

    /// One submission came back failed.
    pub fn inc_failed(&mut self)
        requires
            old(self).failed < u64::MAX,
        ensures
            *final(self) == (StatsCounters { failed: (old(self).failed + 1) as u64, ..*old(self) }),
    {
        self.failed = self.failed + 1;
    }
}

} // verus!
