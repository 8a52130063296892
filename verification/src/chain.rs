//! Fork activation times.
use vstd::prelude::*;

verus! {

/// The activation times that payload and replay rules depend on. A fork without a time never
/// activates.
#[derive(Clone, Copy, Debug)]
pub struct TaikoChainSpec {
    /// Timestamp of the first Shanghai block.
    pub shanghai_time: Option<u64>,
    /// Timestamp of the first Unzen block.
    pub unzen_time: Option<u64>,
}

/// Whether a fork with activation time `time` is active at `timestamp`.
pub open spec fn reached(time: Option<u64>, timestamp: u64) -> bool {
    time matches Some(time) && time <= timestamp
}

impl TaikoChainSpec {
    /// Whether Shanghai is active at a timestamp.
    pub fn is_shanghai_active_at_timestamp(&self, timestamp: u64) -> (r: bool)
        ensures
            r == reached(self.shanghai_time, timestamp),
    {
        match self.shanghai_time {
            Some(time) => time <= timestamp,
            None => false,
        }
    }

    /// Whether Unzen is active at a timestamp.
    pub fn is_unzen_active(&self, timestamp: u64) -> (r: bool)
        ensures
            r == reached(self.unzen_time, timestamp),
    {
        match self.unzen_time {
            Some(time) => time <= timestamp,
            None => false,
        }
    }
}

/// A fork that is active at some time stays active.
pub proof fn forks_stay_active(time: Option<u64>, timestamp: u64, later: u64)
    requires
        reached(time, timestamp),
        timestamp <= later,
    ensures
        reached(time, later),
{
}

/// A fork is active from its activation time on and not before, and a fork without one never is.
pub proof fn forks_start_at_their_time(time: u64, timestamp: u64)
    ensures
        reached(Some(time), time),
        timestamp < time ==> !reached(Some(time), timestamp),
        timestamp >= time ==> reached(Some(time), timestamp),
        !reached(None, timestamp),
{
}

} // verus!
