//! The progress beacon: a per-actor liveness stamp.

use vstd::prelude::*;

verus! {

/// The stamp that follows `stamp`: one more, starting over after the largest.
pub open spec fn next_stamp(stamp: u64) -> u64 {
    if stamp == u64::MAX {
        0
    } else {
        (stamp + 1) as u64
    }
}

/// A counter that the actor loop stamps before and after each receive. A
/// supervisor that reads the same stamp twice in a row has seen no progress.
#[derive(Debug)]
pub struct Progress {
    stamp: u64,
}

impl Progress {
    /// The current stamp.
    pub closed spec fn stamp(&self) -> u64 {
        self.stamp
    }

    pub fn new() -> (progress: Self)
        ensures
            progress.stamp() == 0,
    {
        Progress { stamp: 0 }
    }

    /// Stamps the beacon.
    pub fn record_progress(&mut self)
        ensures
            final(self).stamp() == next_stamp(old(self).stamp()),
    {
        self.stamp = if self.stamp == u64::MAX {
            0
        } else {
            self.stamp + 1
        };
    }

    /// Reads the current stamp.
    pub fn current(&self) -> (stamp: u64)
        ensures
            stamp == self.stamp(),
    {
        self.stamp
    }

    /// Whether the beacon was stamped since a supervisor read `seen`.
    pub fn has_changed_since(&self, seen: u64) -> (changed: bool)
        ensures
            changed == (self.stamp() != seen),
    {
        self.stamp != seen
    }
}

impl Default for Progress {
    fn default() -> (progress: Self)
        ensures
            progress.stamp() == 0,
    {
        Progress::new()
    }
}

} // verus!
