//! The logical clock stamped on every snapshot of the topic table.
use vstd::prelude::*;

verus! {

/// A timestamp, the state-machine version of the message log that was last
/// folded in, and a counter that every change of the table advances.
#[derive(Clone, Copy, Debug, PartialEq, Eq, Structural)]
pub struct DataVersion {
    pub state_version: u64,
    pub timestamp: u64,
    pub counter: u64,
}

impl DataVersion {
    pub fn new(timestamp: u64) -> (r: DataVersion)
        ensures
            r == (DataVersion { state_version: 0, timestamp, counter: 0 }),
    {
        DataVersion { state_version: 0, timestamp, counter: 0 }
    }

    pub fn state_version(&self) -> (r: u64)
        ensures
            r == self.state_version,
    {
        self.state_version
    }

    pub fn timestamp(&self) -> (r: u64)
        ensures
            r == self.timestamp,
    {
        self.timestamp
    }

    pub fn counter(&self) -> (r: u64)
        ensures
            r == self.counter,
    {
        self.counter
    }

    /// Advances the counter and stamps the time, keeping the state version.
    pub fn next_version(&mut self, now: u64)
        requires
            old(self).counter < u64::MAX,
        ensures
            *final(self) == (DataVersion {
                state_version: old(self).state_version,
                timestamp: now,
                counter: (old(self).counter + 1) as u64,
            }),
    {
        self.timestamp = now;
        self.counter = self.counter + 1;
    }

    /// Advances the counter, stamps the time and folds in the message log's
    /// state-machine version.
    pub fn next_version_with(&mut self, state_version: u64, now: u64)
        requires
            old(self).counter < u64::MAX,
        ensures
            *final(self) == (DataVersion {
                state_version,
                timestamp: now,
                counter: (old(self).counter + 1) as u64,
            }),
    {
        self.timestamp = now;
        self.state_version = state_version;
        self.counter = self.counter + 1;
    }

    /// Takes over every component of another version.
    pub fn assign_new_one(&mut self, other: &DataVersion)
        ensures
            *final(self) == *other,
    {
        self.timestamp = other.timestamp;
        self.state_version = other.state_version;
        self.counter = other.counter;
    }
}

} // verus!
