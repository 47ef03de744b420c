//! The queue on which a user hands its request records to the counters. The
//! queue is bounded: a user never waits for room, it leaves the record out
//! and counts it as dropped.

use vstd::prelude::*;

use crate::aggregate::GooseMetrics;
use crate::metrics::GooseRequestMetric;

verus! {

/// How many records the queue of a user holds unless told otherwise.
pub const DEFAULT_QUEUE_CAPACITY: usize = 1024;

/// The bounded queue of one user.
#[derive(Debug)]
pub struct GooseMetricQueue {
    /// How many records the queue holds at most.
    pub capacity: usize,
    /// The records that wait, the oldest first.
    pub records: Vec<GooseRequestMetric>,
    /// How many records were left out because the queue was full.
    pub dropped_metrics: u64,
}

impl GooseMetricQueue {
    /// The queue holds no more than its capacity.
    pub open spec fn well_formed(&self) -> bool {
        self.records@.len() <= self.capacity
    }

    /// An empty queue.
    pub fn new(capacity: usize) -> (r: GooseMetricQueue)
        ensures
            r.well_formed(),
            r.capacity == capacity,
            r.records@.len() == 0,
            r.dropped_metrics == 0,
    {
        GooseMetricQueue { capacity, records: Vec::new(), dropped_metrics: 0 }
    }

    /// A user hands over a record. Where there is room the record waits
    /// behind those that wait already; where there is none it is left out
    /// and counted as dropped.
    pub fn offer(&mut self, record: GooseRequestMetric) -> (accepted: bool)
        requires
            old(self).well_formed(),
        ensures
            final(self).well_formed(),
            final(self).capacity == old(self).capacity,
            accepted == (old(self).records@.len() < old(self).capacity),
            accepted ==> final(self).records@ == old(self).records@.push(record) && final(self).dropped_metrics == old(self).dropped_metrics,
            !accepted ==> final(self).records@ == old(self).records@ && final(self).dropped_metrics
                == if old(self).dropped_metrics < u64::MAX {
                (old(self).dropped_metrics + 1) as u64
            } else {
                u64::MAX
            },
    {
        if self.records.len() < self.capacity {
            self.records.push(record);
            true
        } else {
            if self.dropped_metrics < u64::MAX {
                self.dropped_metrics = self.dropped_metrics + 1;
            }
            false
        }
    }

    /// Takes the records that wait, the oldest first, and leaves the queue
    /// empty.
    pub fn drain(&mut self) -> (r: Vec<GooseRequestMetric>)
        ensures
            final(self).well_formed(),
            final(self).capacity == old(self).capacity,
            final(self).dropped_metrics == old(self).dropped_metrics,
            final(self).records@.len() == 0,
            r@ == old(self).records@,
    {
        let mut taken: Vec<GooseRequestMetric> = Vec::new();
        std::mem::swap(&mut taken, &mut self.records);
        taken
    }
}

impl GooseMetrics {
    /// Adds what a user dropped to what was dropped in all, when the user
    /// has gone. The count stops at the largest number that it can hold.
    pub fn merge_dropped(&mut self, dropped: u64)
        ensures
            final(self).requests == old(self).requests,
            final(self).dropped_metrics == if old(self).dropped_metrics + dropped > u64::MAX {
                u64::MAX
            } else {
                (old(self).dropped_metrics + dropped) as u64
            },
    {
        if dropped > u64::MAX - self.dropped_metrics {
            self.dropped_metrics = u64::MAX;
        } else {
            self.dropped_metrics = self.dropped_metrics + dropped;
        }
    }
}

} // verus!
