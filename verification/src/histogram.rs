//! A sketch of response times: how many responses took how long, with times
//! counted the more coarsely the longer they are, and the percentiles that
//! can be read from it.

use vstd::prelude::*;

verus! {

/// How many responses took a time.
#[derive(Debug, Clone, Copy, PartialEq, Eq, Structural)]
pub struct GooseTimeCount {
    /// The time in milliseconds, as it is counted.
    pub time: u64,
    /// How many responses took it.
    pub count: u64,
}

/// The response times of one endpoint.
#[derive(Debug)]
pub struct GooseResponseTimes {
    /// The counts by time, the shortest time first.
    pub buckets: Vec<GooseTimeCount>,
}

/// The time under which a response time is counted: itself below a hundred
/// milliseconds, the ten below it under five hundred, the hundred below it
/// under a thousand, and the thousand below it above.
pub open spec fn counted_time(time: u64) -> u64 {
    if time < 100 {
        time
    } else if time < 500 {
        (time - time % 10) as u64
    } else if time < 1000 {
        (time - time % 100) as u64
    } else {
        (time - time % 1000) as u64
    }
}

/// How many responses are counted under `time`.
pub open spec fn time_count(buckets: Seq<GooseTimeCount>, time: u64) -> int
    decreases buckets.len(),
{
    if buckets.len() == 0 {
        0
    } else {
        time_count(buckets.drop_last(), time) + if buckets.last().time == time {
            buckets.last().count as int
        } else {
            0
        }
    }
}

/// How many responses the first `n` buckets count.
pub open spec fn counted_up_to(buckets: Seq<GooseTimeCount>, n: int) -> int
    decreases n,
{
    if n <= 0 {
        0
    } else {
        counted_up_to(buckets, n - 1) + buckets[n - 1].count
    }
}

/// The times of the buckets ascend, and no bucket is empty.
pub open spec fn ascending(buckets: Seq<GooseTimeCount>) -> bool {
    &&& forall|i: int, j: int| 0 <= i < j < buckets.len() ==> buckets[i].time < buckets[j].time
    &&& forall|i: int| 0 <= i < buckets.len() ==> (#[trigger] buckets[i]).count >= 1
}

/// The bucket at `index` holds the percentile `percent`: with it the share
/// is reached, and without it it is not.
pub open spec fn holds_percentile(buckets: Seq<GooseTimeCount>, percent: int, index: int) -> bool {
    let total = counted_up_to(buckets, buckets.len() as int);
    &&& 0 <= index < buckets.len()
    &&& counted_up_to(buckets, index + 1) * 100 >= percent * total
    &&& forall|j: int| 0 <= j < index ==> #[trigger] counted_up_to(buckets, j + 1) * 100 < percent * total
}

/// `time` is the percentile `percent` of what the buckets count: the time of
/// the first bucket with which that share of the responses is reached.
pub open spec fn is_percentile(buckets: Seq<GooseTimeCount>, percent: u8, time: u64) -> bool {
    exists|index: int| #[trigger]
        holds_percentile(buckets, share_of_percent(percent), index) && buckets[index].time == time
}

/// A share in percent, held to a hundred.
pub open spec fn share_of_percent(percent: u8) -> int {
    if percent > 100 {
        100
    } else {
        percent as int
    }
}

/// Counting goes up with the number of buckets.
pub proof fn lemma_counted_up_to_monotonic(buckets: Seq<GooseTimeCount>, i: int, j: int)
    requires
        0 <= i <= j <= buckets.len(),
    ensures
        0 <= counted_up_to(buckets, i) <= counted_up_to(buckets, j),
    decreases j,
{
    if i < j {
        lemma_counted_up_to_monotonic(buckets, i, j - 1);
    } else if i > 0 {
        lemma_counted_up_to_monotonic(buckets, i - 1, i - 1);
    }
}

/// Replacing the bucket at `index` by one of the same time with one more
/// response: one more response is counted under that time, and in all.
pub proof fn lemma_bucket_bumped(buckets: Seq<GooseTimeCount>, index: int, time: u64, n: int)
    requires
        0 <= index < buckets.len(),
        0 <= n <= buckets.len(),
        buckets[index].count < u64::MAX,
    ensures
        time_count(
            buckets.update(
                index,
                GooseTimeCount {
                    time: buckets[index].time,
                    count: (buckets[index].count + 1) as u64,
                },
            ),
            time,
        ) == time_count(buckets, time) + if buckets[index].time == time {
            1int
        } else {
            0int
        },
        counted_up_to(
            buckets.update(
                index,
                GooseTimeCount {
                    time: buckets[index].time,
                    count: (buckets[index].count + 1) as u64,
                },
            ),
            n,
        ) == counted_up_to(buckets, n) + if index < n {
            1int
        } else {
            0int
        },
    decreases buckets.len(), n,
{
    let bumped = GooseTimeCount {
        time: buckets[index].time,
        count: (buckets[index].count + 1) as u64,
    };
    let updated = buckets.update(index, bumped);
    if n > 0 {
        lemma_bucket_bumped(buckets, index, time, n - 1);
    }
    if index == buckets.len() - 1 {
        assert(updated.drop_last() =~= buckets.drop_last());
    } else {
        assert(updated.drop_last() =~= buckets.drop_last().update(index, bumped));
        lemma_bucket_bumped(buckets.drop_last(), index, time, 0);
    }
}

/// Putting a bucket in at `index`: its responses are counted under its
/// time, and in all.
pub proof fn lemma_bucket_inserted(
    buckets: Seq<GooseTimeCount>,
    index: int,
    bucket: GooseTimeCount,
    time: u64,
)
    requires
        0 <= index <= buckets.len(),
    ensures
        time_count(buckets.insert(index, bucket), time) == time_count(buckets, time) + if bucket.time
            == time {
            bucket.count as int
        } else {
            0
        },
        counted_up_to(buckets.insert(index, bucket), buckets.len() as int + 1) == counted_up_to(
            buckets,
            buckets.len() as int,
        ) + bucket.count,
    decreases buckets.len(),
{
    let inserted = buckets.insert(index, bucket);
    if index == buckets.len() {
        assert(inserted.drop_last() =~= buckets);
        lemma_counted_prefix(inserted, buckets, buckets.len() as int);
    } else {
        assert(inserted.drop_last() =~= buckets.drop_last().insert(index, bucket));
        assert(inserted.last() == buckets.last());
        lemma_bucket_inserted(buckets.drop_last(), index, bucket, time);
        lemma_counted_prefix(inserted, inserted.drop_last(), buckets.len() as int);
        lemma_counted_prefix(buckets, buckets.drop_last(), buckets.len() - 1);
    }
}

/// What the first buckets count depends on the first buckets only.
pub proof fn lemma_counted_prefix(a: Seq<GooseTimeCount>, b: Seq<GooseTimeCount>, n: int)
    requires
        0 <= n <= a.len(),
        n <= b.len(),
        forall|i: int| 0 <= i < n ==> a[i] == b[i],
    ensures
        counted_up_to(a, n) == counted_up_to(b, n),
    decreases n,
{
    if n > 0 {
        lemma_counted_prefix(a, b, n - 1);
    }
}

/// No response is counted under a time that no bucket has.
pub proof fn lemma_time_absent(buckets: Seq<GooseTimeCount>, time: u64)
    requires
        forall|i: int| 0 <= i < buckets.len() ==> (#[trigger] buckets[i]).time != time,
    ensures
        time_count(buckets, time) == 0,
    decreases buckets.len(),
{
    if buckets.len() > 0 {
        lemma_time_absent(buckets.drop_last(), time);
    }
}

/// There is one percentile at most: two times that are the same percentile
/// of the same buckets are the same time.
pub proof fn lemma_percentile_unique(buckets: Seq<GooseTimeCount>, percent: u8, a: u64, b: u64)
    requires
        is_percentile(buckets, percent, a),
        is_percentile(buckets, percent, b),
    ensures
        a == b,
{
    let share = share_of_percent(percent);
    let i = choose|index: int| #[trigger]
        holds_percentile(buckets, share, index) && buckets[index].time == a;
    let j = choose|index: int| #[trigger]
        holds_percentile(buckets, share, index) && buckets[index].time == b;
    let total = counted_up_to(buckets, buckets.len() as int);
    if i < j {
        assert(counted_up_to(buckets, i + 1) * 100 < share * total);
    } else if j < i {
        assert(counted_up_to(buckets, j + 1) * 100 < share * total);
    }
}

impl GooseResponseTimes {
    /// The buckets are in order.
    pub open spec fn well_formed(&self) -> bool {
        ascending(self.buckets@)
    }

    /// How many responses are counted in all.
    pub open spec fn total(&self) -> int {
        counted_up_to(self.buckets@, self.buckets@.len() as int)
    }

    /// How many responses are counted under `time`.
    pub open spec fn count(&self, time: u64) -> int {
        time_count(self.buckets@, time)
    }

    /// A sketch in which nothing is counted.
    pub fn new() -> (r: GooseResponseTimes)
        ensures
            r.well_formed(),
            r.total() == 0,
            r.buckets@.len() == 0,
    {
        GooseResponseTimes { buckets: Vec::new() }
    }

    /// The time under which a response time is counted.
    pub fn rounded(time: u64) -> (r: u64)
        ensures
            r == counted_time(time),
    {
        if time < 100 {
            time
        } else if time < 500 {
            time - time % 10
        } else if time < 1000 {
            time - time % 100
        } else {
            time - time % 1000
        }
    }

    /// Counts one response. Counts only ever go up.
    pub fn add(&mut self, response_time: u64)
        requires
            old(self).well_formed(),
            old(self).total() < u64::MAX,
        ensures
            final(self).well_formed(),
            final(self).total() == old(self).total() + 1,
            forall|time: u64|
                final(self).count(time) == old(self).count(time) + if time == counted_time(
                    response_time,
                ) {
                    1int
                } else {
                    0int
                },
    {
        let time = GooseResponseTimes::rounded(response_time);
        let mut i: usize = 0;
        while i < self.buckets.len() && self.buckets[i].time < time
            invariant
                i <= self.buckets.len(),
                self.buckets@ == old(self).buckets@,
                forall|k: int| 0 <= k < i ==> (#[trigger] self.buckets@[k]).time < time,
            decreases self.buckets.len() - i,
        {
            i += 1;
        }
        let ghost before = self.buckets@;
        if i < self.buckets.len() && self.buckets[i].time == time {
            let seen = self.buckets[i].count;
            proof {
                lemma_counted_up_to_monotonic(before, i + 1, before.len() as int);
                lemma_counted_up_to_monotonic(before, i as int, i as int);
                lemma_bucket_bumped(before, i as int, time, before.len() as int);
                assert forall|t: u64|
                    time_count(
                        before.update(
                            i as int,
                            GooseTimeCount { time, count: (seen + 1) as u64 },
                        ),
                        t,
                    ) == time_count(before, t) + if t == time {
                        1int
                    } else {
                        0int
                    } by {
                    lemma_bucket_bumped(before, i as int, t, 0);
                }
            }
            self.buckets.set(i, GooseTimeCount { time, count: seen + 1 });
        } else {
            let bucket = GooseTimeCount { time, count: 1 };
            proof {
                lemma_bucket_inserted(before, i as int, bucket, time);
                assert forall|t: u64|
                    time_count(before.insert(i as int, bucket), t) == time_count(before, t) + if t
                        == time {
                        1int
                    } else {
                        0int
                    } by {
                    lemma_bucket_inserted(before, i as int, bucket, t);
                }
                let after = before.insert(i as int, bucket);
                assert forall|a: int, b: int| 0 <= a < b < after.len() implies after[a].time
                    < after[b].time by {
                    if a < i && b > i {
                        assert(after[a] == before[a]);
                        assert(after[b] == before[b - 1]);
                        assert(before[a].time < time);
                        assert(before[i as int].time <= before[b - 1].time);
                    }
                }
            }
            self.buckets.insert(i, bucket);
        }
    }

    /// A percentile: the shortest counted time with which that share of the
    /// responses is reached. There is none where nothing is counted. A share
    /// above a hundred is read as a hundred.
    pub fn percentile(&self, percent: u8) -> (r: Option<u64>)
        requires
            self.well_formed(),
            self.total() <= u64::MAX,
        ensures
            self.buckets@.len() == 0 ==> r is None,
            self.buckets@.len() > 0 ==> r is Some && is_percentile(
                self.buckets@,
                percent,
                r.unwrap(),
            ),
    {
        if self.buckets.len() == 0 {
            return None;
        }
        let share: u128 = if percent > 100 {
            100
        } else {
            percent as u128
        };
        let ghost buckets = self.buckets@;
        let mut total: u64 = 0;
        let mut i: usize = 0;
        while i < self.buckets.len()
            invariant
                i <= self.buckets.len(),
                buckets == self.buckets@,
                total == counted_up_to(buckets, i as int),
                counted_up_to(buckets, buckets.len() as int) <= u64::MAX,
            decreases self.buckets.len() - i,
        {
            proof {
                lemma_counted_up_to_monotonic(buckets, i + 1, buckets.len() as int);
            }
            total = total + self.buckets[i].count;
            i += 1;
        }
        assert(share * total <= 100 * 0xffff_ffff_ffff_ffff) by (nonlinear_arith)
            requires
                0 <= share <= 100,
                0 <= total <= 0xffff_ffff_ffff_ffff,
        ;
        let goal: u128 = share * (total as u128);
        let mut reached: u64 = 0;
        let mut i: usize = 0;
        while i < self.buckets.len()
            invariant
                i <= self.buckets.len(),
                buckets == self.buckets@,
                buckets.len() > 0,
                total == counted_up_to(buckets, buckets.len() as int),
                goal == share * total,
                share == share_of_percent(percent),
                reached == counted_up_to(buckets, i as int),
                forall|j: int| 0 <= j < i ==> #[trigger] counted_up_to(buckets, j + 1) * 100 < goal,
            decreases self.buckets.len() - i,
        {
            proof {
                lemma_counted_up_to_monotonic(buckets, i + 1, buckets.len() as int);
            }
            reached = reached + self.buckets[i].count;
            if (reached as u128) * 100 >= goal {
                assert(reached == counted_up_to(buckets, i + 1));
                assert(holds_percentile(buckets, share as int, i as int));
                return Some(self.buckets[i].time);
            }
            assert(counted_up_to(buckets, i + 1) * 100 < goal);
            i += 1;
        }
        proof {
            // Not reached: with the last bucket every share is reached.
            let last = buckets.len() - 1;
            assert(counted_up_to(buckets, last + 1) * 100 < goal);
            assert(total * 100 >= share * total) by (nonlinear_arith)
                requires
                    0 <= share <= 100,
                    total >= 0,
            ;
        }
        None
    }
}

} // verus!
