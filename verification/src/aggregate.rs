//! The counters of a load test: for each endpoint, how many requests were
//! made, how many succeeded and failed, and how many ended in each status
//! code.

use vstd::prelude::*;

use crate::histogram::{counted_time, is_percentile, GooseResponseTimes};
use crate::metrics::{GooseMethod, GooseRequestMetric};
use crate::text::push_str;

verus! {

/// How often one status code was seen.
#[derive(Debug)]
pub struct GooseStatusCount {
    /// The status code.
    pub status_code: u16,
    /// How many requests ended in it.
    pub count: u64,
}

/// The counters of one endpoint.
#[derive(Debug)]
pub struct GooseRequestAggregate {
    /// The endpoint: the method and the name of its requests.
    pub key: String,
    /// How many requests were made.
    pub counter: u64,
    /// How many requests succeeded.
    pub success_count: u64,
    /// How many requests failed.
    pub fail_count: u64,
    /// How many requests ended in each status code.
    pub status_code_counts: Vec<GooseStatusCount>,
    /// How long the responses took.
    pub response_times: GooseResponseTimes,
}

/// The counters of one endpoint as they stand at one moment.
#[derive(Debug, Clone, Copy, PartialEq, Eq, Structural)]
pub struct GooseRequestSnapshot {
    /// How many requests were made.
    pub counter: u64,
    /// How many requests succeeded.
    pub success_count: u64,
    /// How many requests failed.
    pub fail_count: u64,
    /// The time within which half of the responses arrived.
    pub median: Option<u64>,
    /// The time within which ninety-five in a hundred responses arrived.
    pub percentile_95: Option<u64>,
}

/// The counters of all endpoints.
#[derive(Debug)]
pub struct GooseMetrics {
    /// The endpoints, in the order in which they were first seen.
    pub requests: Vec<GooseRequestAggregate>,
    /// How many records were left out because a counter was full.
    pub dropped_metrics: u64,
}

/// The method as it stands in the key of an endpoint.
pub open spec fn method_verb(method: GooseMethod) -> Seq<char> {
    match method {
        GooseMethod::Delete => "DELETE"@,
        GooseMethod::Get => "GET"@,
        GooseMethod::Head => "HEAD"@,
        GooseMethod::Patch => "PATCH"@,
        GooseMethod::Post => "POST"@,
        GooseMethod::Put => "PUT"@,
    }
}

/// The key of the endpoint that a request belongs to: its method, a space,
/// and its name.
pub open spec fn request_key(metric: GooseRequestMetric) -> Seq<char> {
    method_verb(metric.raw.method) + seq![' '] + metric.name@
}

/// How many requests ended in `code`, over a list of status counts.
pub open spec fn status_count(counts: Seq<GooseStatusCount>, code: u16) -> int
    decreases counts.len(),
{
    if counts.len() == 0 {
        0
    } else {
        status_count(counts.drop_last(), code) + if counts.last().status_code == code {
            counts.last().count as int
        } else {
            0
        }
    }
}

/// How many requests a list of status counts holds in all.
pub open spec fn status_total(counts: Seq<GooseStatusCount>) -> int
    decreases counts.len(),
{
    if counts.len() == 0 {
        0
    } else {
        status_total(counts.drop_last()) + counts.last().count
    }
}

/// What of an endpoint is counted.
pub enum Counted {
    /// Every request.
    All,
    /// The requests that succeeded.
    Successes,
    /// The requests that failed.
    Failures,
    /// The requests that ended in a status code.
    Status(u16),
    /// The requests whose response is counted under a time.
    Time(u64),
}

/// One count of one entry.
pub open spec fn entry_count(entry: GooseRequestAggregate, what: Counted) -> int {
    match what {
        Counted::All => entry.counter as int,
        Counted::Successes => entry.success_count as int,
        Counted::Failures => entry.fail_count as int,
        Counted::Status(code) => status_count(entry.status_code_counts@, code),
        Counted::Time(time) => entry.response_times.count(time),
    }
}

/// One count of the endpoint `key`, over a list of entries.
pub open spec fn count_of(entries: Seq<GooseRequestAggregate>, key: Seq<char>, what: Counted) -> int
    decreases entries.len(),
{
    if entries.len() == 0 {
        0
    } else {
        count_of(entries.drop_last(), key, what) + if entries.last().key@ == key {
            entry_count(entries.last(), what)
        } else {
            0
        }
    }
}

/// How many requests were counted, over all endpoints.
pub open spec fn total_count(entries: Seq<GooseRequestAggregate>) -> int
    decreases entries.len(),
{
    if entries.len() == 0 {
        0
    } else {
        total_count(entries.drop_last()) + entries.last().counter
    }
}

/// The counters of an entry agree: every request either succeeded or failed,
/// and ended in one status code.
pub open spec fn entry_consistent(entry: GooseRequestAggregate) -> bool {
    &&& entry.counter == entry.success_count + entry.fail_count
    &&& entry.counter == status_total(entry.status_code_counts@)
    &&& entry.response_times.well_formed()
    &&& entry.counter == entry.response_times.total()
}

/// What one request adds to a count of the endpoint `key`.
pub open spec fn counted_once(metric: GooseRequestMetric, key: Seq<char>, what: Counted) -> int {
    if request_key(metric) != key {
        0
    } else {
        match what {
            Counted::All => 1,
            Counted::Successes => if metric.success {
                1
            } else {
                0
            },
            Counted::Failures => if metric.success {
                0
            } else {
                1
            },
            Counted::Status(code) => if metric.status_code == code {
                1
            } else {
                0
            },
            Counted::Time(time) => if counted_time(metric.response_time) == time {
                1
            } else {
                0
            },
        }
    }
}

/// The counters `after` hold what `before` held and the one request more:
/// the total is one higher, and every count of every endpoint is higher by
/// what the request adds to it.
pub open spec fn counts_one_more(
    before: GooseMetrics,
    metric: GooseRequestMetric,
    after: GooseMetrics,
) -> bool {
    &&& after.total() == before.total() + 1
    &&& forall|key: Seq<char>, what: Counted|
        after.count(key, what) == before.count(key, what) + counted_once(metric, key, what)
}

/// Replacing one status count changes the count of a code by the difference
/// between the two.
pub proof fn lemma_status_update(
    counts: Seq<GooseStatusCount>,
    i: int,
    entry: GooseStatusCount,
    code: u16,
)
    requires
        0 <= i < counts.len(),
    ensures
        status_count(counts.update(i, entry), code) == status_count(counts, code) - (if counts[i].status_code
            == code {
            counts[i].count as int
        } else {
            0
        }) + (if entry.status_code == code {
            entry.count as int
        } else {
            0
        }),
        status_total(counts.update(i, entry)) == status_total(counts) - counts[i].count
            + entry.count,
    decreases counts.len(),
{
    let updated = counts.update(i, entry);
    if i == counts.len() - 1 {
        assert(updated.drop_last() =~= counts.drop_last());
    } else {
        assert(updated.drop_last() =~= counts.drop_last().update(i, entry));
        lemma_status_update(counts.drop_last(), i, entry, code);
    }
}

/// Replacing one entry changes a count of an endpoint by the difference
/// between the two.
pub proof fn lemma_count_update(
    entries: Seq<GooseRequestAggregate>,
    i: int,
    entry: GooseRequestAggregate,
    key: Seq<char>,
    what: Counted,
)
    requires
        0 <= i < entries.len(),
    ensures
        count_of(entries.update(i, entry), key, what) == count_of(entries, key, what) - (if entries[i].key@
            == key {
            entry_count(entries[i], what)
        } else {
            0
        }) + (if entry.key@ == key {
            entry_count(entry, what)
        } else {
            0
        }),
        total_count(entries.update(i, entry)) == total_count(entries) - entries[i].counter
            + entry.counter,
    decreases entries.len(),
{
    let updated = entries.update(i, entry);
    if i == entries.len() - 1 {
        assert(updated.drop_last() =~= entries.drop_last());
    } else {
        assert(updated.drop_last() =~= entries.drop_last().update(i, entry));
        lemma_count_update(entries.drop_last(), i, entry, key, what);
    }
}

/// A code that no status count holds was never seen.
pub proof fn lemma_status_absent(counts: Seq<GooseStatusCount>, code: u16)
    requires
        forall|k: int| 0 <= k < counts.len() ==> (#[trigger] counts[k]).status_code != code,
    ensures
        status_count(counts, code) == 0,
    decreases counts.len(),
{
    if counts.len() > 0 {
        lemma_status_absent(counts.drop_last(), code);
    }
}

impl GooseMethod {
    /// The method as it stands in the key of an endpoint.
    pub fn verb(&self) -> (r: &'static str)
        ensures
            r@ == method_verb(*self),
    {
        match self {
            GooseMethod::Delete => "DELETE",
            GooseMethod::Get => "GET",
            GooseMethod::Head => "HEAD",
            GooseMethod::Patch => "PATCH",
            GooseMethod::Post => "POST",
            GooseMethod::Put => "PUT",
        }
    }
}

impl GooseRequestMetric {
    /// The key of the endpoint that the request belongs to.
    pub fn key(&self) -> (r: String)
        ensures
            r@ == request_key(*self),
    {
        let mut r = String::new();
        push_str(&mut r, self.raw.method.verb());
        r.push(' ');
        push_str(&mut r, self.name.as_str());
        assert(r@ =~= request_key(*self));
        r
    }
}

fn bump_status(counts: &mut Vec<GooseStatusCount>, code: u16)
    requires
        status_total(old(counts)@) < u64::MAX,
    ensures
        status_total(final(counts)@) == status_total(old(counts)@) + 1,
        forall|c: u16|
            status_count(final(counts)@, c) == status_count(old(counts)@, c) + if c == code {
                1int
            } else {
                0int
            },
{
    let mut i: usize = 0;
    while i < counts.len()
        invariant
            i <= counts.len(),
            counts@ == old(counts)@,
            status_total(counts@) < u64::MAX,
            forall|k: int| 0 <= k < i ==> (#[trigger] counts@[k]).status_code != code,
        decreases counts.len() - i,
    {
        if counts[i].status_code == code {
            let seen = counts[i].count;
            proof {
                lemma_status_total_bounds(counts@, i as int);
            }
            let entry = GooseStatusCount { status_code: code, count: seen + 1 };
            proof {
                assert forall|c: u16|
                    status_count(counts@.update(i as int, entry), c) == status_count(counts@, c)
                        + if c == code {
                        1int
                    } else {
                        0int
                    } by {
                    lemma_status_update(counts@, i as int, entry, c);
                }
                lemma_status_update(counts@, i as int, entry, code);
            }
            counts.set(i, entry);
            return ;
        }
        i += 1;
    }
    let entry = GooseStatusCount { status_code: code, count: 1 };
    proof {
        assert(counts@.push(entry).drop_last() =~= counts@);
        assert forall|c: u16|
            status_count(counts@.push(entry), c) == status_count(counts@, c) + if c == code {
                1int
            } else {
                0int
            } by {}
    }
    counts.push(entry);
}

/// No status count holds more than all of them together.
pub proof fn lemma_status_total_bounds(counts: Seq<GooseStatusCount>, i: int)
    requires
        0 <= i < counts.len(),
    ensures
        counts[i].count <= status_total(counts),
        status_total(counts) >= 0,
    decreases counts.len(),
{
    lemma_status_total_nonnegative(counts.drop_last());
    if i < counts.len() - 1 {
        lemma_status_total_bounds(counts.drop_last(), i);
    }
}

/// Status counts hold no fewer than zero requests.
pub proof fn lemma_status_total_nonnegative(counts: Seq<GooseStatusCount>)
    ensures
        status_total(counts) >= 0,
    decreases counts.len(),
{
    if counts.len() > 0 {
        lemma_status_total_nonnegative(counts.drop_last());
    }
}

impl GooseMetrics {
    /// The counters agree for every endpoint, and no endpoint stands twice.
    pub open spec fn well_formed(&self) -> bool {
        &&& forall|i: int|
            0 <= i < self.requests@.len() ==> entry_consistent(#[trigger] self.requests@[i])
        &&& forall|i: int, j: int|
            0 <= i < j < self.requests@.len() ==> self.requests@[i].key@ != self.requests@[j].key@
    }

    /// One count of the endpoint `key`.
    pub open spec fn count(&self, key: Seq<char>, what: Counted) -> int {
        count_of(self.requests@, key, what)
    }

    /// How many requests are counted, over all endpoints.
    pub open spec fn total(&self) -> int {
        total_count(self.requests@)
    }

    /// Counters in which nothing is counted yet.
    pub fn new() -> (r: GooseMetrics)
        ensures
            r.well_formed(),
            r.total() == 0,
            r.dropped_metrics == 0,
            forall|key: Seq<char>, what: Counted| r.count(key, what) == 0,
    {
        GooseMetrics { requests: Vec::new(), dropped_metrics: 0 }
    }

    /// Forgets what was counted, as at the start of the measurement.
    pub fn reset(&mut self)
        ensures
            final(self).well_formed(),
            final(self).total() == 0,
            final(self).dropped_metrics == 0,
            forall|key: Seq<char>, what: Counted| final(self).count(key, what) == 0,
    {
        self.requests = Vec::new();
        self.dropped_metrics = 0;
    }

    /// Where the endpoint `key` stands in the list, if it does.
    pub fn find(&self, key: &str) -> (r: Option<usize>)
        ensures
            match r {
                Some(i) => i < self.requests@.len() && self.requests@[i as int].key@ == key@
                    && forall|k: int| 0 <= k < i ==> (#[trigger] self.requests@[k]).key@ != key@,
                None => forall|k: int|
                    0 <= k < self.requests@.len() ==> (#[trigger] self.requests@[k]).key@ != key@,
            },
    {
        let mut i: usize = 0;
        while i < self.requests.len()
            invariant
                i <= self.requests.len(),
                forall|k: int| 0 <= k < i ==> (#[trigger] self.requests@[k]).key@ != key@,
            decreases self.requests.len() - i,
        {
            if crate::aggregate::same_text(self.requests[i].key.as_str(), key) {
                return Some(i);
            }
            i += 1;
        }
        None
    }

    /// Counts one request: once for its endpoint, once as a success or as a
    /// failure, once under its status code, and once under its response
    /// time. The request is counted unless the endpoint's counter is full;
    /// then it is left out, and counted as dropped instead.
    pub fn record(&mut self, metric: &GooseRequestMetric) -> (counted: bool)
        requires
            old(self).well_formed(),
        ensures
            final(self).well_formed(),
            counted <==> old(self).count(request_key(*metric), Counted::All) < u64::MAX,
            counted ==> final(self).dropped_metrics == old(self).dropped_metrics,
            counted ==> counts_one_more(*old(self), *metric, *final(self)),
            !counted ==> final(self).requests == old(self).requests,
            !counted ==> final(self).dropped_metrics == if old(self).dropped_metrics < u64::MAX {
                (old(self).dropped_metrics + 1) as u64
            } else {
                u64::MAX
            },
    {
        let key = metric.key();
        match self.find(key.as_str()) {
            Some(i) => {
                proof {
                    lemma_count_of_unique(self.requests@, i as int, Counted::All);
                }
                if self.requests[i].counter == u64::MAX {
                    if self.dropped_metrics < u64::MAX {
                        self.dropped_metrics = self.dropped_metrics + 1;
                    }
                    return false;
                }
                let ghost before = self.requests@;
                let mut entry = self.requests.remove(i);
                self.requests.insert(i, GooseRequestAggregate {
                    key: String::new(),
                    counter: 0,
                    success_count: 0,
                    fail_count: 0,
                    status_code_counts: Vec::new(),
                    response_times: GooseResponseTimes::new(),
                });
                let ghost old_entry = entry;
                assert(old_entry == before[i as int]);
                assert(entry_consistent(old_entry));
                entry.counter = entry.counter + 1;
                if metric.success {
                    entry.success_count = entry.success_count + 1;
                } else {
                    entry.fail_count = entry.fail_count + 1;
                }
                bump_status(&mut entry.status_code_counts, metric.status_code);
                entry.response_times.add(metric.response_time);
                let ghost placeholder = self.requests@;
                assert(placeholder =~= before.update(i as int, placeholder[i as int]));
                proof {
                    assert(placeholder.update(i as int, entry) =~= before.update(i as int, entry));
                    assert forall|k: Seq<char>, what: Counted|
                        count_of(before.update(i as int, entry), k, what) == count_of(
                            before,
                            k,
                            what,
                        ) + counted_once(*metric, k, what) by {
                        lemma_count_update(before, i as int, entry, k, what);
                    }
                    lemma_count_update(before, i as int, entry, key@, Counted::All);
                }
                self.requests.set(i, entry);
                assert(self.requests@ =~= before.update(i as int, entry));
                true
            },
            None => {
                proof {
                    lemma_count_of_absent(self.requests@, key@, Counted::All);
                }
                let mut status_code_counts: Vec<GooseStatusCount> = Vec::new();
                status_code_counts.push(GooseStatusCount { status_code: metric.status_code, count: 1 });
                let mut response_times = GooseResponseTimes::new();
                response_times.add(metric.response_time);
                let entry = GooseRequestAggregate {
                    key,
                    counter: 1,
                    success_count: if metric.success {
                        1
                    } else {
                        0
                    },
                    fail_count: if metric.success {
                        0
                    } else {
                        1
                    },
                    status_code_counts,
                    response_times,
                };
                proof {
                    let counts = entry.status_code_counts@;
                    assert(counts.drop_last() =~= Seq::<GooseStatusCount>::empty());
                    assert(status_total(counts.drop_last()) == 0);
                    assert(status_total(counts) == 1);
                    assert forall|code: u16|
                        status_count(counts, code) == if code == metric.status_code {
                            1int
                        } else {
                            0int
                        } by {
                        assert(status_count(counts.drop_last(), code) == 0);
                    }
                    let before = self.requests@;
                    assert(before.push(entry).drop_last() =~= before);
                    assert forall|k: Seq<char>, what: Counted|
                        count_of(before.push(entry), k, what) == count_of(before, k, what)
                            + counted_once(*metric, k, what) by {}
                }
                self.requests.push(entry);
                true
            },
        }
    }
}

impl GooseMetrics {
    /// The counters of the endpoint `key` as they stand, with the median and
    /// the ninety-fifth percentile of its response times; none where no
    /// request of the endpoint was counted.
    pub fn snapshot(&self, key: &str) -> (r: Option<GooseRequestSnapshot>)
        requires
            self.well_formed(),
        ensures
            r is Some <==> self.count(key@, Counted::All) > 0,
            r matches Some(snapshot) ==> {
                &&& snapshot.counter == self.count(key@, Counted::All)
                &&& snapshot.success_count == self.count(key@, Counted::Successes)
                &&& snapshot.fail_count == self.count(key@, Counted::Failures)
                &&& snapshot.counter == snapshot.success_count + snapshot.fail_count
                &&& snapshot.median is Some
                &&& snapshot.percentile_95 is Some
                &&& exists|i: int|
                    0 <= i < self.requests@.len() && (#[trigger] self.requests@[i]).key@ == key@
                        && is_percentile(
                        self.requests@[i].response_times.buckets@,
                        50,
                        snapshot.median.unwrap(),
                    ) && is_percentile(
                        self.requests@[i].response_times.buckets@,
                        95,
                        snapshot.percentile_95.unwrap(),
                    )
            },
    {
        match self.find(key) {
            Some(i) => {
                let entry = &self.requests[i];
                proof {
                    lemma_count_of_unique(self.requests@, i as int, Counted::All);
                    lemma_count_of_unique(self.requests@, i as int, Counted::Successes);
                    lemma_count_of_unique(self.requests@, i as int, Counted::Failures);
                }
                if entry.counter == 0 {
                    return None;
                }
                Some(
                    GooseRequestSnapshot {
                        counter: entry.counter,
                        success_count: entry.success_count,
                        fail_count: entry.fail_count,
                        median: entry.response_times.percentile(50),
                        percentile_95: entry.response_times.percentile(95),
                    },
                )
            },
            None => {
                proof {
                    lemma_count_of_absent(self.requests@, key@, Counted::All);
                }
                None
            },
        }
    }
}

/// Where no endpoint stands twice, the counts of an endpoint are the counts
/// of its one entry.
pub proof fn lemma_count_of_unique(entries: Seq<GooseRequestAggregate>, i: int, what: Counted)
    requires
        0 <= i < entries.len(),
        forall|a: int, b: int| 0 <= a < b < entries.len() ==> entries[a].key@ != entries[b].key@,
    ensures
        count_of(entries, entries[i].key@, what) == entry_count(entries[i], what),
    decreases entries.len(),
{
    let key = entries[i].key@;
    if i == entries.len() - 1 {
        assert forall|k: int| 0 <= k < entries.drop_last().len() implies (
        #[trigger] entries.drop_last()[k]).key@ != key by {
            assert(entries.drop_last()[k] == entries[k]);
        }
        lemma_count_of_absent(entries.drop_last(), key, what);
    } else {
        assert(entries.drop_last()[i] == entries[i]);
        assert forall|a: int, b: int| 0 <= a < b < entries.drop_last().len() implies entries.drop_last()[a].key@
            != entries.drop_last()[b].key@ by {
            assert(entries.drop_last()[a] == entries[a]);
            assert(entries.drop_last()[b] == entries[b]);
        }
        lemma_count_of_unique(entries.drop_last(), i, what);
    }
}

/// Nothing is counted for an endpoint that has no entry.
pub proof fn lemma_count_of_absent(entries: Seq<GooseRequestAggregate>, key: Seq<char>, what: Counted)
    requires
        forall|k: int| 0 <= k < entries.len() ==> (#[trigger] entries[k]).key@ != key,
    ensures
        count_of(entries, key, what) == 0,
    decreases entries.len(),
{
    if entries.len() > 0 {
        assert(entries.last().key@ != key);
        assert forall|k: int| 0 <= k < entries.drop_last().len() implies (
        #[trigger] entries.drop_last()[k]).key@ != key by {
            assert(entries.drop_last()[k] == entries[k]);
        }
        lemma_count_of_absent(entries.drop_last(), key, what);
    }
}

/// Whether two texts are the same.
pub fn same_text(a: &str, b: &str) -> (r: bool)
    ensures
        r == (a@ == b@),
{
    let x = crate::text::chars_of(a);
    let y = crate::text::chars_of(b);
    if x.len() != y.len() {
        return false;
    }
    let mut i: usize = 0;
    while i < x.len()
        invariant
            i <= x.len(),
            x.len() == y.len(),
            x@ == a@,
            y@ == b@,
            forall|k: int| 0 <= k < i ==> x@[k] == y@[k],
        decreases x.len() - i,
    {
        if x[i] != y[i] {
            return false;
        }
        i += 1;
    }
    assert(x@ =~= y@);
    true
}

/// For every endpoint, every request that was counted either succeeded or
/// failed: the counter is the sum of the two.
pub proof fn lemma_counter_is_successes_and_failures(
    entries: Seq<GooseRequestAggregate>,
    key: Seq<char>,
)
    requires
        forall|i: int| 0 <= i < entries.len() ==> entry_consistent(#[trigger] entries[i]),
    ensures
        count_of(entries, key, Counted::All) == count_of(entries, key, Counted::Successes)
            + count_of(entries, key, Counted::Failures),
    decreases entries.len(),
{
    if entries.len() > 0 {
        assert(entry_consistent(entries.last()));
        assert forall|i: int| 0 <= i < entries.drop_last().len() implies entry_consistent(
            #[trigger] entries.drop_last()[i],
        ) by {
            assert(entries.drop_last()[i] == entries[i]);
        }
        lemma_counter_is_successes_and_failures(entries.drop_last(), key);
    }
}

} // verus!
