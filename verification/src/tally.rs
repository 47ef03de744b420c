//! Counting a run of requests by endpoint: what a list of requests holds for
//! each endpoint, that every request is counted for one endpoint and no
//! other, and that counters which counted the requests one by one hold
//! exactly that.

use vstd::prelude::*;

use crate::aggregate::{counted_once, counts_one_more, request_key, Counted, GooseMetrics};
use crate::metrics::GooseRequestMetric;

verus! {

/// How many of the requests count for the endpoint `key` under `what`.
pub open spec fn tally(metrics: Seq<GooseRequestMetric>, key: Seq<char>, what: Counted) -> int
    decreases metrics.len(),
{
    if metrics.len() == 0 {
        0
    } else {
        tally(metrics.drop_last(), key, what) + counted_once(metrics.last(), key, what)
    }
}

/// How often one request counts, over a list of endpoints.
pub open spec fn counted_over(metric: GooseRequestMetric, keys: Seq<Seq<char>>) -> int
    decreases keys.len(),
{
    if keys.len() == 0 {
        0
    } else {
        counted_over(metric, keys.drop_last()) + counted_once(metric, keys.last(), Counted::All)
    }
}

/// How many requests count, over a list of endpoints.
pub open spec fn tally_over(metrics: Seq<GooseRequestMetric>, keys: Seq<Seq<char>>) -> int
    decreases keys.len(),
{
    if keys.len() == 0 {
        0
    } else {
        tally_over(metrics, keys.drop_last()) + tally(metrics, keys.last(), Counted::All)
    }
}

/// No endpoint stands twice in the list.
pub open spec fn distinct(keys: Seq<Seq<char>>) -> bool {
    forall|i: int, j: int| 0 <= i < j < keys.len() ==> keys[i] != keys[j]
}

/// The list holds the endpoint of every request.
pub open spec fn names_all(keys: Seq<Seq<char>>, metrics: Seq<GooseRequestMetric>) -> bool {
    forall|i: int| 0 <= i < metrics.len() ==> keys.contains(request_key(#[trigger] metrics[i]))
}

/// The states of counters along a run of requests: each state holds what the
/// state before it held, and the next request.
pub open spec fn counted_along(counters: Seq<GooseMetrics>, metrics: Seq<GooseRequestMetric>) -> bool {
    &&& counters.len() == metrics.len() + 1
    &&& forall|i: int|
        0 <= i < metrics.len() ==> counts_one_more(
            counters[i],
            metrics[i],
            #[trigger] counters[i + 1],
        )
}

/// Of the requests of an endpoint, each either succeeded or failed: the
/// requests of the endpoint are its successes and its failures together.
/// No count is negative, and none is higher than the number of requests.
pub proof fn lemma_tally_splits(metrics: Seq<GooseRequestMetric>, key: Seq<char>, what: Counted)
    ensures
        tally(metrics, key, Counted::All) == tally(metrics, key, Counted::Successes) + tally(
            metrics,
            key,
            Counted::Failures,
        ),
        0 <= tally(metrics, key, what) <= tally(metrics, key, Counted::All) <= metrics.len(),
    decreases metrics.len(),
{
    if metrics.len() > 0 {
        lemma_tally_splits(metrics.drop_last(), key, what);
    }
}

/// Two runs of requests, taken together, come to what each comes to, added
/// up: what several processes counted, each for itself, adds up to what one
/// would have counted of all their requests.
pub proof fn lemma_tally_of_two_runs(
    a: Seq<GooseRequestMetric>,
    b: Seq<GooseRequestMetric>,
    key: Seq<char>,
    what: Counted,
)
    ensures
        tally(a + b, key, what) == tally(a, key, what) + tally(b, key, what),
    decreases b.len(),
{
    if b.len() == 0 {
        assert(a + b =~= a);
    } else {
        assert((a + b).drop_last() =~= a + b.drop_last());
        lemma_tally_of_two_runs(a, b.drop_last(), key, what);
    }
}

/// Over a list in which no endpoint stands twice, a request counts once if
/// its endpoint is in the list, and not at all if it is not.
pub proof fn lemma_counted_over(metric: GooseRequestMetric, keys: Seq<Seq<char>>)
    requires
        distinct(keys),
    ensures
        counted_over(metric, keys) == if keys.contains(request_key(metric)) {
            1int
        } else {
            0int
        },
    decreases keys.len(),
{
    if keys.len() > 0 {
        let front = keys.drop_last();
        assert forall|i: int, j: int| 0 <= i < j < front.len() implies front[i] != front[j] by {
            assert(front[i] == keys[i] && front[j] == keys[j]);
        }
        lemma_counted_over(metric, front);
        if front.contains(request_key(metric)) {
            let i = choose|i: int| 0 <= i < front.len() && front[i] == request_key(metric);
            assert(keys[i] == front[i]);
            assert(keys[i] != keys[keys.len() - 1]);
            assert(keys.contains(request_key(metric)));
        } else if keys.last() == request_key(metric) {
            assert(keys[keys.len() - 1] == request_key(metric));
            assert(keys.contains(request_key(metric)));
        } else {
            if keys.contains(request_key(metric)) {
                let i = choose|i: int| 0 <= i < keys.len() && keys[i] == request_key(metric);
                assert(front[i] == keys[i]);
            }
        }
    }
}

/// One request more adds to the count over a list of endpoints how often it
/// counts over the list.
pub proof fn lemma_tally_over_step(metrics: Seq<GooseRequestMetric>, keys: Seq<Seq<char>>)
    requires
        metrics.len() > 0,
    ensures
        tally_over(metrics, keys) == tally_over(metrics.drop_last(), keys) + counted_over(
            metrics.last(),
            keys,
        ),
    decreases keys.len(),
{
    if keys.len() > 0 {
        lemma_tally_over_step(metrics, keys.drop_last());
    }
}

/// Every request is counted exactly once, for its own endpoint: over a list
/// of endpoints in which none stands twice and the endpoint of every request
/// stands, the counts of the endpoints add up to the number of requests.
pub proof fn lemma_each_request_counted_once(
    metrics: Seq<GooseRequestMetric>,
    keys: Seq<Seq<char>>,
)
    requires
        distinct(keys),
        names_all(keys, metrics),
    ensures
        tally_over(metrics, keys) == metrics.len(),
    decreases metrics.len(),
{
    if metrics.len() == 0 {
        assert(metrics =~= Seq::<GooseRequestMetric>::empty());
        lemma_tally_over_nothing(keys);
    } else {
        let front = metrics.drop_last();
        assert forall|i: int| 0 <= i < front.len() implies keys.contains(
            request_key(#[trigger] front[i]),
        ) by {
            assert(front[i] == metrics[i]);
        }
        lemma_each_request_counted_once(front, keys);
        lemma_tally_over_step(metrics, keys);
        lemma_counted_over(metrics.last(), keys);
        assert(keys.contains(request_key(metrics[metrics.len() - 1])));
    }
}

/// No request, no count.
pub proof fn lemma_tally_over_nothing(keys: Seq<Seq<char>>)
    ensures
        tally_over(Seq::<GooseRequestMetric>::empty(), keys) == 0,
    decreases keys.len(),
{
    if keys.len() > 0 {
        lemma_tally_over_nothing(keys.drop_last());
    }
}

/// Counters that counted the requests of a run one by one hold, for every
/// endpoint and under every heading, what they held before and the tally of
/// the run; their total is higher by the number of requests.
pub proof fn lemma_counters_hold_the_tally(
    counters: Seq<GooseMetrics>,
    metrics: Seq<GooseRequestMetric>,
    key: Seq<char>,
    what: Counted,
)
    requires
        counted_along(counters, metrics),
    ensures
        counters.last().count(key, what) == counters[0].count(key, what) + tally(
            metrics,
            key,
            what,
        ),
        counters.last().total() == counters[0].total() + metrics.len(),
    decreases metrics.len(),
{
    if metrics.len() > 0 {
        let n = metrics.len() as int;
        let front = counters.drop_last();
        assert forall|i: int| 0 <= i < n - 1 implies counts_one_more(
            front[i],
            metrics.drop_last()[i],
            #[trigger] front[i + 1],
        ) by {
            assert(counts_one_more(counters[i], metrics[i], counters[i + 1]));
        }
        lemma_counters_hold_the_tally(front, metrics.drop_last(), key, what);
        assert(front.last() == counters[n - 1]);
        assert(counts_one_more(counters[n - 1], metrics[n - 1], counters[(n - 1) + 1]));
    }
}

} // verus!
