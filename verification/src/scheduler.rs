//! The order in which a user runs the tasks of its task set: in rounds, in
//! blocks, or at random by weight.

use vstd::prelude::*;

use crate::goose::GooseScheduler;
use crate::selector::{
    all_positive, checked_total, expand, expansion, lemma_expansion_ascending,
    lemma_expansion_counts, lemma_occurrences_concat, lemma_weight_before_at_least, occurrences,
    owner_of, select, total_weight, SelectorError,
};

verus! {

/// One round: the indices below `n` whose weight is above `round`, in
/// ascending order.
pub open spec fn round_of(weights: Seq<usize>, round: int, n: int) -> Seq<usize>
    decreases n,
{
    if n <= 0 {
        Seq::empty()
    } else {
        round_of(weights, round, n - 1) + if weights[n - 1] > round {
            seq![(n - 1) as usize]
        } else {
            Seq::empty()
        }
    }
}

/// The first `rounds` rounds, one after the other. Each index takes part in
/// as many rounds as its weight says.
pub open spec fn rounds_of(weights: Seq<usize>, rounds: int) -> Seq<usize>
    decreases rounds,
{
    if rounds <= 0 {
        Seq::empty()
    } else {
        rounds_of(weights, rounds - 1) + round_of(weights, rounds - 1, weights.len() as int)
    }
}

/// The largest of the first `n` weights.
pub open spec fn largest_weight(weights: Seq<usize>, n: int) -> int
    decreases n,
{
    if n <= 0 {
        0
    } else if weights[n - 1] > largest_weight(weights, n - 1) {
        weights[n - 1] as int
    } else {
        largest_weight(weights, n - 1)
    }
}

/// The order in which tasks take turns: round after round, until the task
/// of the largest weight has had all its turns.
pub open spec fn round_robin(weights: Seq<usize>) -> Seq<usize> {
    rounds_of(weights, largest_weight(weights, weights.len() as int))
}

/// No weight is above the largest.
pub proof fn lemma_largest_weight(weights: Seq<usize>, n: int, i: int)
    requires
        0 <= i < n <= weights.len(),
    ensures
        weights[i] <= largest_weight(weights, n),
    decreases n,
{
    if i < n - 1 {
        lemma_largest_weight(weights, n - 1, i);
    }
}

/// In one round an index stands once if its weight is above the round, and
/// not at all otherwise.
pub proof fn lemma_round_counts(weights: Seq<usize>, round: int, n: int, index: usize)
    requires
        0 <= n <= weights.len() <= usize::MAX,
    ensures
        occurrences(round_of(weights, round, n), index) == if index < n && weights[index as int]
            > round {
            1int
        } else {
            0int
        },
        forall|k: int| 0 <= k < round_of(weights, round, n).len() ==> round_of(weights, round, n)[k] < n,
    decreases n,
{
    if n > 0 {
        lemma_round_counts(weights, round, n - 1, index);
        let head = round_of(weights, round, n - 1);
        let tail = if weights[n - 1] > round {
            seq![(n - 1) as usize]
        } else {
            Seq::<usize>::empty()
        };
        lemma_occurrences_concat(head, tail, index);
        if weights[n - 1] > round {
            assert(tail.drop_last() =~= Seq::<usize>::empty());
            assert(occurrences(tail.drop_last(), index) == 0);
        }
        assert forall|k: int| 0 <= k < round_of(weights, round, n).len() implies round_of(
            weights,
            round,
            n,
        )[k] < n by {
            if k < head.len() {
                assert(round_of(weights, round, n)[k] == head[k]);
            }
        }
    }
}

/// In the first `rounds` rounds an index stands as often as its weight says,
/// but no more often than there were rounds.
pub proof fn lemma_rounds_counts(weights: Seq<usize>, rounds: int, index: usize)
    requires
        0 <= rounds,
        weights.len() <= usize::MAX,
        index < weights.len(),
    ensures
        occurrences(rounds_of(weights, rounds), index) == if weights[index as int] < rounds {
            weights[index as int] as int
        } else {
            rounds
        },
        forall|k: int| 0 <= k < rounds_of(weights, rounds).len() ==> rounds_of(weights, rounds)[k]
            < weights.len(),
    decreases rounds,
{
    if rounds > 0 {
        lemma_rounds_counts(weights, rounds - 1, index);
        lemma_round_counts(weights, rounds - 1, weights.len() as int, index);
        let head = rounds_of(weights, rounds - 1);
        let tail = round_of(weights, rounds - 1, weights.len() as int);
        lemma_occurrences_concat(head, tail, index);
        assert forall|k: int| 0 <= k < rounds_of(weights, rounds).len() implies rounds_of(
            weights,
            rounds,
        )[k] < weights.len() by {
            if k < head.len() {
                assert(rounds_of(weights, rounds)[k] == head[k]);
            } else {
                assert(rounds_of(weights, rounds)[k] == tail[k - head.len()]);
            }
        }
    }
}

/// Where tasks take turns, each task runs exactly as often in a cycle as
/// its weight says.
pub proof fn lemma_round_robin_counts(weights: Seq<usize>, index: usize)
    requires
        weights.len() <= usize::MAX,
        index < weights.len(),
    ensures
        occurrences(round_robin(weights), index) == weights[index as int],
{
    lemma_largest_weight(weights, weights.len() as int, index as int);
    lemma_rounds_counts(weights, largest_weight(weights, weights.len() as int), index);
}

/// The first round holds every index once, where every weight is at least
/// one: the order is not empty.
pub proof fn lemma_round_robin_not_empty(weights: Seq<usize>)
    requires
        weights.len() >= 1,
        weights.len() <= usize::MAX,
        all_positive(weights),
    ensures
        round_robin(weights).len() >= 1,
{
    lemma_largest_weight(weights, weights.len() as int, 0);
    let m = largest_weight(weights, weights.len() as int);
    lemma_rounds_counts(weights, m, 0);
    assert(occurrences(round_robin(weights), 0) >= 1);
    if round_robin(weights).len() == 0 {
        assert(occurrences(round_robin(weights), 0) == 0);
    }
}

/// The order in which tasks of the given weights take turns.
pub fn round_robin_order(weights: &Vec<usize>) -> (r: Result<Vec<usize>, SelectorError>)
    ensures
        match r {
            Ok(order) => weights.len() > 0 && all_positive(weights@) && total_weight(weights@)
                <= usize::MAX && order@ == round_robin(weights@),
            Err(SelectorError::EmptySelector) => weights.len() == 0,
            Err(SelectorError::ZeroWeight) => weights.len() > 0 && !all_positive(weights@),
            Err(SelectorError::TooHeavy) => weights.len() > 0 && all_positive(weights@)
                && total_weight(weights@) > usize::MAX,
        },
{
    match checked_total(weights) {
        Ok(_) => {},
        Err(e) => {
            return Err(e);
        },
    }
    let mut largest: usize = 0;
    let mut i: usize = 0;
    while i < weights.len()
        invariant
            i <= weights.len(),
            largest == largest_weight(weights@, i as int),
        decreases weights.len() - i,
    {
        if weights[i] > largest {
            largest = weights[i];
        }
        i += 1;
    }
    let mut order: Vec<usize> = Vec::new();
    let mut round: usize = 0;
    while round < largest
        invariant
            round <= largest,
            order@ == rounds_of(weights@, round as int),
        decreases largest - round,
    {
        let ghost start = order@;
        let mut i: usize = 0;
        while i < weights.len()
            invariant
                i <= weights.len(),
                order@ == start + round_of(weights@, round as int, i as int),
            decreases weights.len() - i,
        {
            if weights[i] > round {
                order.push(i);
            }
            assert(order@ =~= start + round_of(weights@, round as int, i + 1));
            i += 1;
        }
        round += 1;
    }
    Ok(order)
}

/// What picks the next task of a user.
#[derive(Debug)]
pub struct GooseTaskSequencer {
    /// How the next task is picked.
    pub scheduler: GooseScheduler,
    /// The weights of the tasks.
    pub weights: Vec<usize>,
    /// The tasks in the order of one cycle, where the order is fixed.
    pub order: Vec<usize>,
    /// The place in the cycle of the task that is next.
    pub position: usize,
}

/// The cycle of a scheduler over tasks of the given weights: rounds where
/// the tasks take turns, blocks otherwise.
pub open spec fn cycle_of(scheduler: GooseScheduler, weights: Seq<usize>) -> Seq<usize> {
    match scheduler {
        GooseScheduler::RoundRobin => round_robin(weights),
        _ => expansion(weights, weights.len() as int),
    }
}

impl GooseTaskSequencer {
    /// The sequencer can pick: there are tasks, their weights are at least
    /// one and can be counted, and the place is within the cycle.
    pub open spec fn well_formed(&self) -> bool {
        &&& self.weights@.len() >= 1
        &&& all_positive(self.weights@)
        &&& total_weight(self.weights@) <= usize::MAX
        &&& self.order@ == cycle_of(self.scheduler, self.weights@)
        &&& self.order@.len() >= 1
        &&& self.position < self.order@.len()
        &&& forall|k: int| 0 <= k < self.order@.len() ==> self.order@[k] < self.weights@.len()
    }

    /// A sequencer at the start of its cycle.
    pub fn new(scheduler: GooseScheduler, weights: Vec<usize>) -> (r: Result<
        GooseTaskSequencer,
        SelectorError,
    >)
        ensures
            match r {
                Ok(sequencer) => sequencer.well_formed() && sequencer.scheduler == scheduler
                    && sequencer.weights@ == weights@ && sequencer.position == 0,
                Err(SelectorError::EmptySelector) => weights.len() == 0,
                Err(SelectorError::ZeroWeight) => weights.len() > 0 && !all_positive(weights@),
                Err(SelectorError::TooHeavy) => weights.len() > 0 && all_positive(weights@)
                    && total_weight(weights@) > usize::MAX,
            },
    {
        let order = match scheduler {
            GooseScheduler::RoundRobin => match round_robin_order(&weights) {
                Ok(order) => order,
                Err(e) => {
                    return Err(e);
                },
            },
            _ => match expand(&weights) {
                Ok(order) => {
                    match checked_total(&weights) {
                        Ok(_) => {},
                        Err(e) => {
                            return Err(e);
                        },
                    }
                    order
                },
                Err(e) => {
                    return Err(e);
                },
            },
        };
        proof {
            match scheduler {
                GooseScheduler::RoundRobin => {
                    lemma_round_robin_not_empty(weights@);
                    lemma_rounds_counts(
                        weights@,
                        largest_weight(weights@, weights@.len() as int),
                        0,
                    );
                },
                _ => {
                    lemma_expansion_counts(weights@, weights@.len() as int, 0);
                    lemma_weight_before_at_least(weights@, weights@.len() as int);
                    lemma_expansion_ascending(weights@, weights@.len() as int);
                },
            }
        }
        Ok(GooseTaskSequencer { scheduler, weights, order, position: 0 })
    }

    /// The task that runs next. Where the order is fixed it is the task at
    /// the place in the cycle, and the place moves on, back to the start
    /// after the end; `random` is not looked at. Where tasks are picked at
    /// random it is the task that owns the ticket `random` reduced to the
    /// sum of the weights, and the place stays.
    pub fn next(&mut self, random: usize) -> (r: usize)
        requires
            old(self).well_formed(),
        ensures
            final(self).well_formed(),
            final(self).scheduler == old(self).scheduler,
            final(self).weights == old(self).weights,
            final(self).order == old(self).order,
            r < old(self).weights@.len(),
            old(self).scheduler != GooseScheduler::Random ==> r == old(self).order@[old(self).position as int] && final(self).position == (old(self).position + 1) % (old(self).order@.len() as int),
            old(self).scheduler == GooseScheduler::Random ==> final(self).position == old(self).position && owner_of(
                old(self).weights@,
                random as int % total_weight(old(self).weights@),
                r as int,
            ),
    {
        match self.scheduler {
            GooseScheduler::Random => match select(&self.weights, random) {
                Ok(index) => index,
                Err(_) => 0,
            },
            _ => {
                let task = self.order[self.position];
                let length = self.order.len();
                proof {
                    let p = self.position as int;
                    let n = length as int;
                    if p + 1 < n {
                        vstd::arithmetic::div_mod::lemma_small_mod((p + 1) as nat, n as nat);
                    } else {
                        vstd::arithmetic::div_mod::lemma_mod_self_0(n);
                    }
                }
                if self.position + 1 < length {
                    self.position = self.position + 1;
                } else {
                    self.position = 0;
                }
                task
            },
        }
    }
}

} // verus!
