//! Picking one of several weighted things: by a number drawn at random, or
//! in turn from the list in which each thing stands as often as its weight
//! says.

use vstd::prelude::*;

use crate::error::{GooseError, GooseErrorView};

verus! {

/// Why nothing could be picked.
#[derive(Debug, Clone, Copy, PartialEq, Eq, Structural)]
pub enum SelectorError {
    /// There is nothing to pick from.
    EmptySelector,
    /// Some weight is zero.
    ZeroWeight,
    /// The weights add up to more than the machine can count.
    TooHeavy,
}

/// The configuration error that stands for a failure to pick: nothing to
/// pick from means that there are no tasks; a weight of zero and weights too
/// large to add up are invalid options.
pub open spec fn selector_error_view(error: SelectorError) -> GooseErrorView {
    match error {
        SelectorError::EmptySelector => GooseErrorView::NoTasks,
        SelectorError::ZeroWeight => GooseErrorView::InvalidOption {
            option: "weight"@,
            value: "0"@,
            detail: "a weight must be at least 1"@,
        },
        SelectorError::TooHeavy => GooseErrorView::InvalidOption {
            option: "weight"@,
            value: ""@,
            detail: "the weights are too large to add up"@,
        },
    }
}

impl SelectorError {
    /// The configuration error that stands for the failure.
    pub fn to_error(&self) -> (r: GooseError)
        ensures
            r@ == selector_error_view(*self),
    {
        match self {
            SelectorError::EmptySelector => GooseError::NoTasks,
            SelectorError::ZeroWeight => GooseError::InvalidOption {
                option: String::from_str("weight"),
                value: String::from_str("0"),
                detail: String::from_str("a weight must be at least 1"),
            },
            SelectorError::TooHeavy => GooseError::InvalidOption {
                option: String::from_str("weight"),
                value: String::from_str(""),
                detail: String::from_str("the weights are too large to add up"),
            },
        }
    }
}

/// The sum of the first `n` weights.
pub open spec fn weight_before(weights: Seq<usize>, n: int) -> int
    decreases n,
{
    if n <= 0 {
        0
    } else {
        weight_before(weights, n - 1) + weights[n - 1]
    }
}

/// The sum of all weights.
pub open spec fn total_weight(weights: Seq<usize>) -> int {
    weight_before(weights, weights.len() as int)
}

/// Every weight is at least one.
pub open spec fn all_positive(weights: Seq<usize>) -> bool {
    forall|i: int| 0 <= i < weights.len() ==> #[trigger] weights[i] >= 1
}

/// The index picked by the ticket `ticket`: the tickets are numbered from
/// zero, and each index owns as many consecutive tickets as its weight says,
/// in ascending order of the indices.
pub open spec fn owner_of(weights: Seq<usize>, ticket: int, index: int) -> bool {
    &&& 0 <= index < weights.len()
    &&& weight_before(weights, index) <= ticket < weight_before(weights, index + 1)
}

/// The list in which each index stands as often as its weight says, in
/// ascending order of the indices.
pub open spec fn expansion(weights: Seq<usize>, n: int) -> Seq<usize>
    decreases n,
{
    if n <= 0 {
        Seq::empty()
    } else {
        expansion(weights, n - 1) + Seq::new(weights[n - 1] as nat, |k: int| (n - 1) as usize)
    }
}

/// How often `value` stands in `s`.
pub open spec fn occurrences(s: Seq<usize>, value: usize) -> int
    decreases s.len(),
{
    if s.len() == 0 {
        0
    } else {
        occurrences(s.drop_last(), value) + if s.last() == value {
            1int
        } else {
            0int
        }
    }
}

/// The sums of the weights grow with the number of weights summed.
pub proof fn lemma_weight_before_monotonic(weights: Seq<usize>, i: int, j: int)
    requires
        0 <= i <= j <= weights.len(),
    ensures
        weight_before(weights, i) <= weight_before(weights, j),
    decreases j - i,
{
    if i < j {
        lemma_weight_before_monotonic(weights, i, j - 1);
    }
}

/// Where every weight is at least one, the first `n` weights sum to at least
/// `n`.
pub proof fn lemma_weight_before_at_least(weights: Seq<usize>, n: int)
    requires
        all_positive(weights),
        0 <= n <= weights.len(),
    ensures
        weight_before(weights, n) >= n,
    decreases n,
{
    if n > 0 {
        lemma_weight_before_at_least(weights, n - 1);
    }
}

/// The sum of the weights, or why it cannot be had: the list is empty, a
/// weight is zero, or the sum does not fit.
pub fn checked_total(weights: &Vec<usize>) -> (r: Result<usize, SelectorError>)
    ensures
        match r {
            Ok(total) => weights.len() > 0 && all_positive(weights@) && total == total_weight(
                weights@,
            ),
            Err(SelectorError::EmptySelector) => weights.len() == 0,
            Err(SelectorError::ZeroWeight) => weights.len() > 0 && !all_positive(weights@),
            Err(SelectorError::TooHeavy) => weights.len() > 0 && all_positive(weights@)
                && total_weight(weights@) > usize::MAX,
        },
{
    if weights.len() == 0 {
        return Err(SelectorError::EmptySelector);
    }
    let mut i: usize = 0;
    while i < weights.len()
        invariant
            i <= weights.len(),
            forall|k: int| 0 <= k < i ==> #[trigger] weights@[k] >= 1,
        decreases weights.len() - i,
    {
        if weights[i] == 0 {
            assert(!(weights@[i as int] >= 1));
            return Err(SelectorError::ZeroWeight);
        }
        i += 1;
    }
    assert(all_positive(weights@));
    let mut total: usize = 0;
    let mut i: usize = 0;
    while i < weights.len()
        invariant
            i <= weights.len(),
            all_positive(weights@),
            total == weight_before(weights@, i as int),
        decreases weights.len() - i,
    {
        assert(weight_before(weights@, i + 1) == total + weights@[i as int]);
        if weights[i] > usize::MAX - total {
            proof {
                lemma_weight_before_monotonic(weights@, i + 1, weights.len() as int);
            }
            return Err(SelectorError::TooHeavy);
        }
        total = total + weights[i];
        i += 1;
    }
    Ok(total)
}

/// Picks an index by a number drawn at random. The number is reduced to a
/// ticket below the sum of the weights, and the index that owns the ticket is
/// picked: so of all tickets, each index is picked by exactly as many as its
/// weight says.
pub fn select(weights: &Vec<usize>, random: usize) -> (r: Result<usize, SelectorError>)
    ensures
        match r {
            Ok(index) => weights.len() > 0 && all_positive(weights@) && total_weight(weights@)
                <= usize::MAX && owner_of(
                weights@,
                random as int % total_weight(weights@),
                index as int,
            ),
            Err(SelectorError::EmptySelector) => weights.len() == 0,
            Err(SelectorError::ZeroWeight) => weights.len() > 0 && !all_positive(weights@),
            Err(SelectorError::TooHeavy) => weights.len() > 0 && all_positive(weights@)
                && total_weight(weights@) > usize::MAX,
        },
{
    let total = match checked_total(weights) {
        Ok(total) => total,
        Err(e) => {
            return Err(e);
        },
    };
    proof {
        lemma_weight_before_at_least(weights@, weights.len() as int);
    }
    let ticket = random % total;
    let mut before: usize = 0;
    let mut i: usize = 0;
    while i < weights.len()
        invariant
            i <= weights.len(),
            weights.len() > 0,
            all_positive(weights@),
            total == total_weight(weights@),
            ticket == random as int % total_weight(weights@),
            before == weight_before(weights@, i as int),
            before <= ticket < total,
        decreases weights.len() - i,
    {
        proof {
            lemma_weight_before_monotonic(weights@, i + 1, weights.len() as int);
            assert(weight_before(weights@, i + 1) == before + weights@[i as int]);
        }
        if ticket - before < weights[i] {
            assert(owner_of(weights@, ticket as int, i as int));
            return Ok(i);
        }
        before = before + weights[i];
        i += 1;
    }
    // Not reached: the ticket is below the sum of all weights.
    Err(SelectorError::EmptySelector)
}

/// The list in which each index stands as often as its weight says, in
/// ascending order of the indices.
pub fn expand(weights: &Vec<usize>) -> (r: Result<Vec<usize>, SelectorError>)
    ensures
        match r {
            Ok(list) => weights.len() > 0 && all_positive(weights@) && total_weight(weights@)
                <= usize::MAX && list@ == expansion(weights@, weights.len() as int),
            Err(SelectorError::EmptySelector) => weights.len() == 0,
            Err(SelectorError::ZeroWeight) => weights.len() > 0 && !all_positive(weights@),
            Err(SelectorError::TooHeavy) => weights.len() > 0 && all_positive(weights@)
                && total_weight(weights@) > usize::MAX,
        },
{
    match checked_total(weights) {
        Ok(_) => {},
        Err(e) => {
            return Err(e);
        },
    }
    let mut list: Vec<usize> = Vec::new();
    let mut i: usize = 0;
    while i < weights.len()
        invariant
            i <= weights.len(),
            weights.len() > 0,
            all_positive(weights@),
            list@ == expansion(weights@, i as int),
        decreases weights.len() - i,
    {
        let ghost start = list@;
        let mut k: usize = 0;
        while k < weights[i]
            invariant
                i < weights.len(),
                k <= weights[i as int],
                list@ == start + Seq::new(k as nat, |j: int| i),
            decreases weights[i as int] - k,
        {
            list.push(i);
            k += 1;
            assert(list@ =~= start + Seq::new(k as nat, |j: int| i));
        }
        assert(Seq::new(weights@[i as int] as nat, |j: int| i) =~= Seq::new(
            weights@[i as int] as nat,
            |j: int| ((i + 1) - 1) as usize,
        ));
        i += 1;
    }
    Ok(list)
}

/// Exactly one index owns each ticket below the sum of the weights.
pub proof fn lemma_one_owner(weights: Seq<usize>, ticket: int, i: int, j: int)
    requires
        owner_of(weights, ticket, i),
        owner_of(weights, ticket, j),
    ensures
        i == j,
{
    if i < j {
        lemma_weight_before_monotonic(weights, i + 1, j);
    } else if j < i {
        lemma_weight_before_monotonic(weights, j + 1, i);
    }
}

/// Each index owns exactly as many tickets as its weight says: its tickets
/// are those from the sum of the weights before it up to, and without, that
/// sum plus its own weight.
pub proof fn lemma_tickets_by_weight(weights: Seq<usize>, index: int)
    requires
        0 <= index < weights.len(),
    ensures
        weight_before(weights, index + 1) - weight_before(weights, index) == weights[index],
        forall|ticket: int|
            owner_of(weights, ticket, index) <==> weight_before(weights, index) <= ticket
                < weight_before(weights, index) + weights[index],
{
}

/// How often a value stands in two lists put together.
pub proof fn lemma_occurrences_concat(a: Seq<usize>, b: Seq<usize>, value: usize)
    ensures
        occurrences(a + b, value) == occurrences(a, value) + occurrences(b, value),
    decreases b.len(),
{
    if b.len() == 0 {
        assert(a + b =~= a);
    } else {
        assert((a + b).drop_last() =~= a + b.drop_last());
        lemma_occurrences_concat(a, b.drop_last(), value);
    }
}

/// How often a value stands in a list that repeats one value.
pub proof fn lemma_occurrences_repeat(n: nat, item: usize, value: usize)
    ensures
        occurrences(Seq::new(n, |k: int| item), value) == if item == value {
            n as int
        } else {
            0
        },
    decreases n,
{
    if n > 0 {
        assert(Seq::new(n, |k: int| item).drop_last() =~= Seq::new((n - 1) as nat, |k: int| item));
        lemma_occurrences_repeat((n - 1) as nat, item, value);
    }
}

/// In the expansion of the first `n` weights each index below `n` stands
/// exactly as often as its weight says, and no other index stands in it.
pub proof fn lemma_expansion_counts(weights: Seq<usize>, n: int, index: usize)
    requires
        0 <= n <= weights.len() <= usize::MAX,
    ensures
        occurrences(expansion(weights, n), index) == if index < n {
            weights[index as int] as int
        } else {
            0
        },
        expansion(weights, n).len() == weight_before(weights, n),
    decreases n,
{
    if n > 0 {
        lemma_expansion_counts(weights, n - 1, index);
        let tail = Seq::new(weights[n - 1] as nat, |k: int| (n - 1) as usize);
        lemma_occurrences_concat(expansion(weights, n - 1), tail, index);
        lemma_occurrences_repeat(weights[n - 1] as nat, (n - 1) as usize, index);
    }
}

/// The expansion is in ascending order.
pub proof fn lemma_expansion_ascending(weights: Seq<usize>, n: int)
    requires
        0 <= n <= weights.len() <= usize::MAX,
    ensures
        forall|a: int, b: int|
            0 <= a <= b < expansion(weights, n).len() ==> expansion(weights, n)[a] <= expansion(
                weights,
                n,
            )[b],
        forall|a: int| 0 <= a < expansion(weights, n).len() ==> expansion(weights, n)[a] < n,
    decreases n,
{
    if n > 0 {
        lemma_expansion_ascending(weights, n - 1);
        let head = expansion(weights, n - 1);
        let tail = Seq::new(weights[n - 1] as nat, |k: int| (n - 1) as usize);
        assert(expansion(weights, n) == head + tail);
        assert forall|a: int| 0 <= a < expansion(weights, n).len() implies expansion(weights, n)[a]
            < n by {
            if a >= head.len() {
                assert(expansion(weights, n)[a] == tail[a - head.len()]);
            }
        }
        assert forall|a: int, b: int|
            0 <= a <= b < expansion(weights, n).len() implies expansion(weights, n)[a] <= expansion(
            weights,
            n,
        )[b] by {
            if b >= head.len() {
                assert(expansion(weights, n)[b] == tail[b - head.len()]);
                if a >= head.len() {
                    assert(expansion(weights, n)[a] == tail[a - head.len()]);
                }
            }
        }
    }
}

/// How many of the tickets pick `index`.
pub open spec fn draws_of(weights: Seq<usize>, tickets: Seq<int>, index: int) -> int
    decreases tickets.len(),
{
    if tickets.len() == 0 {
        0
    } else {
        draws_of(weights, tickets.drop_last(), index) + if owner_of(
            weights,
            tickets.last(),
            index,
        ) {
            1int
        } else {
            0int
        }
    }
}

/// How many of the tickets pick one of the first `n` indices.
pub open spec fn draws_before(weights: Seq<usize>, tickets: Seq<int>, n: int) -> int
    decreases n,
{
    if n <= 0 {
        0
    } else {
        draws_before(weights, tickets, n - 1) + draws_of(weights, tickets, n - 1)
    }
}

/// The tickets from zero up to `n`, each once.
pub open spec fn tickets_up_to(n: int) -> Seq<int> {
    Seq::new(n as nat, |ticket: int| ticket)
}

/// What two runs of tickets pick, taken together, is what each picks, added
/// up.
pub proof fn lemma_draws_of_two_runs(weights: Seq<usize>, a: Seq<int>, b: Seq<int>, index: int)
    ensures
        draws_of(weights, a + b, index) == draws_of(weights, a, index) + draws_of(
            weights,
            b,
            index,
        ),
    decreases b.len(),
{
    if b.len() == 0 {
        assert(a + b =~= a);
    } else {
        assert((a + b).drop_last() =~= a + b.drop_last());
        lemma_draws_of_two_runs(weights, a, b.drop_last(), index);
    }
}

/// One ticket more adds one to the draws of the first `n` indices if one of
/// them owns it, which is so if it lies below the sum of their weights.
proof fn lemma_draws_before_step(weights: Seq<usize>, tickets: Seq<int>, n: int)
    requires
        tickets.len() > 0,
        0 <= tickets.last(),
        0 <= n <= weights.len(),
    ensures
        draws_before(weights, tickets, n) == draws_before(weights, tickets.drop_last(), n) + if tickets.last()
            < weight_before(weights, n) {
            1int
        } else {
            0int
        },
    decreases n,
{
    if n > 0 {
        lemma_draws_before_step(weights, tickets, n - 1);
        lemma_weight_before_monotonic(weights, n - 1, n);
    }
}

/// Every draw picks one index, and one only: where each ticket lies below
/// the sum of the weights, the draws of all indices add up to the number of
/// tickets drawn. No draw is lost, and none picks an index that is not
/// there.
pub proof fn lemma_every_draw_picks_once(weights: Seq<usize>, tickets: Seq<int>)
    requires
        forall|j: int| 0 <= j < tickets.len() ==> 0 <= #[trigger] tickets[j] < total_weight(weights),
    ensures
        draws_before(weights, tickets, weights.len() as int) == tickets.len(),
    decreases tickets.len(),
{
    if tickets.len() == 0 {
        lemma_no_ticket_no_draw(weights, tickets, weights.len() as int);
    } else {
        let front = tickets.drop_last();
        assert forall|j: int| 0 <= j < front.len() implies 0 <= #[trigger] front[j] < total_weight(
            weights,
        ) by {
            assert(front[j] == tickets[j]);
        }
        lemma_every_draw_picks_once(weights, front);
        assert(0 <= tickets[tickets.len() - 1] < total_weight(weights));
        lemma_draws_before_step(weights, tickets, weights.len() as int);
    }
}

/// Without a ticket nothing is drawn.
proof fn lemma_no_ticket_no_draw(weights: Seq<usize>, tickets: Seq<int>, n: int)
    requires
        tickets.len() == 0,
    ensures
        draws_before(weights, tickets, n) == 0,
    decreases n,
{
    if n > 0 {
        lemma_no_ticket_no_draw(weights, tickets, n - 1);
    }
}

/// Of the first `m` tickets, an index is picked by those that lie in its
/// range.
proof fn lemma_draws_of_first_tickets(weights: Seq<usize>, index: int, m: int)
    requires
        0 <= index < weights.len(),
        0 <= m,
    ensures
        draws_of(weights, tickets_up_to(m), index) == if m <= weight_before(weights, index) {
            0
        } else if m <= weight_before(weights, index + 1) {
            m - weight_before(weights, index)
        } else {
            weights[index] as int
        },
    decreases m,
{
    lemma_weight_before_monotonic(weights, 0, index);
    if m > 0 {
        lemma_draws_of_first_tickets(weights, index, m - 1);
        assert(tickets_up_to(m).drop_last() =~= tickets_up_to(m - 1));
        assert(tickets_up_to(m).last() == m - 1);
    }
}

/// Draws are in proportion to the weights: where every ticket is drawn
/// once, each index is picked exactly as often as its weight says.
pub proof fn lemma_draws_by_weight(weights: Seq<usize>, index: int)
    requires
        0 <= index < weights.len(),
    ensures
        draws_of(weights, tickets_up_to(total_weight(weights)), index) == weights[index],
{
    lemma_weight_before_monotonic(weights, 0, index);
    lemma_weight_before_monotonic(weights, index + 1, weights.len() as int);
    lemma_draws_of_first_tickets(weights, index, total_weight(weights));
}

} // verus!
