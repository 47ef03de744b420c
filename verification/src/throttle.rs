//! The throttle: a bucket of tokens that bounds how many requests the whole
//! process makes. A request needs a token. The bucket holds as many tokens
//! as requests are allowed in a second, and gets one token back at each tick
//! of a clock that ticks that many times a second.

use vstd::prelude::*;

verus! {

/// What a user is told when it asks for a token.
#[derive(Debug, Clone, Copy, PartialEq, Eq, Structural)]
pub enum GooseThrottleAnswer {
    /// The user may make its request.
    Granted,
    /// There is no token: the user has to wait and ask again.
    Wait,
    /// The load test is shutting down: the user has to stop.
    Cancelled,
}

/// What happens to a throttle.
#[derive(Debug, Clone, Copy, PartialEq, Eq, Structural)]
pub enum GooseThrottleEvent {
    /// The clock ticked.
    Tick,
    /// A user asked for a token.
    Acquire,
}

/// The bucket of tokens.
#[derive(Debug, Clone, Copy, PartialEq, Eq, Structural)]
pub struct GooseThrottle {
    /// How many requests are allowed in a second; zero for no limit.
    pub capacity: usize,
    /// How many tokens the bucket holds.
    pub tokens: usize,
    /// Whether the load test is shutting down.
    pub cancelled: bool,
}

/// Nanoseconds in a second.
pub const NANOS_PER_SECOND: u64 = 1000000000;

impl GooseThrottle {
    /// The bucket never holds more tokens than its capacity.
    pub open spec fn well_formed(self) -> bool {
        self.tokens <= self.capacity
    }

    /// Whether the throttle limits anything.
    pub open spec fn enabled(self) -> bool {
        self.capacity > 0
    }

    /// The throttle after a tick: one token more, unless the bucket is full.
    pub open spec fn ticked(self) -> GooseThrottle {
        if self.tokens < self.capacity {
            GooseThrottle { tokens: (self.tokens + 1) as usize, ..self }
        } else {
            self
        }
    }

    /// What a user that asks for a token is told.
    pub open spec fn answer(self) -> GooseThrottleAnswer {
        if self.cancelled {
            GooseThrottleAnswer::Cancelled
        } else if !self.enabled() {
            GooseThrottleAnswer::Granted
        } else if self.tokens > 0 {
            GooseThrottleAnswer::Granted
        } else {
            GooseThrottleAnswer::Wait
        }
    }

    /// The throttle after a user asked for a token: one token less where a
    /// token was granted.
    pub open spec fn asked(self) -> GooseThrottle {
        if self.enabled() && self.answer() == GooseThrottleAnswer::Granted {
            GooseThrottle { tokens: (self.tokens - 1) as usize, ..self }
        } else {
            self
        }
    }

    /// The throttle after an event.
    pub open spec fn after(self, event: GooseThrottleEvent) -> GooseThrottle {
        match event {
            GooseThrottleEvent::Tick => self.ticked(),
            GooseThrottleEvent::Acquire => self.asked(),
        }
    }

    /// A throttle for so many requests a second, with a full bucket. Zero
    /// stands for no limit.
    pub fn new(throttle_requests: usize) -> (r: GooseThrottle)
        ensures
            r.well_formed(),
            r.capacity == throttle_requests,
            r.tokens == throttle_requests,
            !r.cancelled,
    {
        GooseThrottle { capacity: throttle_requests, tokens: throttle_requests, cancelled: false }
    }

    /// The time between two ticks, in nanoseconds: a second divided by the
    /// capacity. A throttle without limit has no clock.
    pub fn tick_interval(&self) -> (r: Option<u64>)
        ensures
            !self.enabled() ==> r is None,
            self.enabled() ==> r == Some((NANOS_PER_SECOND as int / self.capacity as int) as u64),
    {
        if self.capacity == 0 {
            None
        } else {
            Some(NANOS_PER_SECOND / (self.capacity as u64))
        }
    }

    /// The clock ticked: the bucket gets a token back, unless it is full.
    pub fn refill(&mut self)
        requires
            old(self).well_formed(),
        ensures
            *final(self) == old(self).ticked(),
            final(self).well_formed(),
    {
        if self.tokens < self.capacity {
            self.tokens = self.tokens + 1;
        }
    }

    /// A user asks for a token before it makes a request.
    pub fn acquire(&mut self) -> (r: GooseThrottleAnswer)
        requires
            old(self).well_formed(),
        ensures
            r == old(self).answer(),
            *final(self) == old(self).asked(),
            final(self).well_formed(),
    {
        if self.cancelled {
            GooseThrottleAnswer::Cancelled
        } else if self.capacity == 0 {
            GooseThrottleAnswer::Granted
        } else if self.tokens > 0 {
            self.tokens = self.tokens - 1;
            GooseThrottleAnswer::Granted
        } else {
            GooseThrottleAnswer::Wait
        }
    }

    /// The load test shuts down: from now on every user is told to stop.
    pub fn cancel(&mut self)
        ensures
            *final(self) == (GooseThrottle { cancelled: true, ..*old(self) }),
    {
        self.cancelled = true;
    }
}

/// How many of the events are ticks.
pub open spec fn ticks(events: Seq<GooseThrottleEvent>) -> int
    decreases events.len(),
{
    if events.len() == 0 {
        0
    } else {
        ticks(events.drop_last()) + if events.last() == GooseThrottleEvent::Tick {
            1int
        } else {
            0int
        }
    }
}

/// The throttle after a run of events.
pub open spec fn throttle_after(start: GooseThrottle, events: Seq<GooseThrottleEvent>) -> GooseThrottle
    decreases events.len(),
{
    if events.len() == 0 {
        start
    } else {
        throttle_after(start, events.drop_last()).after(events.last())
    }
}

/// How many requests were granted in a run of events.
pub open spec fn grants(start: GooseThrottle, events: Seq<GooseThrottleEvent>) -> int
    decreases events.len(),
{
    if events.len() == 0 {
        0
    } else {
        grants(start, events.drop_last()) + if events.last() == GooseThrottleEvent::Acquire
            && throttle_after(start, events.drop_last()).answer() == GooseThrottleAnswer::Granted {
            1int
        } else {
            0int
        }
    }
}

/// Tokens are neither made nor lost: what an enabled throttle granted in a
/// run of events, and what its bucket holds after it, is together no more
/// than what the bucket held before and the ticks of the run. The bucket
/// never holds more than its capacity.
pub proof fn lemma_grants_bounded(start: GooseThrottle, events: Seq<GooseThrottleEvent>)
    requires
        start.well_formed(),
        start.enabled(),
    ensures
        throttle_after(start, events).well_formed(),
        throttle_after(start, events).capacity == start.capacity,
        grants(start, events) + throttle_after(start, events).tokens <= start.tokens + ticks(
            events,
        ),
        grants(start, events) >= 0,
    decreases events.len(),
{
    if events.len() > 0 {
        lemma_grants_bounded(start, events.drop_last());
    }
}

/// In a window in which the clock ticks no more often than the capacity
/// says, which is what it does in a second, an enabled throttle grants no
/// more requests than its bucket held at the start of the window and its
/// capacity together.
pub proof fn lemma_grants_in_a_second(start: GooseThrottle, events: Seq<GooseThrottleEvent>)
    requires
        start.well_formed(),
        start.enabled(),
        ticks(events) <= start.capacity,
    ensures
        grants(start, events) <= start.tokens + start.capacity,
        start.tokens <= 1 ==> grants(start, events) <= start.capacity + 1,
{
    lemma_grants_bounded(start, events);
}

/// Over a stretch of so many seconds, in each of which the clock ticks no
/// more often than the capacity says, an enabled throttle grants no more
/// requests than its capacity allows in that time and one second more: what
/// the bucket held at the start is at most one second's worth.
pub proof fn lemma_grants_in_a_run(
    start: GooseThrottle,
    events: Seq<GooseThrottleEvent>,
    seconds: nat,
)
    requires
        start.well_formed(),
        start.enabled(),
        ticks(events) <= seconds * start.capacity,
    ensures
        grants(start, events) <= (seconds + 1) * start.capacity,
{
    lemma_grants_bounded(start, events);
    assert((seconds + 1) * start.capacity == seconds * start.capacity + start.capacity)
        by (nonlinear_arith);
}

/// A throttle that was cancelled grants nothing.
pub proof fn lemma_cancelled_grants_nothing(start: GooseThrottle, events: Seq<GooseThrottleEvent>)
    requires
        start.cancelled,
    ensures
        throttle_after(start, events).cancelled,
        grants(start, events) == 0,
    decreases events.len(),
{
    if events.len() > 0 {
        lemma_cancelled_grants_nothing(start, events.drop_last());
    }
}

} // verus!
