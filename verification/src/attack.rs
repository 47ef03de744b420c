//! The controller of a load test: a machine that goes from `Init` through
//! `Starting`, `Hatching`, `Running` and `Stopping` to `Stopped`, and never
//! back. The program around it owns the clock, the users and the logger: it
//! hands the controller what happened, the controller answers with what is to
//! be done next.

use vstd::prelude::*;

use crate::error::GooseError;
use crate::selector::{all_positive, expand, expansion, selector_error_view, SelectorError};

verus! {

/// Where a load test stands.
#[derive(Debug, Clone, Copy, PartialEq, Eq, Structural)]
pub enum GooseAttackPhase {
    /// Nothing has happened yet.
    Init,
    /// The configuration is final and the logger is being started.
    Starting,
    /// Users are being created.
    Hatching,
    /// All users are running.
    Running,
    /// The users were told to stop.
    Stopping,
    /// The load test is over.
    Stopped,
}

/// What happened, as the program around the controller reports it.
#[derive(Debug, Clone, Copy, PartialEq, Eq, Structural)]
pub enum GooseAttackEvent {
    /// The load test is to begin.
    Begin,
    /// The logger runs; the clock shows `now` milliseconds.
    LoggerSpawned { now: u64 },
    /// The clock shows `now` milliseconds.
    Clock { now: u64 },
    /// The operator asked for the load test to stop.
    Signal,
    /// A worker failed beyond repair.
    FatalError,
    /// A user has stopped.
    UserExited,
    /// The time that users are given to stop is over.
    GraceExpired,
}

/// What the controller asks the program around it to do.
#[derive(Debug, Clone, Copy, PartialEq, Eq, Structural)]
pub enum GooseAttackAction {
    /// Start the logger.
    SpawnLogger,
    /// Create a user and give it a task set.
    HatchUser { user: usize, task_set: usize },
    /// Report the clock again when it shows `time` milliseconds.
    WaitUntil { time: u64 },
    /// Forget the metrics of the ramp-up.
    ResetMetrics,
    /// Tell every user to stop, and give them `grace` milliseconds for it.
    CancelUsers { grace: u64 },
    /// Tell the logger to finish, and wait for it.
    FinishLogger,
    /// Collect the metrics and report.
    Report,
}

/// The time that users are given to stop: thirty seconds.
pub const GRACE_MILLIS: u64 = 30000;

/// The controller of one load test.
#[derive(Debug)]
pub struct GooseAttack {
    /// Where the load test stands.
    pub phase: GooseAttackPhase,
    /// How many users to create.
    pub users: usize,
    /// How many users to create in a second.
    pub hatch_rate: usize,
    /// How long the load test runs, in milliseconds from the first hatch.
    pub run_time: u64,
    /// Whether the metrics of the ramp-up are kept.
    pub no_reset_metrics: bool,
    /// The task sets in turn: each index as often as its weight says.
    pub weighted_task_sets: Vec<usize>,
    /// What the clock showed when hatching began.
    pub started: u64,
    /// How many users were created.
    pub hatched: usize,
    /// How many users have stopped.
    pub exited: usize,
}

/// When the user `index` is due: as many thousandths of a second after the
/// start as its place in the ramp says. Each user's time is reckoned from the
/// start, not from the user before it, so that a late hatch delays no other.
pub open spec fn hatch_due(started: int, hatch_rate: int, index: int) -> int {
    started + (index * 1000) / hatch_rate
}

/// The task set of the user `user`: the users take the task sets in turn.
pub open spec fn task_set_of(weighted: Seq<usize>, user: int) -> usize {
    weighted[user % (weighted.len() as int)]
}

/// The numbers of a load test make sense.
pub open spec fn attack_valid(attack: GooseAttack) -> bool {
    &&& attack.users >= 1
    &&& attack.hatch_rate >= 1
    &&& attack.weighted_task_sets@.len() >= 1
    &&& attack.hatched <= attack.users
    &&& attack.exited <= attack.hatched
    &&& (attack.phase == GooseAttackPhase::Init || attack.phase == GooseAttackPhase::Starting)
        ==> attack.hatched == 0
    &&& attack.phase == GooseAttackPhase::Running ==> attack.hatched == attack.users
}

/// The order of the phases.
pub open spec fn phase_rank(phase: GooseAttackPhase) -> int {
    match phase {
        GooseAttackPhase::Init => 0,
        GooseAttackPhase::Starting => 1,
        GooseAttackPhase::Hatching => 2,
        GooseAttackPhase::Running => 3,
        GooseAttackPhase::Stopping => 4,
        GooseAttackPhase::Stopped => 5,
    }
}

/// What closes a load test: the logger is told to finish, then the metrics
/// are reported.
pub open spec fn closing_actions() -> Seq<GooseAttackAction> {
    seq![GooseAttackAction::FinishLogger, GooseAttackAction::Report]
}

/// What the clock leads to while users are hatched.
pub open spec fn hatching_clock(attack: GooseAttack, now: u64) -> (GooseAttack, Seq<
    GooseAttackAction,
>) {
    let due = clamp(
        hatch_due(attack.started as int, attack.hatch_rate as int, attack.hatched as int),
    );
    if attack.hatched < attack.users && due > now {
        // The next user is not due yet.
        (attack, seq![GooseAttackAction::WaitUntil { time: due }])
    } else if attack.hatched < attack.users {
        let hatch = GooseAttackAction::HatchUser {
            user: attack.hatched,
            task_set: task_set_of(attack.weighted_task_sets@, attack.hatched as int),
        };
        let hatched = (attack.hatched + 1) as usize;
        if hatched < attack.users {
            let next = hatch_due(attack.started as int, attack.hatch_rate as int, hatched as int);
            (
                GooseAttack { hatched, ..attack },
                seq![hatch, GooseAttackAction::WaitUntil { time: clamp(next) }],
            )
        } else {
            (
                GooseAttack { hatched, phase: GooseAttackPhase::Running, ..attack },
                seq![hatch] + running_actions(attack),
            )
        }
    } else {
        (GooseAttack { phase: GooseAttackPhase::Running, ..attack }, running_actions(attack))
    }
}

/// What is done when the last user is hatched: the metrics of the ramp-up
/// are forgotten unless they are to be kept, and the clock is awaited at the
/// end of the run time.
pub open spec fn running_actions(attack: GooseAttack) -> Seq<GooseAttackAction> {
    let wait = GooseAttackAction::WaitUntil { time: clamp(attack.started + attack.run_time) };
    if attack.no_reset_metrics {
        seq![wait]
    } else {
        seq![GooseAttackAction::ResetMetrics, wait]
    }
}

/// A time, held to what the clock can show.
pub open spec fn clamp(time: int) -> u64 {
    if time > u64::MAX {
        u64::MAX
    } else {
        time as u64
    }
}

/// The load test and what is to be done after an event.
pub open spec fn attack_step(attack: GooseAttack, event: GooseAttackEvent) -> (GooseAttack, Seq<
    GooseAttackAction,
>) {
    match (attack.phase, event) {
        (GooseAttackPhase::Init, GooseAttackEvent::Begin) => (
            GooseAttack { phase: GooseAttackPhase::Starting, ..attack },
            seq![GooseAttackAction::SpawnLogger],
        ),
        (GooseAttackPhase::Starting, GooseAttackEvent::LoggerSpawned { now }) => hatching_clock(
            GooseAttack { phase: GooseAttackPhase::Hatching, started: now, ..attack },
            now,
        ),
        (GooseAttackPhase::Hatching, GooseAttackEvent::Clock { now }) => hatching_clock(
            attack,
            now,
        ),
        (GooseAttackPhase::Running, GooseAttackEvent::Clock { now }) => if now - attack.started
            >= attack.run_time {
            stop(attack)
        } else {
            (
                attack,
                seq![
                    GooseAttackAction::WaitUntil { time: clamp(attack.started + attack.run_time) },
                ],
            )
        },
        (GooseAttackPhase::Hatching, GooseAttackEvent::Signal) => stop(attack),
        (GooseAttackPhase::Hatching, GooseAttackEvent::FatalError) => stop(attack),
        (GooseAttackPhase::Running, GooseAttackEvent::Signal) => stop(attack),
        (GooseAttackPhase::Running, GooseAttackEvent::FatalError) => stop(attack),
        (GooseAttackPhase::Hatching, GooseAttackEvent::UserExited) => (user_exited(attack), Seq::empty()),
        (GooseAttackPhase::Running, GooseAttackEvent::UserExited) => (user_exited(attack), Seq::empty()),
        (GooseAttackPhase::Stopping, GooseAttackEvent::UserExited) => {
            let counted = user_exited(attack);
            if counted.exited == counted.hatched {
                (GooseAttack { phase: GooseAttackPhase::Stopped, ..counted }, closing_actions())
            } else {
                (counted, Seq::empty())
            }
        },
        (GooseAttackPhase::Stopping, GooseAttackEvent::GraceExpired) => (
            GooseAttack { phase: GooseAttackPhase::Stopped, ..attack },
            closing_actions(),
        ),
        _ => (attack, Seq::empty()),
    }
}

/// One more user has stopped.
pub open spec fn user_exited(attack: GooseAttack) -> GooseAttack {
    if attack.exited < attack.hatched {
        GooseAttack { exited: (attack.exited + 1) as usize, ..attack }
    } else {
        attack
    }
}

/// The users are told to stop. Where none is left the load test is over at
/// once.
pub open spec fn stop(attack: GooseAttack) -> (GooseAttack, Seq<GooseAttackAction>) {
    let cancel = GooseAttackAction::CancelUsers { grace: GRACE_MILLIS };
    if attack.exited == attack.hatched {
        (
            GooseAttack { phase: GooseAttackPhase::Stopped, ..attack },
            seq![cancel] + closing_actions(),
        )
    } else {
        (GooseAttack { phase: GooseAttackPhase::Stopping, ..attack }, seq![cancel])
    }
}

/// The error for a number that a load test cannot run with.
pub open spec fn invalid_number(option: Seq<char>) -> crate::error::GooseErrorView {
    crate::error::GooseErrorView::InvalidOption {
        option,
        value: "0"@,
        detail: "must be at least 1"@,
    }
}

fn number_error(option: &str) -> (r: GooseError)
    ensures
        r@ == invalid_number(option@),
{
    GooseError::InvalidOption {
        option: String::from_str(option),
        value: String::from_str("0"),
        detail: String::from_str("must be at least 1"),
    }
}

impl GooseAttack {
    /// A load test that has not begun, for `users` users hatched at
    /// `hatch_rate` users a second, to run for `run_time` milliseconds, over
    /// task sets of the given weights. Without task sets there is nothing to
    /// run; no users, a hatch rate of zero or a weight of zero is an invalid
    /// option, as are weights too large to add up.
    pub fn new(
        users: usize,
        hatch_rate: usize,
        run_time: u64,
        no_reset_metrics: bool,
        task_set_weights: &Vec<usize>,
    ) -> (r: Result<GooseAttack, GooseError>)
        ensures
            match r {
                Ok(attack) => {
                    &&& attack_valid(attack)
                    &&& users >= 1 && hatch_rate >= 1
                    &&& task_set_weights.len() >= 1 && all_positive(task_set_weights@)
                    &&& crate::selector::total_weight(task_set_weights@) <= usize::MAX
                    &&& attack.phase == GooseAttackPhase::Init
                    &&& attack.users == users
                    &&& attack.hatch_rate == hatch_rate
                    &&& attack.run_time == run_time
                    &&& attack.no_reset_metrics == no_reset_metrics
                    &&& attack.weighted_task_sets@ == expansion(
                        task_set_weights@,
                        task_set_weights.len() as int,
                    )
                    &&& attack.hatched == 0
                    &&& attack.exited == 0
                },
                Err(e) => if task_set_weights.len() == 0 {
                    e@ == crate::error::GooseErrorView::NoTasks
                } else if users == 0 {
                    e@ == invalid_number("users"@)
                } else if hatch_rate == 0 {
                    e@ == invalid_number("hatch_rate"@)
                } else if !all_positive(task_set_weights@) {
                    e@ == selector_error_view(SelectorError::ZeroWeight)
                } else {
                    crate::selector::total_weight(task_set_weights@) > usize::MAX && e@
                        == selector_error_view(SelectorError::TooHeavy)
                },
            },
    {
        if task_set_weights.len() == 0 {
            return Err(GooseError::NoTasks);
        }
        if users == 0 {
            return Err(number_error("users"));
        }
        if hatch_rate == 0 {
            return Err(number_error("hatch_rate"));
        }
        match expand(task_set_weights) {
            Ok(weighted_task_sets) => {
                proof {
                    crate::selector::lemma_expansion_counts(
                        task_set_weights@,
                        task_set_weights.len() as int,
                        0,
                    );
                    crate::selector::lemma_weight_before_at_least(
                        task_set_weights@,
                        task_set_weights.len() as int,
                    );
                }
                Ok(
                    GooseAttack {
                        phase: GooseAttackPhase::Init,
                        users,
                        hatch_rate,
                        run_time,
                        no_reset_metrics,
                        weighted_task_sets,
                        started: 0,
                        hatched: 0,
                        exited: 0,
                    },
                )
            },
            Err(e) => Err(e.to_error()),
        }
    }

    /// When the user `index` is due, held to what the clock can show.
    pub fn hatch_time(&self, index: usize) -> (r: u64)
        requires
            self.hatch_rate >= 1,
        ensures
            r == clamp(hatch_due(self.started as int, self.hatch_rate as int, index as int)),
    {
        let offset: u128 = (index as u128) * 1000 / (self.hatch_rate as u128);
        let due: u128 = (self.started as u128) + offset;
        if due > u64::MAX as u128 {
            u64::MAX
        } else {
            due as u64
        }
    }

    fn end_time(&self) -> (r: u64)
        ensures
            r == clamp(self.started + self.run_time),
    {
        if self.run_time > u64::MAX - self.started {
            u64::MAX
        } else {
            self.started + self.run_time
        }
    }

    fn enter_running(&mut self, actions: &mut Vec<GooseAttackAction>)
        ensures
            *final(self) == (GooseAttack { phase: GooseAttackPhase::Running, ..*old(self) }),
            final(actions)@ == old(actions)@ + running_actions(*old(self)),
    {
        self.phase = GooseAttackPhase::Running;
        if !self.no_reset_metrics {
            actions.push(GooseAttackAction::ResetMetrics);
        }
        actions.push(GooseAttackAction::WaitUntil { time: self.end_time() });
        assert(actions@ =~= old(actions)@ + running_actions(*old(self)));
    }

    fn clock_while_hatching(&mut self, now: u64) -> (r: Vec<GooseAttackAction>)
        requires
            attack_valid(*old(self)),
        ensures
            (*final(self), r@) == hatching_clock(*old(self), now),
    {
        let mut actions: Vec<GooseAttackAction> = Vec::new();
        if self.hatched < self.users {
            let due = self.hatch_time(self.hatched);
            if due > now {
                actions.push(GooseAttackAction::WaitUntil { time: due });
                assert(actions@ =~= hatching_clock(*old(self), now).1);
                return actions;
            }
            let size = self.weighted_task_sets.len();
            let task_set = self.weighted_task_sets[self.hatched % size];
            let hatch = GooseAttackAction::HatchUser { user: self.hatched, task_set };
            actions.push(hatch);
            self.hatched = self.hatched + 1;
            if self.hatched < self.users {
                actions.push(GooseAttackAction::WaitUntil { time: self.hatch_time(self.hatched) });
                assert(actions@ =~= hatching_clock(*old(self), now).1);
            } else {
                let ghost before = *self;
                self.enter_running(&mut actions);
                assert(running_actions(before) == running_actions(*old(self)));
                assert(actions@ =~= hatching_clock(*old(self), now).1);
            }
        } else {
            self.enter_running(&mut actions);
            assert(actions@ =~= hatching_clock(*old(self), now).1);
        }
        actions
    }

    fn stop_users(&mut self) -> (r: Vec<GooseAttackAction>)
        ensures
            (*final(self), r@) == stop(*old(self)),
    {
        let mut actions: Vec<GooseAttackAction> = Vec::new();
        actions.push(GooseAttackAction::CancelUsers { grace: GRACE_MILLIS });
        if self.exited == self.hatched {
            self.phase = GooseAttackPhase::Stopped;
            actions.push(GooseAttackAction::FinishLogger);
            actions.push(GooseAttackAction::Report);
        } else {
            self.phase = GooseAttackPhase::Stopping;
        }
        assert(actions@ =~= stop(*old(self)).1);
        actions
    }

    fn count_exit(&mut self)
        ensures
            *final(self) == user_exited(*old(self)),
    {
        if self.exited < self.hatched {
            self.exited = self.exited + 1;
        }
    }

    fn close(&mut self) -> (r: Vec<GooseAttackAction>)
        ensures
            *final(self) == (GooseAttack { phase: GooseAttackPhase::Stopped, ..*old(self) }),
            r@ == closing_actions(),
    {
        self.phase = GooseAttackPhase::Stopped;
        let mut actions: Vec<GooseAttackAction> = Vec::new();
        actions.push(GooseAttackAction::FinishLogger);
        actions.push(GooseAttackAction::Report);
        assert(actions@ =~= closing_actions());
        actions
    }

    /// One step of the controller: what it asks for after `event`. An event
    /// that the phase has no use for changes nothing.
    pub fn step(&mut self, event: GooseAttackEvent) -> (r: Vec<GooseAttackAction>)
        requires
            attack_valid(*old(self)),
        ensures
            (*final(self), r@) == attack_step(*old(self), event),
            attack_valid(*final(self)),
            phase_rank(old(self).phase) <= phase_rank(final(self).phase),
    {
        match (self.phase, event) {
            (GooseAttackPhase::Init, GooseAttackEvent::Begin) => {
                self.phase = GooseAttackPhase::Starting;
                let mut actions: Vec<GooseAttackAction> = Vec::new();
                actions.push(GooseAttackAction::SpawnLogger);
                assert(actions@ =~= seq![GooseAttackAction::SpawnLogger]);
                actions
            },
            (GooseAttackPhase::Starting, GooseAttackEvent::LoggerSpawned { now }) => {
                self.phase = GooseAttackPhase::Hatching;
                self.started = now;
                self.clock_while_hatching(now)
            },
            (GooseAttackPhase::Hatching, GooseAttackEvent::Clock { now }) => {
                self.clock_while_hatching(now)
            },
            (GooseAttackPhase::Running, GooseAttackEvent::Clock { now }) => {
                if now >= self.started && now - self.started >= self.run_time {
                    self.stop_users()
                } else {
                    let mut actions: Vec<GooseAttackAction> = Vec::new();
                    actions.push(GooseAttackAction::WaitUntil { time: self.end_time() });
                    assert(actions@ =~= attack_step(*old(self), event).1);
                    actions
                }
            },
            (GooseAttackPhase::Hatching, GooseAttackEvent::Signal)
            | (GooseAttackPhase::Hatching, GooseAttackEvent::FatalError)
            | (GooseAttackPhase::Running, GooseAttackEvent::Signal)
            | (GooseAttackPhase::Running, GooseAttackEvent::FatalError) => self.stop_users(),
            (GooseAttackPhase::Hatching, GooseAttackEvent::UserExited)
            | (GooseAttackPhase::Running, GooseAttackEvent::UserExited) => {
                self.count_exit();
                Vec::new()
            },
            (GooseAttackPhase::Stopping, GooseAttackEvent::UserExited) => {
                self.count_exit();
                if self.exited == self.hatched {
                    self.close()
                } else {
                    Vec::new()
                }
            },
            (GooseAttackPhase::Stopping, GooseAttackEvent::GraceExpired) => self.close(),
            _ => Vec::new(),
        }
    }
}

/// Two users in a row are due a thousandth of a second apart at most from
/// what the hatch rate asks for: the time between them is the thousand
/// milliseconds of a second divided by the rate, rounded down or up.
pub proof fn lemma_hatch_interval(started: int, hatch_rate: int, index: int)
    requires
        hatch_rate >= 1,
        index >= 0,
    ensures
        1000int / hatch_rate <= hatch_due(started, hatch_rate, index + 1) - hatch_due(
            started,
            hatch_rate,
            index,
        ) <= 1000int / hatch_rate + 1,
{
    let a = index * 1000;
    let q = 1000int / hatch_rate;
    let r = 1000int % hatch_rate;
    assert(1000 == q * hatch_rate + r) by (nonlinear_arith)
        requires
            hatch_rate >= 1,
            q == 1000int / hatch_rate,
            r == 1000int % hatch_rate,
    ;
    let x = a / hatch_rate;
    let y = a % hatch_rate;
    assert(a == x * hatch_rate + y && 0 <= y < hatch_rate) by (nonlinear_arith)
        requires
            hatch_rate >= 1,
            x == a / hatch_rate,
            y == a % hatch_rate,
    ;
    assert(0 <= r < hatch_rate) by (nonlinear_arith)
        requires
            hatch_rate >= 1,
            r == 1000int % hatch_rate,
    ;
    let b = (index + 1) * 1000;
    assert(b == (x + q) * hatch_rate + (y + r)) by (nonlinear_arith)
        requires
            b == a + 1000,
            a == x * hatch_rate + y,
            1000 == q * hatch_rate + r,
    ;
    if y + r < hatch_rate {
        vstd::arithmetic::div_mod::lemma_fundamental_div_mod_converse(
            b,
            hatch_rate,
            x + q,
            y + r,
        );
    } else {
        assert(b == (x + q + 1) * hatch_rate + (y + r - hatch_rate)) by (nonlinear_arith)
            requires
                b == (x + q) * hatch_rate + (y + r),
        ;
        vstd::arithmetic::div_mod::lemma_fundamental_div_mod_converse(
            b,
            hatch_rate,
            x + q + 1,
            y + r - hatch_rate,
        );
    }
}

/// No user is due before the user before it, and the user `index` is due no
/// later than its share of the ramp after the start: lateness does not add
/// up.
pub proof fn lemma_hatch_due_from_start(started: int, hatch_rate: int, index: int)
    requires
        hatch_rate >= 1,
        index >= 0,
    ensures
        hatch_due(started, hatch_rate, index) <= hatch_due(started, hatch_rate, index + 1),
        (hatch_due(started, hatch_rate, index) - started) * hatch_rate <= index * 1000 < (hatch_due(
            started,
            hatch_rate,
            index,
        ) - started + 1) * hatch_rate,
{
    lemma_hatch_interval(started, hatch_rate, index);
    let a = index * 1000;
    let x = a / hatch_rate;
    let y = a % hatch_rate;
    assert(a == x * hatch_rate + y && 0 <= y < hatch_rate) by (nonlinear_arith)
        requires
            hatch_rate >= 1,
            x == a / hatch_rate,
            y == a % hatch_rate,
    ;
    assert((x + 1) * hatch_rate == x * hatch_rate + hatch_rate) by (nonlinear_arith);
    assert(1000int / hatch_rate >= 0) by (nonlinear_arith)
        requires
            hatch_rate >= 1,
    ;
}

/// Once a load test is over nothing more is asked for, whatever happens.
pub proof fn lemma_stopped_is_final(attack: GooseAttack, event: GooseAttackEvent)
    requires
        attack.phase == GooseAttackPhase::Stopped,
    ensures
        attack_step(attack, event).0 == attack,
        attack_step(attack, event).1 == Seq::<GooseAttackAction>::empty(),
{
}

/// A load test is over only when its users are: a step takes it to `Stopped`
/// only where every user that was hatched has gone, or where the time that
/// the users were given to go is over.
pub proof fn lemma_stopped_after_users(attack: GooseAttack, event: GooseAttackEvent)
    requires
        attack.phase != GooseAttackPhase::Stopped,
        attack_step(attack, event).0.phase == GooseAttackPhase::Stopped,
    ensures
        attack_step(attack, event).0.exited == attack_step(attack, event).0.hatched || event
            == GooseAttackEvent::GraceExpired,
        attack.phase == GooseAttackPhase::Hatching || attack.phase == GooseAttackPhase::Running
            || attack.phase == GooseAttackPhase::Stopping,
{
}

/// A load test comes to its end only through the closing actions: whenever
/// a step takes it to `Stopped`, the logger is told to finish and the report
/// is asked for, in that order, as the last two actions of the step.
pub proof fn lemma_stopping_closes(attack: GooseAttack, event: GooseAttackEvent)
    requires
        attack.phase != GooseAttackPhase::Stopped,
        attack_step(attack, event).0.phase == GooseAttackPhase::Stopped,
    ensures
        attack_step(attack, event).1.len() >= 2,
        attack_step(attack, event).1.subrange(
            attack_step(attack, event).1.len() - 2,
            attack_step(attack, event).1.len() as int,
        ) == closing_actions(),
{
    let actions = attack_step(attack, event).1;
    assert(actions.subrange(actions.len() - 2, actions.len() as int) =~= closing_actions());
}

} // verus!
