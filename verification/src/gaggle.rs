//! A gaggle: one manager and several workers that run one load test
//! together. The manager waits for its workers, checks that they run the same
//! load test, deals the users out among them, and tells them to start and to
//! stop. Whoever owns the connections hands the manager what happened and
//! sends what the manager asks for.

use vstd::prelude::*;

use crate::goose::{GooseTaskSetView, GooseTaskSets};

verus! {

/// Why a gaggle failed.
#[derive(Debug, Clone, Copy, PartialEq, Eq, Structural)]
pub enum GaggleError {
    /// A worker runs another load test, or another version, than the
    /// manager.
    HandshakeMismatch,
    /// A worker went away during the load test.
    WorkerDisconnect,
    /// A worker could not reach the manager.
    ManagerUnreachable,
}

/// What a worker says of itself when it connects.
#[derive(Debug, Clone, Copy, PartialEq, Eq, Structural)]
pub struct GaggleHandshake {
    /// The fingerprint of the worker's task sets.
    pub fingerprint: u64,
    /// The version of the worker.
    pub version: u64,
}

/// The multiplier of the fingerprint.
pub const FINGERPRINT_PRIME: u64 = 1099511628211;

/// The fingerprint of nothing.
pub const FINGERPRINT_START: u64 = 14695981039346656037;

/// One number mixed into a fingerprint: added, then multiplied, in 64 bits.
#[verifier::opaque]
pub open spec fn mixed(fingerprint: u64, value: int) -> u64 {
    (((fingerprint as int + value) * (FINGERPRINT_PRIME as int)) % 0x1_0000_0000_0000_0000) as u64
}

/// The characters of a text mixed into a fingerprint, one after the other.
pub open spec fn mixed_text(fingerprint: u64, text: Seq<char>) -> u64
    decreases text.len(),
{
    if text.len() == 0 {
        fingerprint
    } else {
        mixed(mixed_text(fingerprint, text.drop_last()), text.last() as u32 as int)
    }
}

/// The shape of one task set mixed into a fingerprint: its name, its
/// weight, and the number of its tasks.
pub open spec fn mixed_task_set<F>(fingerprint: u64, task_set: GooseTaskSetView<F>) -> u64 {
    mixed(
        mixed(mixed_text(fingerprint, task_set.name), task_set.weight as int),
        task_set.tasks.len() as int,
    )
}

/// The fingerprint of the first `n` task sets.
pub open spec fn fingerprint_of<F>(task_sets: Seq<GooseTaskSetView<F>>, n: int) -> u64
    decreases n,
{
    if n <= 0 {
        FINGERPRINT_START
    } else {
        mixed_task_set(fingerprint_of(task_sets, n - 1), task_sets[n - 1])
    }
}

fn mix(fingerprint: u64, value: u64) -> (r: u64)
    ensures
        r == mixed(fingerprint, value as int),
{
    reveal(mixed);
    let sum: u128 = fingerprint as u128 + value as u128;
    assert(sum * FINGERPRINT_PRIME <= 0x2_0000_0000_0000_0000 * 0x200_0000_0000) by (nonlinear_arith)
        requires
            0 <= sum <= 0x2_0000_0000_0000_0000,
            FINGERPRINT_PRIME <= 0x200_0000_0000,
    ;
    let product: u128 = sum * (FINGERPRINT_PRIME as u128);
    (product % 0x1_0000_0000_0000_0000u128) as u64
}

fn mix_text(fingerprint: u64, text: &str) -> (r: u64)
    ensures
        r == mixed_text(fingerprint, text@),
{
    let mut result = fingerprint;
    for c in it: text.chars()
        invariant
            it.seq() == text@,
            result == mixed_text(fingerprint, text@.take(it.index() as int)),
    {
        assert(text@.take(it.index() + 1).drop_last() =~= text@.take(it.index() as int));
        assert(text@.take(it.index() + 1).last() == c);
        let code: u32 = #[verifier::truncate]
        (c as u32);
        result = mix(result, code as u64);
    }
    assert(text@.take(text@.len() as int) =~= text@);
    result
}

impl<F> GooseTaskSets<F> {
    /// The fingerprint of the task sets: a number that depends on the names
    /// of the task sets, on their weights, on the numbers of their tasks,
    /// and on their order, and on nothing else. Two processes that
    /// registered the same task sets have the same fingerprint.
    pub fn fingerprint(&self) -> (r: u64)
        ensures
            r == fingerprint_of(self@, self@.len() as int),
    {
        let mut result = FINGERPRINT_START;
        let mut i: usize = 0;
        while i < self.task_sets.len()
            invariant
                i <= self.task_sets.len(),
                result == fingerprint_of(self@, i as int),
            decreases self.task_sets.len() - i,
        {
            let task_set = &self.task_sets[i];
            assert(self@[i as int] == task_set@);
            result = mix_text(result, task_set.name.as_str());
            result = mix(result, task_set.weight as u64);
            result = mix(result, task_set.tasks.len() as u64);
            i += 1;
        }
        result
    }
}

/// A worker may join: it runs the same task sets in the same version as the
/// manager, or the check is switched off.
pub open spec fn handshake_accepted(
    manager: GaggleHandshake,
    worker: GaggleHandshake,
    no_hash_check: bool,
) -> bool {
    no_hash_check || manager == worker
}

/// Checks what a worker says of itself against what the manager holds.
pub fn check_handshake(manager: GaggleHandshake, worker: GaggleHandshake, no_hash_check: bool) -> (r:
    Result<(), GaggleError>)
    ensures
        handshake_accepted(manager, worker, no_hash_check) ==> r is Ok,
        !handshake_accepted(manager, worker, no_hash_check) ==> r == Err::<(), _>(
            GaggleError::HandshakeMismatch,
        ),
{
    if no_hash_check || (manager.fingerprint == worker.fingerprint && manager.version
        == worker.version) {
        Ok(())
    } else {
        Err(GaggleError::HandshakeMismatch)
    }
}

/// The worker that the user `user` goes to: the users are dealt out in
/// turn.
pub open spec fn worker_of(user: int, workers: int) -> int {
    user % workers
}

/// How many of `users` users go to the worker `worker` of `workers`.
pub open spec fn share_of(users: int, workers: int, worker: int) -> int {
    users / workers + if worker < users % workers {
        1int
    } else {
        0int
    }
}

/// The user at a place of a worker's share.
pub open spec fn user_at(workers: int, worker: int, place: int) -> int {
    worker + place * workers
}

/// The users of one worker: the first is the worker's own number, each next
/// one is as many further as there are workers.
#[derive(Debug, Clone, Copy, PartialEq, Eq, Structural)]
pub struct GaggleShare {
    /// The first user of the worker.
    pub first: usize,
    /// The distance between two users of the worker.
    pub step: usize,
    /// How many users the worker has.
    pub count: usize,
}

/// The users that go to one worker.
pub fn users_of_worker(users: usize, workers: usize, worker: usize) -> (r: GaggleShare)
    requires
        worker < workers,
    ensures
        r.first == worker,
        r.step == workers,
        r.count == share_of(users as int, workers as int, worker as int),
{
    let whole = users / workers;
    let rest = users % workers;
    proof {
        vstd::arithmetic::div_mod::lemma_fundamental_div_mod(users as int, workers as int);
    }
    let count = if worker < rest {
        assert(whole < users) by (nonlinear_arith)
            requires
                whole == users / workers,
                rest == users % workers,
                rest > 0,
                workers > 0,
                users == workers * (users / workers) + users % workers,
        {
        }
        whole + 1
    } else {
        whole
    };
    GaggleShare { first: worker, step: workers, count }
}

/// A user belongs to the share of the worker that it goes to, and to no
/// other: it is the user at the place `user / workers` of that share.
pub proof fn lemma_user_in_one_share(users: int, workers: int, user: int)
    requires
        workers >= 1,
        0 <= user < users,
    ensures
        0 <= worker_of(user, workers) < workers,
        user == user_at(workers, worker_of(user, workers), user / workers),
        0 <= user / workers < share_of(users, workers, worker_of(user, workers)),
        forall|worker: int, place: int|
            0 <= worker < workers && user == #[trigger] user_at(workers, worker, place) ==> worker
                == worker_of(user, workers) && place == user / workers,
{
    let w = user % workers;
    let p = user / workers;
    vstd::arithmetic::div_mod::lemma_fundamental_div_mod(user, workers);
    assert(user == w + p * workers) by (nonlinear_arith)
        requires
            user == workers * p + w,
    ;
    vstd::arithmetic::div_mod::lemma_fundamental_div_mod(users, workers);
    let q = users / workers;
    let r = users % workers;
    assert(0 <= p) by (nonlinear_arith)
        requires
            user >= 0,
            workers >= 1,
            p == user / workers,
    ;
    assert(p < q + if w < r {
        1int
    } else {
        0int
    }) by (nonlinear_arith)
        requires
            user == workers * p + w,
            users == workers * q + r,
            user < users,
            0 <= w < workers,
            0 <= r < workers,
    ;
    assert forall|worker: int, place: int|
        0 <= worker < workers && user == #[trigger] user_at(workers, worker, place) implies worker
        == w && place == p by {
        assert(user == place * workers + worker);
        vstd::arithmetic::div_mod::lemma_fundamental_div_mod_converse(user, workers, place, worker);
    }
}

/// Each place of a share holds a user: the users are dealt out without a
/// rest.
pub proof fn lemma_share_holds_users(users: int, workers: int, worker: int, place: int)
    requires
        workers >= 1,
        users >= 0,
        0 <= worker < workers,
        0 <= place < share_of(users, workers, worker),
    ensures
        0 <= user_at(workers, worker, place) < users,
{
    vstd::arithmetic::div_mod::lemma_fundamental_div_mod(users, workers);
    let q = users / workers;
    let r = users % workers;
    assert(0 <= worker + place * workers < users) by (nonlinear_arith)
        requires
            users == workers * q + r,
            0 <= r < workers,
            0 <= worker < workers,
            0 <= place,
            place < q + if worker < r {
                1int
            } else {
                0int
            },
    ;
}

/// No two workers' shares differ by more than one user.
pub proof fn lemma_shares_are_even(users: int, workers: int, a: int, b: int)
    requires
        workers >= 1,
        0 <= a < workers,
        0 <= b < workers,
    ensures
        share_of(users, workers, a) - share_of(users, workers, b) <= 1,
{
}

/// How often a worker tries to reach the manager again.
pub const MANAGER_RETRIES: u64 = 3;

/// How long a worker waits before it tries again, in milliseconds.
pub const MANAGER_BACK_OFF_MILLIS: u64 = 2000;

/// What a worker does after it failed to reach the manager for the
/// `failures`th time in a row: it waits and tries again, up to three times;
/// after that the manager counts as out of reach.
pub fn after_failed_connect(failures: u64) -> (r: Result<u64, GaggleError>)
    ensures
        failures <= MANAGER_RETRIES ==> r == Ok::<_, GaggleError>(MANAGER_BACK_OFF_MILLIS),
        failures > MANAGER_RETRIES ==> r == Err::<u64, _>(GaggleError::ManagerUnreachable),
{
    if failures <= MANAGER_RETRIES {
        Ok(MANAGER_BACK_OFF_MILLIS)
    } else {
        Err(GaggleError::ManagerUnreachable)
    }
}

/// Where a manager stands.
#[derive(Debug, Clone, Copy, PartialEq, Eq, Structural)]
pub enum GaggleManagerPhase {
    /// The manager waits for its workers.
    Waiting,
    /// The workers run the load test.
    Running,
    /// The workers were told to stop.
    Stopping,
    /// The load test is over.
    Done,
}

/// What happened, as whoever owns the connections reports it.
#[derive(Debug, Clone, Copy, PartialEq, Eq, Structural)]
pub enum GaggleManagerEvent {
    /// A worker connected and said what it runs.
    Hello { handshake: GaggleHandshake },
    /// The worker went away.
    Disconnected { worker: usize },
    /// The run time is over.
    Deadline,
    /// A worker sent its last metrics and said goodbye.
    Bye { worker: usize },
}

/// What the manager asks for.
#[derive(Debug, Clone, Copy, PartialEq, Eq, Structural)]
pub enum GaggleManagerAction {
    /// Turn the worker that just connected away.
    Reject { error: GaggleError },
    /// Tell a worker to start, with its share of the users.
    Start { worker: usize, share: GaggleShare },
    /// Tell every worker that is still there to stop.
    Stop,
    /// Count the share of a worker as lost.
    MarkLost { worker: usize, error: GaggleError },
    /// Report what was collected.
    Report,
}

/// The manager of a gaggle.
#[derive(Debug)]
pub struct GaggleManager {
    /// Where the manager stands.
    pub phase: GaggleManagerPhase,
    /// What the manager runs.
    pub handshake: GaggleHandshake,
    /// Whether workers are let in unchecked.
    pub no_hash_check: bool,
    /// How many workers the manager waits for.
    pub expect_workers: usize,
    /// How many users the load test has.
    pub users: usize,
    /// For each worker that joined, whether it is still there.
    pub present: Vec<bool>,
}

/// How many of the workers are still there.
pub open spec fn present_count(present: Seq<bool>) -> int
    decreases present.len(),
{
    if present.len() == 0 {
        0
    } else {
        present_count(present.drop_last()) + if present.last() {
            1int
        } else {
            0int
        }
    }
}

/// What tells each of the first `n` workers to start.
pub open spec fn start_actions(users: usize, workers: usize, n: int) -> Seq<GaggleManagerAction>
    decreases n,
{
    if n <= 0 {
        Seq::empty()
    } else {
        start_actions(users, workers, n - 1).push(
            GaggleManagerAction::Start {
                worker: (n - 1) as usize,
                share: GaggleShare {
                    first: (n - 1) as usize,
                    step: workers,
                    count: share_of(users as int, workers as int, n - 1) as usize,
                },
            },
        )
    }
}

impl GaggleManager {
    /// The numbers of the manager make sense.
    pub open spec fn well_formed(&self) -> bool {
        &&& self.expect_workers >= 1
        &&& self.present@.len() <= self.expect_workers
        &&& self.phase == GaggleManagerPhase::Waiting ==> self.present@.len()
            < self.expect_workers
        &&& self.phase != GaggleManagerPhase::Waiting ==> self.present@.len()
            == self.expect_workers
    }

    /// A manager that waits for its workers. It has to wait for one at
    /// least.
    pub fn new(handshake: GaggleHandshake, no_hash_check: bool, expect_workers: usize, users: usize) -> (r:
        Option<GaggleManager>)
        ensures
            expect_workers == 0 ==> r is None,
            expect_workers >= 1 ==> r is Some && r.unwrap().well_formed() && r.unwrap().phase
                == GaggleManagerPhase::Waiting && r.unwrap().handshake == handshake
                && r.unwrap().no_hash_check == no_hash_check && r.unwrap().expect_workers
                == expect_workers && r.unwrap().users == users && r.unwrap().present@.len() == 0,
    {
        if expect_workers == 0 {
            None
        } else {
            Some(
                GaggleManager {
                    phase: GaggleManagerPhase::Waiting,
                    handshake,
                    no_hash_check,
                    expect_workers,
                    users,
                    present: Vec::new(),
                },
            )
        }
    }

    /// A worker connected. While the manager waits, a worker that runs
    /// something else is turned away, and any other joins; when the last one
    /// has joined, every worker is told to start with its share of the users.
    /// A worker that connects later is turned away.
    pub fn hello(&mut self, handshake: GaggleHandshake) -> (r: Vec<GaggleManagerAction>)
        requires
            old(self).well_formed(),
        ensures
            final(self).well_formed(),
            final(self).handshake == old(self).handshake,
            final(self).no_hash_check == old(self).no_hash_check,
            final(self).expect_workers == old(self).expect_workers,
            final(self).users == old(self).users,
            // Turned away.
            old(self).phase != GaggleManagerPhase::Waiting || !handshake_accepted(
                old(self).handshake,
                handshake,
                old(self).no_hash_check,
            ) ==> final(self).present == old(self).present && final(self).phase == old(self).phase
                && r@ == seq![
                GaggleManagerAction::Reject { error: GaggleError::HandshakeMismatch },
            ],
            // Joined.
            old(self).phase == GaggleManagerPhase::Waiting && handshake_accepted(
                old(self).handshake,
                handshake,
                old(self).no_hash_check,
            ) ==> {
                &&& final(self).present@ == old(self).present@.push(true)
                &&& if final(self).present@.len() == old(self).expect_workers {
                    final(self).phase == GaggleManagerPhase::Running && r@ == start_actions(
                        old(self).users,
                        old(self).expect_workers,
                        old(self).expect_workers as int,
                    )
                } else {
                    final(self).phase == GaggleManagerPhase::Waiting && r@.len() == 0
                }
            },
    {
        let mut actions: Vec<GaggleManagerAction> = Vec::new();
        let accepted = match self.phase {
            GaggleManagerPhase::Waiting => check_handshake(
                self.handshake,
                handshake,
                self.no_hash_check,
            ).is_ok(),
            _ => false,
        };
        if !accepted {
            actions.push(GaggleManagerAction::Reject { error: GaggleError::HandshakeMismatch });
            return actions;
        }
        self.present.push(true);
        if self.present.len() == self.expect_workers {
            self.phase = GaggleManagerPhase::Running;
            let workers = self.expect_workers;
            let mut worker: usize = 0;
            while worker < workers
                invariant
                    worker <= workers,
                    workers == self.expect_workers,
                    actions@ == start_actions(self.users, workers, worker as int),
                decreases workers - worker,
            {
                let share = users_of_worker(self.users, workers, worker);
                actions.push(GaggleManagerAction::Start { worker, share });
                worker += 1;
            }
        }
        actions
    }

    /// A worker went away. While the load test runs or stops, the share of
    /// a worker that was there is counted as lost, and the others go on;
    /// when the last one has gone the manager reports. Before the start, and
    /// once the load test is over, nothing is done.
    pub fn disconnected(&mut self, worker: usize) -> (r: Vec<GaggleManagerAction>)
        requires
            old(self).well_formed(),
        ensures
            final(self).well_formed(),
            final(self).handshake == old(self).handshake,
            final(self).no_hash_check == old(self).no_hash_check,
            final(self).expect_workers == old(self).expect_workers,
            final(self).users == old(self).users,
            old(self).tracks(worker) ==> {
                &&& final(self).present@ == old(self).present@.update(worker as int, false)
                &&& if present_count(final(self).present@) == 0 {
                    final(self).phase == GaggleManagerPhase::Done && r@ == seq![
                        GaggleManagerAction::MarkLost {
                            worker,
                            error: GaggleError::WorkerDisconnect,
                        },
                        GaggleManagerAction::Report,
                    ]
                } else {
                    final(self).phase == old(self).phase && r@ == seq![
                        GaggleManagerAction::MarkLost {
                            worker,
                            error: GaggleError::WorkerDisconnect,
                        },
                    ]
                }
            },
            !old(self).tracks(worker) ==> final(self).present == old(self).present && final(self).phase == old(self).phase && r@.len() == 0,
    {
        let mut actions: Vec<GaggleManagerAction> = Vec::new();
        if !self.is_tracked(worker) {
            return actions;
        }
        self.present.set(worker, false);
        actions.push(
            GaggleManagerAction::MarkLost { worker, error: GaggleError::WorkerDisconnect },
        );
        if self.count_present() == 0 {
            self.phase = GaggleManagerPhase::Done;
            actions.push(GaggleManagerAction::Report);
        }
        actions
    }

    /// The run time is over: every worker that is still there is told to
    /// stop. This happens once, while the load test runs.
    pub fn deadline(&mut self) -> (r: Vec<GaggleManagerAction>)
        requires
            old(self).well_formed(),
        ensures
            final(self).well_formed(),
            final(self).handshake == old(self).handshake,
            final(self).no_hash_check == old(self).no_hash_check,
            final(self).expect_workers == old(self).expect_workers,
            final(self).users == old(self).users,
            final(self).present == old(self).present,
            old(self).phase == GaggleManagerPhase::Running ==> final(self).phase
                == GaggleManagerPhase::Stopping && r@ == seq![GaggleManagerAction::Stop],
            old(self).phase != GaggleManagerPhase::Running ==> final(self).phase == old(self).phase && r@.len() == 0,
    {
        let mut actions: Vec<GaggleManagerAction> = Vec::new();
        match self.phase {
            GaggleManagerPhase::Running => {
                self.phase = GaggleManagerPhase::Stopping;
                actions.push(GaggleManagerAction::Stop);
            },
            _ => {},
        }
        actions
    }

    /// A worker sent its last metrics. When the last worker that was still
    /// there has done so after it was told to stop, the manager reports.
    pub fn bye(&mut self, worker: usize) -> (r: Vec<GaggleManagerAction>)
        requires
            old(self).well_formed(),
        ensures
            final(self).well_formed(),
            final(self).handshake == old(self).handshake,
            final(self).no_hash_check == old(self).no_hash_check,
            final(self).expect_workers == old(self).expect_workers,
            final(self).users == old(self).users,
            old(self).phase == GaggleManagerPhase::Stopping && old(self).tracks(worker) ==> {
                &&& final(self).present@ == old(self).present@.update(worker as int, false)
                &&& if present_count(final(self).present@) == 0 {
                    final(self).phase == GaggleManagerPhase::Done && r@ == seq![
                        GaggleManagerAction::Report,
                    ]
                } else {
                    final(self).phase == GaggleManagerPhase::Stopping && r@.len() == 0
                }
            },
            !(old(self).phase == GaggleManagerPhase::Stopping && old(self).tracks(worker))
                ==> final(self).present == old(self).present && final(self).phase == old(self).phase && r@.len() == 0,
    {
        let mut actions: Vec<GaggleManagerAction> = Vec::new();
        let stopping = match self.phase {
            GaggleManagerPhase::Stopping => true,
            _ => false,
        };
        if !stopping || !self.is_tracked(worker) {
            return actions;
        }
        self.present.set(worker, false);
        if self.count_present() == 0 {
            self.phase = GaggleManagerPhase::Done;
            actions.push(GaggleManagerAction::Report);
        }
        actions
    }

    /// The manager still counts on the worker: the load test runs or stops,
    /// and the worker joined and has not gone.
    pub open spec fn tracks(&self, worker: usize) -> bool {
        &&& self.phase == GaggleManagerPhase::Running || self.phase
            == GaggleManagerPhase::Stopping
        &&& worker < self.present@.len()
        &&& self.present@[worker as int]
    }

    fn is_tracked(&self, worker: usize) -> (r: bool)
        ensures
            r == self.tracks(worker),
    {
        let active = match self.phase {
            GaggleManagerPhase::Running => true,
            GaggleManagerPhase::Stopping => true,
            _ => false,
        };
        active && worker < self.present.len() && self.present[worker]
    }

    fn count_present(&self) -> (r: usize)
        ensures
            r == present_count(self.present@),
    {
        let mut count: usize = 0;
        let mut i: usize = 0;
        while i < self.present.len()
            invariant
                i <= self.present.len(),
                count == present_count(self.present@.take(i as int)),
                count <= i,
            decreases self.present.len() - i,
        {
            assert(self.present@.take(i + 1).drop_last() =~= self.present@.take(i as int));
            if self.present[i] {
                count += 1;
            }
            i += 1;
        }
        assert(self.present@.take(self.present@.len() as int) =~= self.present@);
        count
    }
}

/// Where a worker stands.
#[derive(Debug, Clone, Copy, PartialEq, Eq, Structural)]
pub enum GaggleWorkerPhase {
    /// The worker tries to reach the manager.
    Connecting,
    /// The worker has said what it runs and waits to be told to start.
    Registered,
    /// The worker runs its share of the users.
    Running,
    /// The worker is done.
    Done,
}

/// What happened to a worker, as whoever owns the connection reports it.
#[derive(Debug, Clone, Copy, PartialEq, Eq, Structural)]
pub enum GaggleWorkerEvent {
    /// The manager was reached.
    Connected,
    /// The manager was not reached.
    ConnectFailed,
    /// The manager turned the worker away.
    Rejected,
    /// The manager told the worker to start, with its share of the users.
    Start { share: GaggleShare },
    /// A second has passed.
    Second,
    /// The manager told the worker to stop, or went away.
    Stop,
}

/// What a worker asks for.
#[derive(Debug, Clone, Copy, PartialEq, Eq, Structural)]
pub enum GaggleWorkerAction {
    /// Try to reach the manager, after so many milliseconds.
    Connect { delay: u64 },
    /// Say what the worker runs.
    SendHello { handshake: GaggleHandshake },
    /// Run the users of the share.
    RunUsers { share: GaggleShare },
    /// Send the metrics that were collected since the last batch.
    SendMetrics,
    /// Stop the users, send the last metrics and say goodbye.
    SendBye,
    /// Give up with an error: the process ends with the exit code one.
    Fail { error: GaggleError },
}

/// A worker of a gaggle.
#[derive(Debug, Clone, Copy, PartialEq, Eq, Structural)]
pub struct GaggleWorker {
    /// Where the worker stands.
    pub phase: GaggleWorkerPhase,
    /// What the worker runs.
    pub handshake: GaggleHandshake,
    /// How often in a row the manager was not reached.
    pub failures: u64,
}

/// The worker and what it asks for after an event.
pub open spec fn worker_step(worker: GaggleWorker, event: GaggleWorkerEvent) -> (
    GaggleWorker,
    Seq<GaggleWorkerAction>,
) {
    match (worker.phase, event) {
        (GaggleWorkerPhase::Connecting, GaggleWorkerEvent::Connected) => (
            GaggleWorker { phase: GaggleWorkerPhase::Registered, failures: 0, ..worker },
            seq![GaggleWorkerAction::SendHello { handshake: worker.handshake }],
        ),
        (GaggleWorkerPhase::Connecting, GaggleWorkerEvent::ConnectFailed) => if worker.failures
            < MANAGER_RETRIES {
            (
                GaggleWorker { failures: (worker.failures + 1) as u64, ..worker },
                seq![GaggleWorkerAction::Connect { delay: MANAGER_BACK_OFF_MILLIS }],
            )
        } else {
            (
                GaggleWorker { phase: GaggleWorkerPhase::Done, ..worker },
                seq![GaggleWorkerAction::Fail { error: GaggleError::ManagerUnreachable }],
            )
        },
        (GaggleWorkerPhase::Registered, GaggleWorkerEvent::Rejected) => (
            GaggleWorker { phase: GaggleWorkerPhase::Done, ..worker },
            seq![GaggleWorkerAction::Fail { error: GaggleError::HandshakeMismatch }],
        ),
        (GaggleWorkerPhase::Registered, GaggleWorkerEvent::Start { share }) => (
            GaggleWorker { phase: GaggleWorkerPhase::Running, ..worker },
            seq![GaggleWorkerAction::RunUsers { share }],
        ),
        (GaggleWorkerPhase::Registered, GaggleWorkerEvent::Stop) => (
            GaggleWorker { phase: GaggleWorkerPhase::Done, ..worker },
            seq![GaggleWorkerAction::SendBye],
        ),
        (GaggleWorkerPhase::Running, GaggleWorkerEvent::Second) => (
            worker,
            seq![GaggleWorkerAction::SendMetrics],
        ),
        (GaggleWorkerPhase::Running, GaggleWorkerEvent::Stop) => (
            GaggleWorker { phase: GaggleWorkerPhase::Done, ..worker },
            seq![GaggleWorkerAction::SendMetrics, GaggleWorkerAction::SendBye],
        ),
        _ => (worker, Seq::empty()),
    }
}

/// The worker after a run of events.
pub open spec fn worker_after(worker: GaggleWorker, events: Seq<GaggleWorkerEvent>) -> GaggleWorker
    decreases events.len(),
{
    if events.len() == 0 {
        worker
    } else {
        worker_step(worker_after(worker, events.drop_last()), events.last()).0
    }
}

/// What the worker asks for over a run of events, in order.
pub open spec fn worker_actions(worker: GaggleWorker, events: Seq<GaggleWorkerEvent>) -> Seq<
    GaggleWorkerAction,
>
    decreases events.len(),
{
    if events.len() == 0 {
        Seq::empty()
    } else {
        worker_actions(worker, events.drop_last()) + worker_step(
            worker_after(worker, events.drop_last()),
            events.last(),
        ).1
    }
}

/// A worker that the manager turned away gives up with the error of a
/// handshake that does not fit, and that is the last thing it does:
/// whatever happens afterwards, it runs no user, sends nothing and asks for
/// nothing.
pub proof fn lemma_rejected_worker_runs_nothing(
    worker: GaggleWorker,
    later: Seq<GaggleWorkerEvent>,
)
    requires
        worker.phase == GaggleWorkerPhase::Registered,
    ensures
        worker_step(worker, GaggleWorkerEvent::Rejected).1 == seq![
            GaggleWorkerAction::Fail { error: GaggleError::HandshakeMismatch },
        ],
        worker_after(worker_step(worker, GaggleWorkerEvent::Rejected).0, later).phase
            == GaggleWorkerPhase::Done,
        worker_actions(worker_step(worker, GaggleWorkerEvent::Rejected).0, later) == Seq::<
            GaggleWorkerAction,
        >::empty(),
    decreases later.len(),
{
    if later.len() > 0 {
        lemma_rejected_worker_runs_nothing(worker, later.drop_last());
    }
    assert(worker_actions(worker_step(worker, GaggleWorkerEvent::Rejected).0, later) =~= Seq::<
        GaggleWorkerAction,
    >::empty());
}

/// A worker runs users only once the manager has told it to start, and
/// then the share that the manager gave it: before that, whatever happens,
/// no step asks for users to be run.
pub proof fn lemma_users_run_on_start_only(
    worker: GaggleWorker,
    event: GaggleWorkerEvent,
    i: int,
    share: GaggleShare,
)
    requires
        0 <= i < worker_step(worker, event).1.len(),
        worker_step(worker, event).1[i] == (GaggleWorkerAction::RunUsers { share }),
    ensures
        worker.phase == GaggleWorkerPhase::Registered,
        event == (GaggleWorkerEvent::Start { share }),
{
}

impl GaggleWorker {
    /// A worker that is about to try to reach the manager for the first
    /// time.
    pub fn new(handshake: GaggleHandshake) -> (r: GaggleWorker)
        ensures
            r == (GaggleWorker { phase: GaggleWorkerPhase::Connecting, handshake, failures: 0 }),
    {
        GaggleWorker { phase: GaggleWorkerPhase::Connecting, handshake, failures: 0 }
    }

    /// One step of the worker: what it asks for after `event`. A worker
    /// that does not reach the manager waits and tries again, three times at
    /// most. Once it is in, it says what it runs and waits; turned away, it
    /// fails. Told to start, it runs its users and sends its metrics every
    /// second; told to stop, it sends what is left and says goodbye. An
    /// event that the phase has no use for changes nothing.
    pub fn step(&mut self, event: GaggleWorkerEvent) -> (r: Vec<GaggleWorkerAction>)
        ensures
            (*final(self), r@) == worker_step(*old(self), event),
    {
        let mut actions: Vec<GaggleWorkerAction> = Vec::new();
        match (self.phase, event) {
            (GaggleWorkerPhase::Connecting, GaggleWorkerEvent::Connected) => {
                self.phase = GaggleWorkerPhase::Registered;
                self.failures = 0;
                actions.push(GaggleWorkerAction::SendHello { handshake: self.handshake });
            },
            (GaggleWorkerPhase::Connecting, GaggleWorkerEvent::ConnectFailed) => {
                if self.failures < MANAGER_RETRIES {
                    self.failures = self.failures + 1;
                    actions.push(GaggleWorkerAction::Connect { delay: MANAGER_BACK_OFF_MILLIS });
                } else {
                    self.phase = GaggleWorkerPhase::Done;
                    actions.push(
                        GaggleWorkerAction::Fail { error: GaggleError::ManagerUnreachable },
                    );
                }
            },
            (GaggleWorkerPhase::Registered, GaggleWorkerEvent::Rejected) => {
                self.phase = GaggleWorkerPhase::Done;
                actions.push(GaggleWorkerAction::Fail { error: GaggleError::HandshakeMismatch });
            },
            (GaggleWorkerPhase::Registered, GaggleWorkerEvent::Start { share }) => {
                self.phase = GaggleWorkerPhase::Running;
                actions.push(GaggleWorkerAction::RunUsers { share });
            },
            (GaggleWorkerPhase::Registered, GaggleWorkerEvent::Stop) => {
                self.phase = GaggleWorkerPhase::Done;
                actions.push(GaggleWorkerAction::SendBye);
            },
            (GaggleWorkerPhase::Running, GaggleWorkerEvent::Second) => {
                actions.push(GaggleWorkerAction::SendMetrics);
            },
            (GaggleWorkerPhase::Running, GaggleWorkerEvent::Stop) => {
                self.phase = GaggleWorkerPhase::Done;
                actions.push(GaggleWorkerAction::SendMetrics);
                actions.push(GaggleWorkerAction::SendBye);
            },
            _ => {},
        }
        assert(actions@ =~= worker_step(*old(self), event).1);
        actions
    }
}

} // verus!
