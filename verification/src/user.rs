//! A simulated user as a machine: it runs the tasks that are marked for the
//! start once, then task after task as its task set's scheduler says until it
//! is told to stop, then the tasks that are marked for the stop once, and
//! then it goes. The program around it runs the tasks.

use vstd::prelude::*;

use crate::cadence::{GooseCadence, GooseCoordinatedOmissionMitigation};
use crate::error::{GooseError, GooseErrorView};
use crate::goose::{GooseScheduler, GooseTaskSet};
use crate::scheduler::GooseTaskSequencer;
use crate::selector::{all_positive, owner_of, selector_error_view, total_weight, SelectorError};

verus! {

/// Where a user stands.
#[derive(Debug, Clone, Copy, PartialEq, Eq, Structural)]
pub enum GooseUserPhase {
    /// The user runs the tasks that are marked for the start.
    Starting,
    /// The user runs task after task.
    Running,
    /// The user runs the tasks that are marked for the stop.
    Stopping,
    /// The user has gone.
    Gone,
}

/// What a user does next.
#[derive(Debug, Clone, Copy, PartialEq, Eq, Structural)]
pub enum GooseUserAction {
    /// Run the task at this index of the task set.
    RunTask { task: usize },
    /// Give up the session and go.
    Exit,
}

/// One simulated user.
#[derive(Debug)]
pub struct GooseUser {
    /// The number of the user: users are numbered from zero without gaps.
    pub id: usize,
    /// The index of the task set that the user runs.
    pub task_set: usize,
    /// Where the user stands.
    pub phase: GooseUserPhase,
    /// The tasks to run once at the start, by their index in the task set.
    pub on_start: Vec<usize>,
    /// The tasks to run once at the stop, by their index in the task set.
    pub on_stop: Vec<usize>,
    /// The other tasks, by their index in the task set.
    pub tasks: Vec<usize>,
    /// What picks the next of the other tasks.
    pub sequencer: GooseTaskSequencer,
    /// How many of the tasks of the start, or of the stop, have run.
    pub done: usize,
    /// The cadence of the user's requests.
    pub cadence: GooseCadence,
}

/// The indices below `n` of the tasks that are marked for the start.
pub open spec fn start_tasks<F>(tasks: Seq<crate::goose::GooseTask<F>>, n: int) -> Seq<usize>
    decreases n,
{
    if n <= 0 {
        Seq::empty()
    } else {
        start_tasks(tasks, n - 1) + if tasks[n - 1].on_start {
            seq![(n - 1) as usize]
        } else {
            Seq::empty()
        }
    }
}

/// The indices below `n` of the tasks that are marked for the stop and not
/// for the start.
pub open spec fn stop_tasks<F>(tasks: Seq<crate::goose::GooseTask<F>>, n: int) -> Seq<usize>
    decreases n,
{
    if n <= 0 {
        Seq::empty()
    } else {
        stop_tasks(tasks, n - 1) + if !tasks[n - 1].on_start && tasks[n - 1].on_stop {
            seq![(n - 1) as usize]
        } else {
            Seq::empty()
        }
    }
}

/// The indices below `n` of the tasks that are marked for neither.
pub open spec fn other_tasks<F>(tasks: Seq<crate::goose::GooseTask<F>>, n: int) -> Seq<usize>
    decreases n,
{
    if n <= 0 {
        Seq::empty()
    } else {
        other_tasks(tasks, n - 1) + if !tasks[n - 1].on_start && !tasks[n - 1].on_stop {
            seq![(n - 1) as usize]
        } else {
            Seq::empty()
        }
    }
}

/// The weights of the tasks below `n` that are marked for neither.
pub open spec fn other_weights<F>(tasks: Seq<crate::goose::GooseTask<F>>, n: int) -> Seq<usize>
    decreases n,
{
    if n <= 0 {
        Seq::empty()
    } else {
        other_weights(tasks, n - 1) + if !tasks[n - 1].on_start && !tasks[n - 1].on_stop {
            seq![tasks[n - 1].weight]
        } else {
            Seq::empty()
        }
    }
}

impl GooseUser {
    /// The user can go on: its sequencer can pick, there is a task for each
    /// weight, and no more tasks of the start or the stop are done than
    /// there are.
    pub open spec fn well_formed(&self) -> bool {
        &&& self.sequencer.well_formed()
        &&& self.tasks@.len() == self.sequencer.weights@.len()
        &&& self.phase == GooseUserPhase::Starting ==> self.done <= self.on_start@.len()
        &&& self.phase == GooseUserPhase::Stopping ==> self.done <= self.on_stop@.len()
    }

    /// A user that was just hatched, for a task set. The tasks of the set
    /// are told apart by their marks; those without a mark are run by
    /// weight. There is a user exactly where the set has such a task, each
    /// such task has a weight of at least one, and their weights can be
    /// added up. A task set without such a task has nothing to run; a weight
    /// of zero is an invalid option, and so are weights too large to add up.
    pub fn new<F>(
        id: usize,
        task_set_index: usize,
        task_set: &GooseTaskSet<F>,
        co_mitigation: GooseCoordinatedOmissionMitigation,
        minimum_cadence: u64,
    ) -> (r: Result<GooseUser, GooseError>)
        ensures
            match r {
                Ok(user) => {
                    &&& other_tasks(task_set.tasks@, task_set.tasks@.len() as int).len() > 0
                    &&& all_positive(other_weights(task_set.tasks@, task_set.tasks@.len() as int))
                    &&& total_weight(other_weights(task_set.tasks@, task_set.tasks@.len() as int))
                        <= usize::MAX
                    &&& user.well_formed()
                    &&& user.id == id
                    &&& user.task_set == task_set_index
                    &&& user.phase == GooseUserPhase::Starting
                    &&& user.done == 0
                    &&& user.on_start@ == start_tasks(task_set.tasks@, task_set.tasks@.len() as int)
                    &&& user.on_stop@ == stop_tasks(task_set.tasks@, task_set.tasks@.len() as int)
                    &&& user.tasks@ == other_tasks(task_set.tasks@, task_set.tasks@.len() as int)
                    &&& user.sequencer.weights@ == other_weights(
                        task_set.tasks@,
                        task_set.tasks@.len() as int,
                    )
                    &&& user.sequencer.scheduler == task_set.scheduler
                    &&& user.sequencer.position == 0
                    &&& user.cadence == (GooseCadence {
                        mode: co_mitigation,
                        minimum_cadence,
                        cadence: 0,
                        last_request: None,
                    })
                },
                Err(e) => if other_tasks(task_set.tasks@, task_set.tasks@.len() as int).len()
                    == 0 {
                    e@ == GooseErrorView::NoTasks
                } else if !all_positive(
                    other_weights(task_set.tasks@, task_set.tasks@.len() as int),
                ) {
                    e@ == selector_error_view(SelectorError::ZeroWeight)
                } else {
                    total_weight(other_weights(task_set.tasks@, task_set.tasks@.len() as int))
                        > usize::MAX && e@ == selector_error_view(SelectorError::TooHeavy)
                },
            },
    {
        let mut on_start: Vec<usize> = Vec::new();
        let mut on_stop: Vec<usize> = Vec::new();
        let mut tasks: Vec<usize> = Vec::new();
        let mut weights: Vec<usize> = Vec::new();
        let mut i: usize = 0;
        while i < task_set.tasks.len()
            invariant
                i <= task_set.tasks.len(),
                on_start@ == start_tasks(task_set.tasks@, i as int),
                on_stop@ == stop_tasks(task_set.tasks@, i as int),
                tasks@ == other_tasks(task_set.tasks@, i as int),
                weights@ == other_weights(task_set.tasks@, i as int),
                tasks@.len() == weights@.len(),
            decreases task_set.tasks.len() - i,
        {
            let task = &task_set.tasks[i];
            if task.on_start {
                on_start.push(i);
            } else if task.on_stop {
                on_stop.push(i);
            } else {
                tasks.push(i);
                weights.push(task.weight);
            }
            assert(on_start@ =~= start_tasks(task_set.tasks@, i + 1));
            assert(on_stop@ =~= stop_tasks(task_set.tasks@, i + 1));
            assert(tasks@ =~= other_tasks(task_set.tasks@, i + 1));
            assert(weights@ =~= other_weights(task_set.tasks@, i + 1));
            i += 1;
        }
        if tasks.len() == 0 {
            return Err(GooseError::NoTasks);
        }
        match GooseTaskSequencer::new(task_set.scheduler, weights) {
            Ok(sequencer) => Ok(
                GooseUser {
                    id,
                    task_set: task_set_index,
                    phase: GooseUserPhase::Starting,
                    on_start,
                    on_stop,
                    tasks,
                    sequencer,
                    done: 0,
                    cadence: GooseCadence::new(co_mitigation, minimum_cadence),
                },
            ),
            Err(e) => Err(e.to_error()),
        }
    }

    /// What the user does next. `stop` says whether the load test is over or
    /// the user was told to stop; `random` is a number drawn at random, which
    /// is looked at only where the scheduler picks at random.
    ///
    /// At the start the user runs each task that is marked for it, once and
    /// in the order of registration, whatever `stop` says. Then it picks task
    /// after task until `stop` holds. Then it runs each task that is marked
    /// for the stop, once and in order, and goes. A user that has gone stays
    /// gone.
    pub fn next_action(&mut self, stop: bool, random: usize) -> (r: GooseUserAction)
        requires
            old(self).well_formed(),
        ensures
            final(self).well_formed(),
            final(self).id == old(self).id,
            final(self).task_set == old(self).task_set,
            final(self).on_start == old(self).on_start,
            final(self).on_stop == old(self).on_stop,
            final(self).tasks == old(self).tasks,
            final(self).cadence == old(self).cadence,
            final(self).sequencer.weights == old(self).sequencer.weights,
            final(self).sequencer.order == old(self).sequencer.order,
            final(self).sequencer.scheduler == old(self).sequencer.scheduler,
            r == GooseUserAction::Exit <==> final(self).phase == GooseUserPhase::Gone,
            // A task of the start is left: it runs.
            old(self).starts_left() ==> {
                &&& r == GooseUserAction::RunTask {
                    task: old(self).on_start@[old(self).done as int],
                }
                &&& final(self).phase == GooseUserPhase::Starting
                &&& final(self).done == old(self).done + 1
                &&& final(self).sequencer == old(self).sequencer
            },
            // The user is to go on: the next task runs.
            old(self).picks(stop) ==> {
                &&& final(self).phase == GooseUserPhase::Running
                &&& r matches GooseUserAction::RunTask { task }
                &&& old(self).picked(random, task, final(self).sequencer.position)
            },
            // A task of the stop is left: it runs.
            old(self).stops_left(stop) ==> {
                &&& r == GooseUserAction::RunTask {
                    task: old(self).on_stop@[old(self).stops_done(stop) as int],
                }
                &&& final(self).phase == GooseUserPhase::Stopping
                &&& final(self).done == old(self).stops_done(stop) + 1
                &&& final(self).sequencer == old(self).sequencer
            },
            // Nothing is left: the user goes.
            !old(self).starts_left() && !old(self).picks(stop) && !old(self).stops_left(stop)
                ==> r == GooseUserAction::Exit && final(self).sequencer == old(self).sequencer,
    {
        if self.phase == GooseUserPhase::Starting {
            if self.done < self.on_start.len() {
                let task = self.on_start[self.done];
                self.done = self.done + 1;
                return GooseUserAction::RunTask { task };
            }
            self.phase = GooseUserPhase::Running;
            self.done = 0;
        }
        if self.phase == GooseUserPhase::Running {
            if !stop {
                let pick = self.sequencer.next(random);
                return GooseUserAction::RunTask { task: self.tasks[pick] };
            }
            self.phase = GooseUserPhase::Stopping;
            self.done = 0;
        }
        if self.phase == GooseUserPhase::Stopping {
            if self.done < self.on_stop.len() {
                let task = self.on_stop[self.done];
                self.done = self.done + 1;
                return GooseUserAction::RunTask { task };
            }
            self.phase = GooseUserPhase::Gone;
        }
        GooseUserAction::Exit
    }

    /// A task of the start is still to run.
    pub open spec fn starts_left(&self) -> bool {
        self.phase == GooseUserPhase::Starting && self.done < self.on_start@.len()
    }

    /// The user is past the start and not yet stopping.
    pub open spec fn past_start(&self) -> bool {
        ||| self.phase == GooseUserPhase::Starting && self.done >= self.on_start@.len()
        ||| self.phase == GooseUserPhase::Running
    }

    /// The user picks its next task: it is past the start and was not told
    /// to stop.
    pub open spec fn picks(&self, stop: bool) -> bool {
        self.past_start() && !stop
    }

    /// How many tasks of the stop have run.
    pub open spec fn stops_done(&self, stop: bool) -> usize {
        if self.phase == GooseUserPhase::Stopping {
            self.done
        } else {
            0
        }
    }

    /// A task of the stop is still to run: the user was told to stop, or is
    /// stopping already.
    pub open spec fn stops_left(&self, stop: bool) -> bool {
        &&& self.past_start() && stop || self.phase == GooseUserPhase::Stopping
        &&& self.stops_done(stop) < self.on_stop@.len()
    }

    /// `task` is what the sequencer picks, and `position` where the
    /// sequencer stands after it.
    pub open spec fn picked(&self, random: usize, task: usize, position: usize) -> bool {
        let sequencer = self.sequencer;
        if sequencer.scheduler == GooseScheduler::Random {
            exists|pick: int|
                0 <= pick < self.tasks@.len() && task == self.tasks@[pick] && owner_of(
                    sequencer.weights@,
                    random as int % total_weight(sequencer.weights@),
                    pick,
                ) && position == sequencer.position
        } else {
            task == self.tasks@[sequencer.order@[sequencer.position as int] as int] && position == (
            sequencer.position + 1) % (sequencer.order@.len() as int)
        }
    }
}

} // verus!
