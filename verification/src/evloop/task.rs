//! The life of a task that is spawned onto an event loop.

use crate::io::Async;
use vstd::prelude::*;

verus! {

/// The signal level of a task: 0 while the task is suspended, and more while it is queued, being
/// polled or done. Each notification adds one. Every method is one atomic step.
pub struct TaskSignal {
    level: usize,
}

/// Polls a task until it is suspended or done.
pub struct PollRun {
    seen: usize,
}

/// What is to be done with a task that was polled.
#[derive(Clone, Copy, PartialEq, Eq, Debug, Structural)]
pub enum PollDecision {
    /// Poll it again: a notification came meanwhile.
    Again,
    /// Leave it until it is notified.
    Suspended,
    /// It is done.
    Finished,
}

impl TaskSignal {
    /// The signal level.
    pub closed spec fn level(&self) -> usize {
        self.level
    }

    /// A task that is to be queued right away.
    pub fn new() -> (signal: TaskSignal)
        ensures
            signal.level() == 1,
    {
        TaskSignal { level: 1 }
    }

    /// Notifies the task, and says whether it is to be queued: only a suspended task is.
    pub fn notify(&mut self) -> (queue: bool)
        ensures
            queue == (old(self).level() == 0),
            final(self).level() == notified_level(old(self).level()),
    {
        let before: usize = self.level;
        self.level = before.wrapping_add(1);
        before == 0
    }

    /// Starts to poll the task.
    pub fn begin(&self) -> (run: PollRun)
        ensures
            run.seen() == self.level(),
    {
        PollRun { seen: self.level }
    }
}

/// The signal level after a notification.
pub open spec fn notified_level(level: usize) -> usize {
    if level == usize::MAX {
        0
    } else {
        (level + 1) as usize
    }
}

/// What is to be done with a task that was polled: one that is not done is suspended if no
/// notification came since the level was last looked at.
pub open spec fn poll_decision(level: usize, seen: usize, outcome: Async<()>) -> PollDecision {
    match outcome {
        Async::Ready(_) => PollDecision::Finished,
        Async::NotReady => if level == seen {
            PollDecision::Suspended
        } else {
            PollDecision::Again
        },
    }
}

impl PollRun {
    /// The signal level that was looked at last.
    pub closed spec fn seen(&self) -> usize {
        self.seen
    }

    /// Decides what is to be done with a task that was polled. A task that is suspended goes to
    /// level 0; one that is polled again has its new level looked at.
    pub fn polled(&mut self, signal: &mut TaskSignal, outcome: Async<()>) -> (decision: PollDecision)
        ensures
            decision == poll_decision(old(signal).level(), old(self).seen(), outcome),
            final(signal).level() == (if decision is Suspended {
                0
            } else {
                old(signal).level()
            }),
            final(self).seen() == (if decision is Again {
                old(signal).level()
            } else {
                old(self).seen()
            }),
    {
        match outcome {
            Async::Ready(_) => PollDecision::Finished,
            Async::NotReady => {
                if signal.level == self.seen {
                    signal.level = 0;
                    PollDecision::Suspended
                } else {
                    self.seen = signal.level;
                    PollDecision::Again
                }
            },
        }
    }
}

/// Who has a task.
pub enum Owner {
    /// It is in the queue of a worker, or on its way there.
    Queued,
    /// A worker polls it, and last looked at this level.
    Running(usize),
    /// Nobody: it waits for a notification.
    Suspended,
    /// Nobody: it is done.
    Finished,
}

/// A task as seen by all threads.
pub struct TaskState {
    pub level: usize,
    pub owner: Owner,
}

/// What can happen to a task.
pub enum TaskOp {
    /// It is notified, by whatever thread.
    Notify,
    /// A worker takes it from its queue and starts to poll it.
    Begin,
    /// The worker that polls it has a result.
    Polled(Async<()>),
}

impl TaskState {
    /// A task that was just spawned.
    pub open spec fn spawned() -> TaskState {
        TaskState { level: 1, owner: Owner::Queued }
    }

    /// The level is 0 exactly while the task is suspended, and does not fall while it is polled.
    pub open spec fn inv(self) -> bool {
        &&& self.level == 0 <==> self.owner is Suspended
        &&& self.owner matches Owner::Running(seen) ==> 0 < seen <= self.level
    }

    /// Whether this can happen next: a worker begins with tasks from its queue, and only what is
    /// polled has a result.
    pub open spec fn allows(self, op: TaskOp) -> bool {
        match op {
            TaskOp::Notify => true,
            TaskOp::Begin => self.owner is Queued,
            TaskOp::Polled(_) => self.owner is Running,
        }
    }

    /// The task after a step: what the methods of `TaskSignal` and `PollRun` do to its level, and
    /// what their callers do with it as they are told.
    pub open spec fn after(self, op: TaskOp) -> TaskState {
        match op {
            TaskOp::Notify => TaskState {
                level: notified_level(self.level),
                owner: if self.level == 0 {
                    Owner::Queued
                } else {
                    self.owner
                },
            },
            TaskOp::Begin => TaskState { owner: Owner::Running(self.level), ..self },
            TaskOp::Polled(outcome) => match poll_decision(
                self.level,
                self.owner->Running_0,
                outcome,
            ) {
                PollDecision::Again => TaskState { owner: Owner::Running(self.level), ..self },
                PollDecision::Suspended => TaskState { level: 0, owner: Owner::Suspended },
                PollDecision::Finished => TaskState { owner: Owner::Finished, ..self },
            },
        }
    }
}

/// The task after a number of steps.
pub open spec fn task_after(state: TaskState, ops: Seq<TaskOp>) -> TaskState
    decreases ops.len(),
{
    if ops.len() == 0 {
        state
    } else {
        task_after(state, ops.drop_last()).after(ops.last())
    }
}

/// Whether each of these steps can happen when it comes, and none makes the level overflow.
pub open spec fn possible(state: TaskState, ops: Seq<TaskOp>) -> bool
    decreases ops.len(),
{
    ops.len() > 0 ==> {
        let before = task_after(state, ops.drop_last());
        &&& possible(state, ops.drop_last())
        &&& before.allows(ops.last())
        &&& ops.last() is Notify ==> before.level < usize::MAX
    }
}

/// Whatever happens to a task, in whatever order the threads come, its level is 0 exactly while it
/// is suspended.
pub proof fn law_level_tells_suspended(ops: Seq<TaskOp>)
    requires
        possible(TaskState::spawned(), ops),
    ensures
        task_after(TaskState::spawned(), ops).inv(),
    decreases ops.len(),
{
    if ops.len() > 0 {
        law_level_tells_suspended(ops.drop_last());
    }
}

/// A notification queues a task only when nobody has it. So a task is in one queue at most, no two
/// workers poll it at one time, and a task that is done is not queued again.
pub proof fn law_notification_queues_only_suspended(ops: Seq<TaskOp>)
    requires
        possible(TaskState::spawned(), ops),
    ensures
        ({
            let state = task_after(TaskState::spawned(), ops);
            &&& state.level == 0 <==> state.owner is Suspended
            &&& state.owner is Suspended && state.level < usize::MAX ==> state.after(
                TaskOp::Notify,
            ).owner is Queued
            &&& state.owner !is Suspended ==> state.after(TaskOp::Notify).owner == state.owner
        }),
{
    law_level_tells_suspended(ops);
}

/// No notification is lost: a task that is notified while a worker polls it, once or more, is not
/// suspended when the poll leaves it unfinished, but polled again.
pub proof fn law_notified_task_is_polled_again(
    ops: Seq<TaskOp>,
    notifications: Seq<TaskOp>,
)
    requires
        possible(TaskState::spawned(), ops),
        task_after(TaskState::spawned(), ops).owner is Running,
        notifications.len() > 0,
        forall|i: int| 0 <= i < notifications.len() ==> #[trigger] notifications[i] is Notify,
        possible(TaskState::spawned(), ops + notifications),
    ensures
        task_after(TaskState::spawned(), ops + notifications).owner is Running,
        task_after(TaskState::spawned(), ops + notifications).after(
            TaskOp::Polled(Async::NotReady),
        ).owner is Running,
    decreases notifications.len(),
{
    law_level_tells_suspended(ops);
    let all = ops + notifications;
    let fewer = notifications.drop_last();
    assert(all.drop_last() =~= ops + fewer);
    assert(all.last() is Notify);
    if fewer.len() > 0 {
        assert forall|i: int| 0 <= i < fewer.len() implies #[trigger] fewer[i] is Notify by {
            assert(notifications[i] is Notify);
        }
        law_notified_task_is_polled_again(ops, fewer);
    } else {
        assert(ops + fewer =~= ops);
    }
    law_level_tells_suspended(all.drop_last());
    law_level_tells_suspended(all);
}

/// A task that is suspended comes back into a queue with the next notification.
pub proof fn law_suspended_task_is_queued_by_notification(ops: Seq<TaskOp>)
    requires
        possible(TaskState::spawned(), ops),
        task_after(TaskState::spawned(), ops).owner is Suspended,
    ensures
        task_after(TaskState::spawned(), ops.push(TaskOp::Notify)).owner is Queued,
{
    law_level_tells_suspended(ops);
    assert(ops.push(TaskOp::Notify).drop_last() =~= ops);
}

/// A poll that comes back ready finishes the task, whatever its level is and whatever level was
/// last looked at, and leaves its signal as it is.
pub proof fn law_ready_task_is_finished(
    run: &mut PollRun,
    signal: &mut TaskSignal,
    outcome: Async<()>,
    decision: PollDecision,
)
    requires
        outcome is Ready,
        call_ensures(PollRun::polled, (run, signal, outcome), decision),
    ensures
        decision is Finished,
        final(signal).level() == old(signal).level(),
{
}

/// A poll that comes back not ready suspends the task exactly when its level is the one that was
/// last looked at. Then the next notification queues it; otherwise it is polled once more, and is
/// suspended after that if its level stays.
pub proof fn law_unready_task_is_suspended_or_polled_again(
    run: &mut PollRun,
    signal: &mut TaskSignal,
    outcome: Async<()>,
    decision: PollDecision,
    notified: &mut TaskSignal,
    queue: bool,
    later: &mut PollRun,
    unchanged: &mut TaskSignal,
    next: PollDecision,
)
    requires
        outcome is NotReady,
        call_ensures(PollRun::polled, (run, signal, outcome), decision),
        *old(notified) == *final(signal),
        call_ensures(TaskSignal::notify, (notified,), queue),
        *old(later) == *final(run),
        *old(unchanged) == *final(signal),
        call_ensures(PollRun::polled, (later, unchanged, outcome), next),
    ensures
        decision is Suspended <==> old(signal).level() == old(run).seen(),
        decision is Again <==> old(signal).level() != old(run).seen(),
        decision is Suspended ==> final(signal).level() == 0 && queue,
        decision is Again ==> final(signal).level() == old(signal).level() && next is Suspended,
{
}

/// Each notification raises the level by one, and only one that finds it at 0 queues the task. A
/// run begins with the level as it is, so that a poll which nobody notified the task of meanwhile
/// suspends it, and one that somebody did does not.
pub proof fn law_notification_during_poll_is_seen(
    signal: TaskSignal,
    run: &mut PollRun,
    notified: &mut TaskSignal,
    queue: bool,
    after: &mut TaskSignal,
    outcome: Async<()>,
    decision: PollDecision,
)
    requires
        signal.level() < usize::MAX,
        call_ensures(TaskSignal::begin, (&signal,), *old(run)),
        *old(notified) == signal,
        call_ensures(TaskSignal::notify, (notified,), queue),
        *old(after) == signal || *old(after) == *final(notified),
        outcome is NotReady,
        call_ensures(PollRun::polled, (run, after, outcome), decision),
    ensures
        queue <==> signal.level() == 0,
        final(notified).level() == signal.level() + 1,
        *old(after) == signal ==> decision is Suspended,
        *old(after) == *final(notified) ==> decision is Again,
{
}

/// A task that is spawned is to be queued right away: until it was polled, no notification queues
/// it once more.
pub proof fn law_spawned_task_is_not_queued_twice(
    signal: TaskSignal,
    notified: &mut TaskSignal,
    queue: bool,
)
    requires
        call_ensures(TaskSignal::new, (), signal),
        *old(notified) == signal,
        call_ensures(TaskSignal::notify, (notified,), queue),
    ensures
        !queue,
        signal.level() == TaskState::spawned().level,
{
}

/// A task as seen by all threads goes along with its signal: what a notification, the beginning of
/// a run and the end of a poll return and leave is what makes the next state of the task.
pub proof fn law_task_follows_its_signal(
    state: TaskState,
    notified: &mut TaskSignal,
    queue: bool,
    begun: TaskSignal,
    started: PollRun,
    run: &mut PollRun,
    polled: &mut TaskSignal,
    outcome: Async<()>,
    decision: PollDecision,
)
    requires
        old(notified).level() == state.level,
        call_ensures(TaskSignal::notify, (notified,), queue),
        begun.level() == state.level,
        call_ensures(TaskSignal::begin, (&begun,), started),
        state.owner matches Owner::Running(seen) ==> old(run).seen() == seen,
        old(polled).level() == state.level,
        call_ensures(PollRun::polled, (run, polled, outcome), decision),
    ensures
        state.after(TaskOp::Notify).level == final(notified).level(),
        state.after(TaskOp::Notify).owner == if queue {
            Owner::Queued
        } else {
            state.owner
        },
        state.after(TaskOp::Begin).owner == Owner::Running(started.seen()),
        state.after(TaskOp::Begin).level == state.level,
        state.owner is Running ==> {
            let after = state.after(TaskOp::Polled(outcome));
            &&& after.level == final(polled).level()
            &&& match decision {
                PollDecision::Again => after.owner == Owner::Running(final(run).seen()),
                PollDecision::Suspended => after.owner is Suspended,
                PollDecision::Finished => after.owner is Finished,
            }
        },
{
}

/// A task whose poll came back ready is done for good: whatever happens afterwards, nobody has it,
/// and nobody polls it again.
pub proof fn law_finished_task_is_left_alone(
    ops: Seq<TaskOp>,
    ready: Async<()>,
    later: Seq<TaskOp>,
)
    requires
        ready is Ready,
        possible(TaskState::spawned(), ops.push(TaskOp::Polled(ready)) + later),
    ensures
        task_after(
            TaskState::spawned(),
            ops.push(TaskOp::Polled(ready)) + later,
        ).owner is Finished,
        forall|i: int| 0 <= i < later.len() ==> #[trigger] later[i] is Notify,
    decreases later.len(),
{
    let done = ops.push(TaskOp::Polled(ready));
    let all = done + later;
    if later.len() == 0 {
        assert(all =~= done);
        assert(done.drop_last() =~= ops);
    } else {
        let fewer = later.drop_last();
        assert(all.drop_last() =~= done + fewer);
        law_finished_task_is_left_alone(ops, ready, fewer);
        law_level_tells_suspended(done + fewer);
        assert forall|i: int| 0 <= i < later.len() implies #[trigger] later[i] is Notify by {
            if i < fewer.len() {
                assert(fewer[i] is Notify);
            } else {
                assert(later[i] == all.last());
            }
        }
    }
}

/// The level starts over after the greatest number.
pub proof fn law_level_starts_over(signal: &mut TaskSignal, queue: bool)
    requires
        old(signal).level() == usize::MAX,
        call_ensures(TaskSignal::notify, (signal,), queue),
    ensures
        !queue,
        final(signal).level() == 0,
{
}

} // verus!
