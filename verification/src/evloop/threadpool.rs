//! An event loop of several worker threads around one event queue.
//!
//! Tasks are numbers here: a worker's caller knows what they stand for. No task is number 0.

use crate::io::Error;
use crate::queue::Timeout;
use coco::deque::Worker;
use std::collections::VecDeque;
use vstd::prelude::*;

verus! {

#[verifier::external_type_specification]
#[verifier::external_body]
#[verifier::reject_recursive_types(T)]
pub struct ExWorker<T>(coco::deque::Worker<T>);

/// The items of a work-stealing deque, the one that is stolen next at the front.
pub uninterp spec fn deque_items(deque: Worker<usize>) -> Seq<usize>;

/// What taking the oldest item of a deque brought.
#[derive(Clone, Copy, PartialEq, Eq, Debug, Structural)]
pub enum Steal {
    /// There was none.
    Empty,
    /// The item.
    Data(usize),
    /// Another thread got in the way; there may be more.
    Inconsistent,
}

/// `coco::deque::new`: a deque without items. The other half that it returns, through which other
/// threads could take items, is dropped, so that nothing but the deque itself changes its items.
#[verifier::external_body]
fn deque_new() -> (deque: Worker<usize>)
    ensures
        deque_items(deque) == Seq::<usize>::empty(),
{
    coco::deque::new().0
}

/// `coco::deque::Worker::push`: adds an item at the end that is stolen last.
#[verifier::external_body]
fn deque_push(deque: &mut Worker<usize>, item: usize)
    ensures
        deque_items(*final(deque)) == deque_items(*old(deque)).push(item),
{
    deque.push(item)
}

/// `coco::deque::Worker::steal_weak`: takes the item that was pushed first. It says that another
/// thread got in its way only where another thread takes items, which none can: the deque is
/// borrowed for this call alone, and `deque_new` keeps no other half.
#[verifier::external_body]
fn deque_steal_weak(deque: &mut Worker<usize>) -> (steal: Steal)
    ensures
        match steal {
            Steal::Empty => {
                &&& deque_items(*old(deque)).len() == 0
                &&& deque_items(*final(deque)) == deque_items(*old(deque))
            },
            Steal::Data(item) => {
                &&& deque_items(*old(deque)).len() > 0
                &&& item == deque_items(*old(deque))[0]
                &&& deque_items(*final(deque)) == deque_items(*old(deque)).skip(1)
            },
            Steal::Inconsistent => false,
        },
{
    match deque.steal_weak() {
        coco::deque::Steal::Empty => Steal::Empty,
        coco::deque::Steal::Data(item) => Steal::Data(item),
        coco::deque::Steal::Inconsistent => Steal::Inconsistent,
    }
}

/// `num_cpus::get`: how many CPUs there are, which is at least one. The number is the machine's, so
/// nothing more is said of it.
#[verifier::external_body]
fn cpu_count() -> (count: usize)
    ensures
        count >= 1,
{
    num_cpus::get()
}

/// Where a worker is in its loop.
#[derive(Clone, Copy, PartialEq, Eq, Debug, Structural)]
pub enum WorkerPhase {
    /// At the start of an iteration.
    Top,
    /// Running the tasks that only this worker may run.
    Local,
    /// Running the tasks that any worker may run.
    Global,
}

/// What a worker does next.
#[derive(Clone, Copy, PartialEq, Eq, Debug)]
pub enum WorkerStep {
    /// Poll a task that only this worker may run.
    RunLocal(usize),
    /// Poll a task that any worker may run.
    RunGlobal(usize),
    /// Turn the event queue, waiting for at most this long.
    Turn(Option<Timeout>),
    /// Leave the pool.
    Exit,
}

/// A worker, as it sees itself.
pub struct WorkerSelf {
    work_queue: Worker<usize>,
    local_work_queue: VecDeque<usize>,
    phase: WorkerPhase,
}

/// What a `WorkerSelf` stands for.
pub struct WorkerView {
    /// The tasks that any worker may run, oldest first.
    pub global: Seq<usize>,
    /// The tasks that only this worker may run, next one first.
    pub local: Seq<usize>,
    pub phase: WorkerPhase,
}

impl View for WorkerSelf {
    type V = WorkerView;

    closed spec fn view(&self) -> WorkerView {
        WorkerView {
            global: deque_items(self.work_queue),
            local: self.local_work_queue@,
            phase: self.phase,
        }
    }
}

/// Not waiting at all.
pub open spec fn no_wait() -> Timeout {
    Timeout { secs: 0, nanos: 0 }
}

/// What a worker does about the outcome of taking a global task: without one it waits for events,
/// and where another thread got in its way it only looks whether there are any.
pub open spec fn steal_step(steal: Steal) -> WorkerStep {
    match steal {
        Steal::Data(task) => WorkerStep::RunGlobal(task),
        Steal::Empty => WorkerStep::Turn(None),
        Steal::Inconsistent => WorkerStep::Turn(Some(no_wait())),
    }
}

impl WorkerView {
    /// The worker leaves the pool: it looks whether the pool is active at the start of an
    /// iteration only.
    pub open spec fn exits(self, active: bool) -> bool {
        self.phase is Top && !active
    }

    /// The worker has local tasks to run: they come before all else, because nobody can take them
    /// over.
    pub open spec fn runs_local(self) -> bool {
        self.phase !is Global && self.local.len() > 0
    }

    /// What the worker does next, and how it is left. After the local tasks the oldest global one
    /// is run, and without any the worker waits for events.
    pub open spec fn leads_to(self, active: bool, step: WorkerStep, after: WorkerView) -> bool {
        if self.exits(active) {
            &&& step is Exit
            &&& after == self
        } else if self.runs_local() {
            &&& step == WorkerStep::RunLocal(self.local[0])
            &&& after == (WorkerView {
                local: self.local.skip(1),
                phase: WorkerPhase::Local,
                ..self
            })
        } else if self.global.len() == 0 {
            &&& step == steal_step(Steal::Empty)
            &&& after == (WorkerView { phase: WorkerPhase::Top, ..self })
        } else {
            &&& step == steal_step(Steal::Data(self.global[0]))
            &&& after == (WorkerView {
                global: self.global.skip(1),
                phase: WorkerPhase::Global,
                ..self
            })
        }
    }
}

impl WorkerSelf {
    /// A worker without tasks.
    pub fn new() -> (worker: WorkerSelf)
        ensures
            worker@ == (WorkerView {
                global: Seq::<usize>::empty(),
                local: Seq::<usize>::empty(),
                phase: WorkerPhase::Top,
            }),
    {
        WorkerSelf {
            work_queue: deque_new(),
            local_work_queue: VecDeque::new(),
            phase: WorkerPhase::Top,
        }
    }

    /// Takes the next step of the worker's loop: local tasks first, then global ones, and when
    /// there are no more, a turn of the event queue.
    pub fn next(&mut self, active: bool) -> (step: WorkerStep)
        ensures
            old(self)@.leads_to(active, step, final(self)@),
    {
        if self.phase == WorkerPhase::Top && !active {
            return WorkerStep::Exit;
        }
        if self.phase != WorkerPhase::Global {
            if let Some(task) = self.local_work_queue.pop_front() {
                self.phase = WorkerPhase::Local;
                assert(self@.local =~= old(self)@.local.skip(1));
                return WorkerStep::RunLocal(task);
            }
        }
        let steal = deque_steal_weak(&mut self.work_queue);
        self.stolen(steal)
    }

    /// Goes on with what taking a global task brought.
    pub fn stolen(&mut self, steal: Steal) -> (step: WorkerStep)
        ensures
            step == steal_step(steal),
            final(self)@ == (WorkerView {
                phase: if steal is Data {
                    WorkerPhase::Global
                } else {
                    WorkerPhase::Top
                },
                ..old(self)@
            }),
    {
        match steal {
            Steal::Data(task) => {
                self.phase = WorkerPhase::Global;
                WorkerStep::RunGlobal(task)
            },
            Steal::Empty => {
                self.phase = WorkerPhase::Top;
                WorkerStep::Turn(None)
            },
            Steal::Inconsistent => {
                self.phase = WorkerPhase::Top;
                WorkerStep::Turn(Some(Timeout { secs: 0, nanos: 0 }))
            },
        }
    }

    /// Queues a task that any worker may run, behind those that are queued.
    pub fn push(&mut self, task: usize)
        ensures
            final(self)@ == (WorkerView { global: old(self)@.global.push(task), ..old(self)@ }),
    {
        deque_push(&mut self.work_queue, task);
    }

    /// Queues a task that only this worker may run, before those that are queued.
    pub fn spawn_local(&mut self, task: usize)
        ensures
            final(self)@ == (WorkerView { local: seq![task] + old(self)@.local, ..old(self)@ }),
    {
        self.local_work_queue.push_front(task);
    }

    /// Takes a task that was sent from outside of the pool. Number 0 only wakes the worker.
    pub fn handle_remote_spawn(&mut self, data: usize)
        ensures
            final(self)@ == (if data == 0 {
                old(self)@
            } else {
                WorkerView { global: old(self)@.global.push(data), ..old(self)@ }
            }),
    {
        if data != 0 {
            self.push(data);
        }
    }
}

/// A worker of some pool, as the thread that runs it knows it.
#[derive(Clone, Copy, PartialEq, Eq, Debug, Structural)]
pub struct CurrentWorker {
    /// The pool.
    pub pool: usize,
    /// The worker.
    pub worker: usize,
}

/// Names a pool.
#[derive(Clone, Copy, PartialEq, Eq, Debug, Structural)]
pub struct Handle {
    pub pool: usize,
}

/// Names a worker of a pool, on the thread of that worker.
#[derive(Clone, Copy, PartialEq, Eq, Debug, Structural)]
pub struct LocalHandle {
    pub global: Handle,
    pub worker: usize,
}

/// Where a task goes that was notified.
#[derive(Clone, Copy, PartialEq, Eq, Debug, Structural)]
pub enum QueueStep {
    /// Nowhere: it is queued, being polled or done.
    Stay,
    /// Into the queue of the worker that runs on the current thread.
    Queue(CurrentWorker),
    /// The notification is refused, because it came on a thread on which the task cannot be queued.
    Refuse,
}

/// Where a task goes that any worker may run, if the notification says that it is to be queued:
/// to the worker on the current thread, of whatever pool.
pub fn queue_notified(queue: bool, current: Option<CurrentWorker>) -> (step: QueueStep)
    ensures
        step == (if !queue {
            QueueStep::Stay
        } else {
            match current {
                Some(worker) => QueueStep::Queue(worker),
                None => QueueStep::Refuse,
            }
        }),
{
    if !queue {
        return QueueStep::Stay;
    }
    match current {
        Some(worker) => QueueStep::Queue(worker),
        None => QueueStep::Refuse,
    }
}

/// Where a task goes that only the worker `home` may run, if the notification says that it is to be
/// queued.
pub fn queue_notified_local(
    queue: bool,
    home: CurrentWorker,
    current: Option<CurrentWorker>,
) -> (step: QueueStep)
    ensures
        step == (if !queue {
            QueueStep::Stay
        } else if current == Some(home) {
            QueueStep::Queue(home)
        } else {
            QueueStep::Refuse
        }),
{
    if !queue {
        return QueueStep::Stay;
    }
    match current {
        Some(worker) => {
            if worker == home {
                QueueStep::Queue(worker)
            } else {
                QueueStep::Refuse
            }
        },
        None => QueueStep::Refuse,
    }
}

impl Handle {
    /// A handle to the worker that runs on the current thread, `current`, if it is one of this
    /// pool.
    pub fn local(&self, current: Option<CurrentWorker>) -> (handle: Option<LocalHandle>)
        ensures
            handle == (match current {
                Some(worker) if worker.pool == self.pool => Some(
                    LocalHandle { global: *self, worker: worker.worker },
                ),
                _ => None,
            }),
    {
        match current {
            Some(current) => {
                if current.pool == self.pool {
                    Some(LocalHandle { global: *self, worker: current.worker })
                } else {
                    None
                }
            },
            None => None,
        }
    }
}

impl LocalHandle {
    /// The handle that is not locked to a thread.
    pub fn global(&self) -> (handle: &Handle)
        ensures
            *handle == self.global,
    {
        &self.global
    }
}

/// A pool of workers, `T` being what names the event by which tasks are sent to it.
pub struct ThreadPool<T> {
    id: usize,
    submit_remote_work_event: T,
    active: bool,
    workers: Vec<usize>,
}

/// The workers of a new pool.
pub open spec fn numbered_workers(concurrency: usize) -> Seq<usize> {
    Seq::new(concurrency as nat, |i: int| i as usize)
}

impl<T> ThreadPool<T> {
    /// What tells this pool from others.
    pub closed spec fn id(&self) -> usize {
        self.id
    }

    /// What names the event by which tasks are sent to the pool.
    pub closed spec fn event(&self) -> T {
        self.submit_remote_work_event
    }

    /// Whether the workers are to go on.
    pub closed spec fn active(&self) -> bool {
        self.active
    }

    /// The workers that have not left the pool.
    pub closed spec fn workers(&self) -> Seq<usize> {
        self.workers@
    }

    /// No worker is in the pool twice.
    pub open spec fn wf(&self) -> bool {
        self.workers().no_duplicates()
    }

    /// A pool with a worker for each CPU.
    pub fn new(id: usize, event: Result<T, Error>) -> (result: Result<ThreadPool<T>, Error>)
        ensures
            match event {
                Ok(event) => {
                    &&& result matches Ok(pool)
                    &&& pool.wf()
                    &&& pool.id() == id
                    &&& pool.event() == event
                    &&& pool.active()
                    &&& pool.workers().len() >= 1
                    &&& pool.workers() == numbered_workers(pool.workers().len() as usize)
                },
                Err(error) => result == Err::<ThreadPool<T>, Error>(error),
            },
    {
        Self::with_concurrency(id, event, cpu_count())
    }

    /// A pool with this many workers, if the event by which tasks are sent to it could be made.
    pub fn with_concurrency(id: usize, event: Result<T, Error>, concurrency: usize) -> (result:
        Result<ThreadPool<T>, Error>)
        ensures
            match event {
                Ok(event) => {
                    &&& result matches Ok(pool)
                    &&& pool.wf()
                    &&& pool.id() == id
                    &&& pool.event() == event
                    &&& pool.active()
                    &&& pool.workers() == numbered_workers(concurrency)
                },
                Err(error) => result == Err::<ThreadPool<T>, Error>(error),
            },
    {
        let submit_remote_work_event = match event {
            Ok(event) => event,
            Err(error) => return Err(error),
        };
        let mut workers: Vec<usize> = Vec::new();
        let mut worker: usize = 0;
        while worker < concurrency
            invariant
                worker <= concurrency,
                workers@ == numbered_workers(worker),
            decreases concurrency - worker,
        {
            workers.push(worker);
            worker += 1;
            assert(workers@ =~= numbered_workers(worker));
        }
        Ok(ThreadPool { id, submit_remote_work_event, active: true, workers })
    }

    /// What names the event by which tasks are sent to the pool.
    pub fn submit_remote_work_event(&self) -> (event: &T)
        ensures
            *event == self.event(),
    {
        &self.submit_remote_work_event
    }

    /// A name for this pool.
    pub fn handle(&self) -> (handle: Handle)
        ensures
            handle.pool == self.id(),
    {
        Handle { pool: self.id }
    }

    /// A handle to the worker that runs on the current thread, `current`, if it is one of this
    /// pool.
    pub fn local_handle(&self, current: Option<CurrentWorker>) -> (handle: Option<LocalHandle>)
        ensures
            handle == (match current {
                Some(worker) if worker.pool == self.id() => Some(
                    LocalHandle { global: Handle { pool: self.id() }, worker: worker.worker },
                ),
                _ => None,
            }),
    {
        self.handle().local(current)
    }

    /// The workers that have not left the pool.
    pub fn worker_ids(&self) -> (workers: &Vec<usize>)
        ensures
            workers@ == self.workers(),
    {
        &self.workers
    }

    /// Whether the workers are to go on.
    pub fn is_active(&self) -> (active: bool)
        ensures
            active == self.active(),
    {
        self.active
    }

    /// Initiates the shutdown process, but does not wait for all workers to exit.
    pub fn begin_shutdown(&mut self)
        ensures
            !final(self).active(),
            final(self).id() == old(self).id(),
            final(self).event() == old(self).event(),
            final(self).workers() == old(self).workers(),
    {
        self.active = false;
    }

    /// Stops the workers, and says which of them are to be woken and waited for.
    pub fn stop(&mut self) -> (workers: Vec<usize>)
        ensures
            workers@ == old(self).workers(),
            !final(self).active(),
            final(self).id() == old(self).id(),
            final(self).event() == old(self).event(),
            final(self).workers() == old(self).workers(),
    {
        self.begin_shutdown();
        self.workers.clone()
    }

    /// Takes out a worker that exits; the last worker takes its place.
    pub fn remove_worker(&mut self, worker: usize)
        requires
            old(self).wf(),
            old(self).workers().contains(worker),
        ensures
            final(self).wf(),
            final(self).id() == old(self).id(),
            final(self).event() == old(self).event(),
            final(self).active() == old(self).active(),
            exists|i: int|
                0 <= i < old(self).workers().len() && #[trigger] old(self).workers()[i] == worker
                    && final(self).workers() == old(self).workers().update(
                    i,
                    old(self).workers().last(),
                ).drop_last(),
    {
        let mut i: usize = 0;
        while self.workers[i] != worker
            invariant
                i < self.workers.len(),
                self.workers@ == old(self).workers(),
                old(self).workers().contains(worker),
                forall|j: int| 0 <= j < i ==> self.workers@[j] != worker,
            decreases self.workers.len() - i,
        {
            i += 1;
        }
        self.workers.swap_remove(i);
        assert(old(self).workers()[i as int] == worker);
    }
}

/// A worker of an active pool that starts an iteration runs its local tasks before any global one,
/// and before it waits.
pub proof fn law_local_tasks_come_first(
    before: WorkerView,
    active: bool,
    step: WorkerStep,
    after: WorkerView,
)
    requires
        before.leads_to(active, step, after),
        before.phase !is Global,
        step is RunGlobal || step is Turn,
    ensures
        before.local.len() == 0,
{
}

/// A worker leaves the pool only when the pool is not active any more.
pub proof fn law_worker_stays_while_active(
    before: WorkerView,
    step: WorkerStep,
    after: WorkerView,
)
    requires
        before.leads_to(true, step, after),
    ensures
        step !is Exit,
{
}

/// A worker of a pool that is shut down leaves it: at the start of an iteration it does so at once,
/// and every other step either leads there or leaves one task fewer.
pub proof fn law_worker_leaves_after_shutdown(
    before: WorkerView,
    step: WorkerStep,
    after: WorkerView,
)
    requires
        before.leads_to(false, step, after),
    ensures
        before.phase is Top <==> step is Exit,
        step !is Exit ==> after.phase is Top || after.local.len() + after.global.len()
            < before.local.len() + before.global.len(),
{
}

/// A worker turns the event queue only when it has no global task, and in an iteration in which it
/// ran no global task only when it has no task at all.
pub proof fn law_worker_waits_without_work(
    before: WorkerView,
    active: bool,
    step: WorkerStep,
    after: WorkerView,
)
    requires
        before.leads_to(active, step, after),
        step is Turn,
    ensures
        before.global.len() == 0,
        before.phase !is Global ==> before.local.len() == 0,
        after.phase is Top,
{
}

/// No task is lost and none is run twice: a step runs one task, which was queued, and leaves all
/// others queued, or it runs none and leaves all queued.
pub proof fn law_each_task_runs_once(
    before: WorkerView,
    active: bool,
    step: WorkerStep,
    after: WorkerView,
)
    requires
        before.leads_to(active, step, after),
    ensures
        match step {
            WorkerStep::RunLocal(task) => {
                &&& before.local == seq![task] + after.local
                &&& before.global == after.global
            },
            WorkerStep::RunGlobal(task) => {
                &&& before.local == after.local
                &&& before.global == seq![task] + after.global
            },
            _ => before.local == after.local && before.global == after.global,
        },
{
    if step is RunLocal {
        assert(before.local =~= seq![before.local[0]] + before.local.skip(1));
    }
    if step is RunGlobal {
        assert(before.global =~= seq![before.global[0]] + before.global.skip(1));
    }
}

/// A worker that exits leaves the pool, and all others stay in it.
pub proof fn law_only_exiting_worker_leaves<T>(
    before: ThreadPool<T>,
    after: ThreadPool<T>,
    worker: usize,
    i: int,
)
    requires
        before.wf(),
        0 <= i < before.workers().len(),
        before.workers()[i] == worker,
        after.workers() == before.workers().update(i, before.workers().last()).drop_last(),
    ensures
        forall|other: usize| #[trigger]
            after.workers().contains(other) <==> before.workers().contains(other) && other
                != worker,
{
    let old_workers = before.workers();
    let new_workers = after.workers();
    assert forall|other: usize| #[trigger]
        new_workers.contains(other) <==> old_workers.contains(other) && other != worker by {
        if new_workers.contains(other) {
            let k = choose|k: int| 0 <= k < new_workers.len() && new_workers[k] == other;
            let from = if k == i {
                old_workers.len() - 1
            } else {
                k
            };
            assert(old_workers[from] == other);
        }
        if old_workers.contains(other) && other != worker {
            let k = choose|k: int| 0 <= k < old_workers.len() && old_workers[k] == other;
            let to = if k == old_workers.len() - 1 {
                i
            } else {
                k
            };
            assert(new_workers[to] == other);
        }
    }
}

/// What to say of a panic: its message where it has one, be it owned or fixed.
pub fn panic_message<'a>(owned: Option<&'a str>, fixed: Option<&'a str>) -> (message: &'a str)
    ensures
        message@ == (match (owned, fixed) {
            (Some(text), _) => text@,
            (None, Some(text)) => text@,
            (None, None) => "Any"@,
        }),
{
    match owned {
        Some(text) => text,
        None => match fixed {
            Some(text) => text,
            None => "Any",
        },
    }
}

/// A worker that has local tasks, and has run no global one in this iteration, runs the one that
/// was queued before all others; otherwise it runs the global task that was queued first, if there
/// is one, and without any it turns the event queue, without a limit to the wait.
pub proof fn law_worker_runs_what_is_queued(
    worker: &mut WorkerSelf,
    active: bool,
    step: WorkerStep,
)
    requires
        call_ensures(WorkerSelf::next, (worker, active), step),
    ensures
        ({
            let before = old(worker)@;
            let after = final(worker)@;
            let leaves = before.phase is Top && !active;
            &&& step is Exit <==> leaves
            &&& step is RunLocal <==> !leaves && before.phase !is Global && before.local.len() > 0
            &&& step is Turn <==> !leaves && before.global.len() == 0 && (before.local.len() == 0
                || before.phase is Global)
            &&& step matches WorkerStep::RunLocal(task) ==> {
                &&& before.local == seq![task] + after.local
                &&& after.global == before.global
                &&& after.phase is Local
            }
            &&& step matches WorkerStep::RunGlobal(task) ==> {
                &&& before.global == seq![task] + after.global
                &&& after.local == before.local
                &&& after.phase is Global
            }
            &&& step matches WorkerStep::Turn(limit) ==> {
                &&& limit is None
                &&& after.global == before.global
                &&& after.local == before.local
                &&& after.phase is Top
            }
            &&& step is Exit ==> after == before
        }),
{
    law_each_task_runs_once(old(worker)@, active, step, final(worker)@);
}

/// Where another thread got in its way, a worker only looks for events and does not wait. What
/// taking a global task brought leaves the queues as they are, and only a task keeps the worker
/// from a new iteration.
pub proof fn law_disturbed_worker_does_not_wait(
    worker: &mut WorkerSelf,
    steal: Steal,
    step: WorkerStep,
)
    requires
        call_ensures(WorkerSelf::stolen, (worker, steal), step),
    ensures
        steal is Inconsistent ==> (step matches WorkerStep::Turn(limit) && (limit matches Some(
            timeout,
        ) && timeout.secs == 0 && timeout.nanos == 0)),
        steal is Empty ==> (step matches WorkerStep::Turn(limit) && limit is None),
        steal matches Steal::Data(task) ==> step == WorkerStep::RunGlobal(task),
        final(worker)@.phase is Global <==> steal is Data,
        final(worker)@.phase is Top <==> steal !is Data,
        final(worker)@.global == old(worker)@.global,
        final(worker)@.local == old(worker)@.local,
{
}

/// A global task that is queued, or sent from outside of the pool, comes behind those that are
/// queued; number 0 is no task. A local task that is spawned comes before those that are queued.
/// Neither touches the other queue, and a new worker has no task.
pub proof fn law_tasks_are_queued_in_order(
    made: WorkerSelf,
    pushed: &mut WorkerSelf,
    remote: &mut WorkerSelf,
    local: &mut WorkerSelf,
    task: usize,
)
    requires
        call_ensures(WorkerSelf::new, (), made),
        call_ensures(WorkerSelf::push, (pushed, task), ()),
        call_ensures(WorkerSelf::handle_remote_spawn, (remote, task), ()),
        call_ensures(WorkerSelf::spawn_local, (local, task), ()),
    ensures
        made@.global.len() == 0,
        made@.local.len() == 0,
        made@.phase is Top,
        final(pushed)@.global.drop_last() == old(pushed)@.global,
        final(pushed)@.global.last() == task,
        final(pushed)@.global.len() == old(pushed)@.global.len() + 1,
        final(pushed)@.local == old(pushed)@.local,
        final(pushed)@.phase == old(pushed)@.phase,
        task == 0 ==> final(remote)@.global == old(remote)@.global,
        task != 0 ==> {
            &&& final(remote)@.global.drop_last() == old(remote)@.global
            &&& final(remote)@.global.last() == task
            &&& final(remote)@.global.len() == old(remote)@.global.len() + 1
        },
        final(remote)@.local == old(remote)@.local,
        final(remote)@.phase == old(remote)@.phase,
        final(local)@.local.first() == task,
        final(local)@.local.drop_first() == old(local)@.local,
        final(local)@.local.len() == old(local)@.local.len() + 1,
        final(local)@.global == old(local)@.global,
        final(local)@.phase == old(local)@.phase,
{
    assert(final(pushed)@.global.drop_last() =~= old(pushed)@.global);
    if task != 0 {
        assert(final(remote)@.global.drop_last() =~= old(remote)@.global);
    }
    assert(final(local)@.local.drop_first() =~= old(local)@.local);
}

/// A notified task is queued only where its notification says so. One that any worker may run is
/// queued with the worker of the current thread, and one that a single worker may run only with
/// that worker, on its own thread; on any other thread the notification is refused.
pub proof fn law_notified_task_goes_to_its_worker(
    queue: bool,
    home: CurrentWorker,
    current: Option<CurrentWorker>,
    step: QueueStep,
    local: QueueStep,
)
    requires
        call_ensures(queue_notified, (queue, current), step),
        call_ensures(queue_notified_local, (queue, home, current), local),
    ensures
        step is Stay <==> !queue,
        step is Refuse <==> queue && current is None,
        step matches QueueStep::Queue(worker) ==> current == Some(worker),
        local is Stay <==> !queue,
        local is Queue <==> queue && current == Some(home),
        local matches QueueStep::Queue(worker) ==> worker == home,
{
}

/// A handle to the worker of the current thread is had exactly on a thread of the pool; it names
/// that worker and the pool.
pub proof fn law_local_handle_names_current_worker<T>(
    pool: ThreadPool<T>,
    current: Option<CurrentWorker>,
    handle: Handle,
    found: Option<LocalHandle>,
    from_handle: Option<LocalHandle>,
    back: &Handle,
)
    requires
        call_ensures(ThreadPool::<T>::handle, (&pool,), handle),
        call_ensures(ThreadPool::<T>::local_handle, (&pool, current), found),
        call_ensures(Handle::local, (&handle, current), from_handle),
        found matches Some(local) ==> call_ensures(LocalHandle::global, (&local,), back),
    ensures
        found is Some <==> (current matches Some(worker) && worker.pool == pool.id()),
        found == from_handle,
        found matches Some(local) ==> {
            &&& current matches Some(worker)
            &&& local.worker == worker.worker
            &&& local.global == handle
            &&& *back == handle
        },
        handle.pool == pool.id(),
{
}

/// A pool is had exactly where the event could be had by which tasks are sent to it. It has as many
/// workers as were asked for, which are told apart by their numbers, counted from 0 on, and they
/// are to go on until the pool is shut down.
pub proof fn law_pool_starts_with_all_workers<T>(
    id: usize,
    event: Result<T, Error>,
    concurrency: usize,
    result: Result<ThreadPool<T>, Error>,
    i: int,
    submit: &T,
    active: bool,
    workers: &Vec<usize>,
)
    requires
        call_ensures(ThreadPool::<T>::with_concurrency, (id, event, concurrency), result),
        result matches Ok(pool) ==> {
            &&& call_ensures(ThreadPool::<T>::submit_remote_work_event, (&pool,), submit)
            &&& call_ensures(ThreadPool::<T>::is_active, (&pool,), active)
            &&& call_ensures(ThreadPool::<T>::worker_ids, (&pool,), workers)
        },
    ensures
        result is Ok <==> event is Ok,
        result matches Err(error) ==> event == Err::<T, Error>(error),
        result matches Ok(pool) ==> {
            &&& event == Ok::<T, Error>(*submit)
            &&& active
            &&& pool.id() == id
            &&& pool.wf()
            &&& workers@.len() == concurrency
            &&& pool.workers() == workers@
            &&& 0 <= i < concurrency ==> workers@[i] == i
        },
{
}

/// A pool that is made for the machine has at least one worker, and its workers are numbered in the
/// same way.
pub proof fn law_pool_for_machine_has_a_worker<T>(
    id: usize,
    event: Result<T, Error>,
    result: Result<ThreadPool<T>, Error>,
    i: int,
)
    requires
        call_ensures(ThreadPool::<T>::new, (id, event), result),
    ensures
        result is Ok <==> event is Ok,
        result matches Err(error) ==> event == Err::<T, Error>(error),
        result matches Ok(pool) ==> {
            &&& event == Ok::<T, Error>(pool.event())
            &&& pool.active()
            &&& pool.id() == id
            &&& pool.wf()
            &&& pool.workers().len() >= 1
            &&& 0 <= i < pool.workers().len() && pool.workers().len() <= usize::MAX
                ==> pool.workers()[i] == i
        },
{
}

/// Stopping a pool, and beginning to, makes it inactive and removes no worker; all workers that are
/// there are to be waited for.
pub proof fn law_stopped_pool_waits_for_all<T>(
    begun: &mut ThreadPool<T>,
    stopped: &mut ThreadPool<T>,
    workers: Vec<usize>,
    active: bool,
    active_too: bool,
)
    requires
        call_ensures(ThreadPool::<T>::begin_shutdown, (begun,), ()),
        call_ensures(ThreadPool::<T>::stop, (stopped,), workers),
        call_ensures(ThreadPool::<T>::is_active, (&*final(begun),), active),
        call_ensures(ThreadPool::<T>::is_active, (&*final(stopped),), active_too),
    ensures
        !active,
        !active_too,
        final(begun).workers() == old(begun).workers(),
        final(stopped).workers() == old(stopped).workers(),
        workers@ == old(stopped).workers(),
        final(begun).event() == old(begun).event(),
        final(stopped).event() == old(stopped).event(),
        final(begun).id() == old(begun).id(),
        final(stopped).id() == old(stopped).id(),
{
}

/// Removing a worker takes it out of the pool, and nobody else.
pub proof fn law_removed_worker_is_gone<T>(
    pool: &mut ThreadPool<T>,
    worker: usize,
    other: usize,
)
    requires
        old(pool).wf(),
        old(pool).workers().contains(worker),
        call_ensures(ThreadPool::<T>::remove_worker, (pool, worker), ()),
    ensures
        final(pool).workers().contains(other) <==> old(pool).workers().contains(other) && other
            != worker,
        final(pool).workers().len() + 1 == old(pool).workers().len(),
        final(pool).wf(),
        final(pool).active() == old(pool).active(),
        final(pool).event() == old(pool).event(),
        final(pool).id() == old(pool).id(),
{
    let i = choose|i: int|
        0 <= i < old(pool).workers().len() && #[trigger] old(pool).workers()[i] == worker
            && final(pool).workers() == old(pool).workers().update(
            i,
            old(pool).workers().last(),
        ).drop_last();
    law_only_exiting_worker_leaves(*old(pool), *final(pool), worker, i);
}

/// What is said of a panic is its own message, where it has one, the owned one before the fixed
/// one.
pub proof fn law_panic_is_told_by_its_message(
    owned: Option<&str>,
    fixed: Option<&str>,
    message: &str,
)
    requires
        call_ensures(panic_message, (owned, fixed), message),
    ensures
        owned matches Some(text) ==> message@ == text@,
        owned is None ==> (fixed matches Some(text) ==> message@ == text@),
        owned is None && fixed is None ==> message@ == seq!['A', 'n', 'y'],
{
    reveal_strlit("Any");
    assert("Any"@ =~= seq!['A', 'n', 'y']);
}

} // verus!
