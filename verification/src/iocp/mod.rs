//! An event queue on top of Windows' I/O completion ports.

pub mod net;

use crate::io::{Async, Error};
use crate::queue::Timeout;
use vstd::prelude::*;

verus! {

/// The token of completions that notify a task; every other token is the address of a callback.
pub const FUTURE_NOTIFY_IOCP_TOKEN: usize = 1;

/// The argument of a wait without limit.
pub const INFINITE: u32 = 0xffff_ffff;

/// The error of a wait that took too long.
pub const WAIT_TIMEOUT: u32 = 258;

/// The error of a wait that a queued procedure call broke off.
pub const WAIT_IO_COMPLETION: u32 = 0xc0;

/// The status of an operation that goes on.
pub const STATUS_PENDING: i32 = 0x103;

/// What a completion port reports, and what is posted to it.
#[derive(Clone, Copy, PartialEq, Eq, Debug, Structural)]
pub struct Completion {
    /// What the completion is about.
    pub token: usize,
    /// The operation that completed, or the datum that was posted.
    pub overlapped: usize,
}

/// The addition of a socket to a completion port, which then reports the socket's operations.
#[derive(PartialEq, Eq, Debug)]
pub struct AddSocket<S> {
    /// The port.
    pub iocp_id: usize,
    /// What the completions of the socket's operations are reported with.
    pub token: usize,
    pub socket: S,
}

/// What is to be done about a completion.
#[derive(Clone, Copy, PartialEq, Eq, Debug, Structural)]
pub enum CompletionStep {
    /// Take back the reference that the port had to the `OverlappedTask` here, and complete it.
    Notify(usize),
    /// Call the callback of the event with the datum.
    Callback(EventTag, usize),
}

/// An event queue.
pub struct CompletionPort {
    iocp_id: usize,
    event_table: Vec<usize>,
}

/// Names an event queue.
#[derive(Clone, Copy, PartialEq, Eq, Debug, Structural)]
pub struct Handle {
    pub iocp_id: usize,
}

/// Names a custom event of an event queue.
#[derive(Clone, Copy, PartialEq, Eq, Hash, Debug, Structural)]
pub struct EventTag {
    /// The address of the callback.
    pub callback_ptr: usize,
    /// The event queue that the event belongs to.
    pub iocp_id: usize,
}

/// What the wait is told: the greatest number stands for no limit, and a time of that many
/// milliseconds or more is cut short to one less.
pub open spec fn wait_argument(max_wait: Option<Timeout>) -> int {
    match max_wait {
        None => INFINITE as int,
        Some(timeout) => if timeout.total_millis() < INFINITE {
            timeout.total_millis()
        } else {
            INFINITE - 1
        },
    }
}

/// What the wait is told about the longest time to wait.
pub fn timeout_ms(max_wait: Option<Timeout>) -> (millis: u32)
    ensures
        millis == wait_argument(max_wait),
{
    match max_wait {
        Some(timeout) => timeout.millis_up_to(INFINITE - 1),
        None => INFINITE,
    }
}

/// A wait that has a limit ends within it, and one that has none is not cut short. A limit that the
/// argument can tell is told in full.
pub proof fn law_wait_is_no_longer_than_asked(max_wait: Option<Timeout>)
    ensures
        match max_wait {
            Some(timeout) => {
                &&& wait_argument(max_wait) != INFINITE
                &&& 0 <= wait_argument(max_wait) <= timeout.total_millis()
                &&& wait_argument(max_wait) * 1_000_000 <= timeout.total_nanos()
                &&& timeout.total_millis() < INFINITE ==> wait_argument(max_wait)
                    == timeout.total_millis()
            },
            None => wait_argument(max_wait) == INFINITE,
        },
{
}

impl CompletionPort {
    /// What names the port.
    pub closed spec fn id(&self) -> usize {
        self.iocp_id
    }

    /// The callbacks of the custom events, oldest first.
    pub closed spec fn event_table(&self) -> Seq<usize> {
        self.event_table@
    }

    /// No callback is mistaken for the token that notifies tasks.
    pub open spec fn wf(&self) -> bool {
        forall|i: int|
            0 <= i < self.event_table().len() ==> #[trigger] self.event_table()[i]
                != FUTURE_NOTIFY_IOCP_TOKEN
    }

    /// A queue on a port, if one could be had.
    pub fn new(port: Result<usize, Error>) -> (result: Result<CompletionPort, Error>)
        ensures
            match port {
                Ok(id) => {
                    &&& result matches Ok(queue)
                    &&& queue.wf()
                    &&& queue.id() == id
                    &&& queue.event_table() == Seq::<usize>::empty()
                },
                Err(error) => result == Err::<CompletionPort, Error>(error),
            },
    {
        match port {
            Ok(iocp_id) => Ok(CompletionPort { iocp_id, event_table: Vec::new() }),
            Err(error) => Err(error),
        }
    }

    /// A name for this queue.
    pub fn handle(&self) -> (handle: Handle)
        ensures
            handle.iocp_id == self.id(),
    {
        Handle { iocp_id: self.iocp_id }
    }

    /// Notes the callback of a custom event.
    pub fn new_custom_event(&mut self, callback_ptr: usize) -> (tag: EventTag)
        requires
            old(self).wf(),
            callback_ptr != FUTURE_NOTIFY_IOCP_TOKEN,
        ensures
            final(self).wf(),
            final(self).id() == old(self).id(),
            final(self).event_table() == old(self).event_table().push(callback_ptr),
            tag == (EventTag { callback_ptr, iocp_id: old(self).id() }),
    {
        self.event_table.push(callback_ptr);
        assert(self.event_table() =~= old(self).event_table().push(callback_ptr));
        EventTag { callback_ptr, iocp_id: self.iocp_id }
    }

    /// Concludes a wait: `reported` is what came, or the code of an error with the error that it
    /// stands for. A wait that had a limit may run into it. What came is to be dispatched next.
    pub fn waited(
        &self,
        max_wait: Option<Timeout>,
        reported: Result<Vec<Completion>, (u32, Error)>,
    ) -> (result: Result<PortTurn, Error>)
        requires
            reported matches Err((code, _)) ==> code != WAIT_IO_COMPLETION,
        ensures
            match reported {
                Ok(completions) => {
                    &&& result matches Ok(turn)
                    &&& turn.wf()
                    &&& turn.completions() == completions@
                    &&& turn.position() == 0
                },
                Err((code, error)) => if code == WAIT_TIMEOUT && max_wait is Some {
                    &&& result matches Ok(turn)
                    &&& turn.wf()
                    &&& turn.completions() == Seq::<Completion>::empty()
                    &&& turn.position() == 0
                } else {
                    result == Err::<PortTurn, Error>(error)
                },
            },
    {
        match reported {
            Ok(completions) => Ok(PortTurn { completions, next: 0 }),
            Err((code, error)) => {
                if code == WAIT_TIMEOUT && max_wait.is_some() {
                    return Ok(PortTurn { completions: Vec::new(), next: 0 });
                }
                Err(error)
            },
        }
    }

    /// What is to be done about a completion.
    pub fn dispatch(&self, completion: Completion) -> (step: CompletionStep)
        ensures
            step == self.spec_dispatch(completion),
    {
        if completion.token == FUTURE_NOTIFY_IOCP_TOKEN {
            CompletionStep::Notify(completion.overlapped)
        } else {
            CompletionStep::Callback(
                EventTag { callback_ptr: completion.token, iocp_id: self.iocp_id },
                completion.overlapped,
            )
        }
    }

    /// What is to be done about a completion.
    pub open spec fn spec_dispatch(&self, completion: Completion) -> CompletionStep {
        if completion.token == FUTURE_NOTIFY_IOCP_TOKEN {
            CompletionStep::Notify(completion.overlapped)
        } else {
            CompletionStep::Callback(
                EventTag { callback_ptr: completion.token, iocp_id: self.id() },
                completion.overlapped,
            )
        }
    }
}

/// A turn of an event queue that has waited.
pub struct PortTurn {
    completions: Vec<Completion>,
    next: usize,
}

/// What a turn needs done.
#[derive(Clone, Copy, PartialEq, Eq, Debug, Structural)]
pub enum PortStep {
    /// Do this about a completion, and ask again.
    Dispatch(CompletionStep),
    /// The turn is over; this many completions came.
    Done(usize),
}

impl PortTurn {
    /// What the wait reported.
    pub closed spec fn completions(&self) -> Seq<Completion> {
        self.completions@
    }

    /// How many completions were gone through.
    pub closed spec fn position(&self) -> usize {
        self.next
    }

    /// The position is within the completions.
    pub open spec fn wf(&self) -> bool {
        self.position() <= self.completions().len()
    }

    /// Goes on to the next completion.
    pub fn dispatch(&mut self, port: &CompletionPort) -> (step: PortStep)
        requires
            old(self).wf(),
        ensures
            final(self).wf(),
            dispatched(*port, *old(self), step, *final(self)),
    {
        if self.next < self.completions.len() {
            let completion = self.completions[self.next];
            self.next += 1;
            PortStep::Dispatch(port.dispatch(completion))
        } else {
            PortStep::Done(self.completions.len())
        }
    }
}

/// `steps` are what calls of `PortTurn::dispatch` return from the start of a turn on, and `turns`
/// what they leave of it.
pub open spec fn turn_steps(
    port: CompletionPort,
    turns: Seq<PortTurn>,
    steps: Seq<PortStep>,
) -> bool {
    &&& turns.len() == steps.len() + 1
    &&& turns[0].position() == 0
    &&& forall|k: int|
        0 <= k < steps.len() ==> dispatched(port, turns[k], #[trigger] steps[k], turns[k + 1])
}

/// What one call of `PortTurn::dispatch` does.
pub open spec fn dispatched(
    port: CompletionPort,
    before: PortTurn,
    step: PortStep,
    after: PortTurn,
) -> bool {
    &&& after.completions() == before.completions()
    &&& if before.position() < before.completions().len() {
        &&& step == PortStep::Dispatch(
            port.spec_dispatch(before.completions()[before.position() as int]),
        )
        &&& after.position() == before.position() + 1
    } else {
        &&& step matches PortStep::Done(count)
        &&& count == before.completions().len()
        &&& after.position() == before.position()
    }
}

/// A turn hands out every completion once, in the order in which they came, and then says how many
/// there were.
pub proof fn law_completions_are_dispatched_in_order(
    port: CompletionPort,
    turns: Seq<PortTurn>,
    steps: Seq<PortStep>,
    k: int,
)
    requires
        turn_steps(port, turns, steps),
        0 <= k < steps.len(),
    ensures
        k < turns[0].completions().len() ==> steps[k] == PortStep::Dispatch(
            port.spec_dispatch(turns[0].completions()[k]),
        ),
        k >= turns[0].completions().len() ==> (steps[k] matches PortStep::Done(count) && count
            == turns[0].completions().len()),
{
    lemma_turn_position(port, turns, steps, k);
    assert(dispatched(port, turns[k], steps[k], turns[k + 1]));
}

/// Each step of a turn takes it one completion further, to the last one at most.
proof fn lemma_turn_position(
    port: CompletionPort,
    turns: Seq<PortTurn>,
    steps: Seq<PortStep>,
    k: int,
)
    requires
        turn_steps(port, turns, steps),
        0 <= k <= steps.len(),
    ensures
        turns[k].completions() == turns[0].completions(),
        turns[k].position() == if k < turns[0].completions().len() {
            k
        } else {
            turns[0].completions().len() as int
        },
    decreases k,
{
    if k > 0 {
        lemma_turn_position(port, turns, steps, k - 1);
        assert(dispatched(port, turns[k - 1], steps[k - 1], turns[(k - 1) + 1]));
    }
}

impl Handle {
    /// Adds a socket to the port, under the token by which completions notify tasks.
    pub fn add_socket<S>(&self, socket: S) -> (request: AddSocket<S>)
        ensures
            request.iocp_id == self.iocp_id,
            request.token == FUTURE_NOTIFY_IOCP_TOKEN,
            request.socket == socket,
    {
        AddSocket { iocp_id: self.iocp_id, token: FUTURE_NOTIFY_IOCP_TOKEN, socket }
    }

    /// What to post to the port for a custom event of it.
    pub fn post_custom_event(&self, event: EventTag, data: usize) -> (completion: Completion)
        requires
            event.iocp_id == self.iocp_id,
        ensures
            completion == spec_post(event, data),
    {
        Completion { token: event.callback_ptr, overlapped: data }
    }
}

/// What is posted to a port for a custom event.
pub open spec fn spec_post(event: EventTag, data: usize) -> Completion {
    Completion { token: event.callback_ptr, overlapped: data }
}

/// What is posted for a custom event comes out at its callback, with the datum that was posted.
pub proof fn law_posted_event_reaches_its_callback(
    port: CompletionPort,
    event: EventTag,
    i: int,
    data: usize,
)
    requires
        port.wf(),
        event.iocp_id == port.id(),
        0 <= i < port.event_table().len(),
        port.event_table()[i] == event.callback_ptr,
    ensures
        port.spec_dispatch(spec_post(event, data)) == CompletionStep::Callback(event, data),
{
}

/// Allows overlapped IO operations to notify tasks, `T` being what is notified.
///
/// While an operation goes on, the port has a reference to this, which it gives back when it
/// reports that the operation is complete. The IO object must be added to the port first, or no
/// notification comes.
pub struct OverlappedTask<T> {
    submitted: bool,
    task: Option<T>,
}

/// What `OverlappedTask::poll_socket` needs.
#[derive(Clone, Copy, PartialEq, Eq, Debug, Structural)]
pub enum PollSocketStep {
    /// The operation goes on.
    NotReady,
    /// Ask for the result of the operation.
    GetResult,
}

impl<T> OverlappedTask<T> {
    /// Whether the port has a reference to this.
    pub closed spec fn submitted(&self) -> bool {
        self.submitted
    }

    /// What is notified when the operation is complete.
    pub closed spec fn task(&self) -> Option<T> {
        self.task
    }

    /// Notifies `task`; the port does not know of this yet.
    pub fn new(task: T) -> (overlapped: OverlappedTask<T>)
        ensures
            !overlapped.submitted(),
            overlapped.task() == Some(task),
    {
        OverlappedTask { submitted: false, task: Some(task) }
    }

    /// Alters what is notified.
    pub fn register(&mut self, task: T)
        ensures
            final(self).submitted() == old(self).submitted(),
            final(self).task() == Some(task),
    {
        self.task = Some(task);
    }

    /// Whether the port has a reference to this.
    pub fn is_submitted(&self) -> (submitted: bool)
        ensures
            submitted == self.submitted(),
    {
        self.submitted
    }

    /// Concludes the submission of an operation. If it was submitted, the port has a reference to
    /// this from now on, which the caller must give up without dropping it. Only one operation may
    /// be active at a time.
    pub fn for_operation<R>(&mut self, result: Result<R, Error>) -> (outcome: Result<R, Error>)
        requires
            !old(self).submitted(),
        ensures
            outcome == result,
            final(self).submitted() == result is Ok,
            final(self).task() == old(self).task(),
    {
        self.submitted = result.is_ok();
        result
    }

    /// Takes back the reference that the port had, and says what to notify.
    pub fn completed(&mut self) -> (task: Option<T>)
        requires
            old(self).submitted(),
        ensures
            task == old(self).task(),
            !final(self).submitted(),
            final(self).task() is None,
    {
        self.submitted = false;
        self.task.take()
    }

    /// Reads the status of an operation.
    pub fn poll_socket(&self, status: i32) -> (step: PollSocketStep)
        ensures
            step == (if status == STATUS_PENDING {
                PollSocketStep::NotReady
            } else {
                PollSocketStep::GetResult
            }),
    {
        if status == STATUS_PENDING {
            PollSocketStep::NotReady
        } else {
            PollSocketStep::GetResult
        }
    }

    /// Reads the result of an operation that is over: `succeeded` is what the call that asked for
    /// it returned, and `last_error` counts only if that is `false`.
    pub fn socket_result(
        &self,
        succeeded: bool,
        transferred: u32,
        flags: u32,
        last_error: Error,
    ) -> (result: Result<Async<(usize, u32)>, Error>)
        ensures
            result == (if succeeded {
                Ok::<Async<(usize, u32)>, Error>(Async::Ready((transferred as usize, flags)))
            } else {
                Err::<Async<(usize, u32)>, Error>(last_error)
            }),
    {
        if succeeded {
            Ok(Async::Ready((transferred as usize, flags)))
        } else {
            Err(last_error)
        }
    }
}

/// A wait that may take some time is told the whole milliseconds of it, and no more than its
/// argument can say beside the number that stands for no limit; that number is told exactly without
/// a limit.
pub proof fn law_port_waits_as_asked(max_wait: Option<Timeout>, millis: u32)
    requires
        call_ensures(timeout_ms, (max_wait,), millis),
    ensures
        max_wait is None <==> millis == 0xffff_ffff,
        max_wait matches Some(timeout) ==> {
            let nanos = timeout.secs * 1_000_000_000 + timeout.nanos;
            &&& millis * 1_000_000 <= nanos
            &&& nanos < (millis + 1) * 1_000_000 || millis == 0xffff_fffe
        },
{
}

/// A queue is had exactly where a port could be had, names that port, and starts without events.
pub proof fn law_queue_starts_without_events(
    port: Result<usize, Error>,
    result: Result<CompletionPort, Error>,
    handle: Handle,
)
    requires
        call_ensures(CompletionPort::new, (port,), result),
        result matches Ok(queue) ==> call_ensures(CompletionPort::handle, (&queue,), handle),
    ensures
        result is Ok <==> port is Ok,
        result matches Err(error) ==> port == Err::<usize, Error>(error),
        result matches Ok(queue) ==> {
            &&& port == Ok::<usize, Error>(queue.id())
            &&& handle.iocp_id == queue.id()
            &&& queue.event_table().len() == 0
            &&& queue.wf()
        },
{
}

/// A turn hands out all completions that the wait reported, from the first to the last, once each
/// and in their order, and then says how many there were. A completion of a socket that was added
/// to the port notifies the task of its operation, and every other one goes to the callback that it
/// names. `calls` are the turn at one call of `PortTurn::dispatch` after another, and `steps` what
/// they return.
pub proof fn law_every_completion_is_handed_out(
    port: CompletionPort,
    max_wait: Option<Timeout>,
    completions: Vec<Completion>,
    turn: PortTurn,
    calls: Seq<&mut PortTurn>,
    steps: Seq<PortStep>,
    k: int,
)
    requires
        call_ensures(
            CompletionPort::waited,
            (&port, max_wait, Ok::<Vec<Completion>, (u32, Error)>(completions)),
            Ok(turn),
        ),
        calls.len() == steps.len(),
        forall|j: int|
            0 <= j < steps.len() ==> call_ensures(
                PortTurn::dispatch,
                (calls[j], &port),
                #[trigger] steps[j],
            ),
        calls.len() > 0 ==> *calls[0] == turn,
        forall|j: int| 0 < j < calls.len() ==> *(#[trigger] calls[j]) == *final(calls[j - 1]),
        0 <= k < steps.len(),
    ensures
        k < completions@.len() ==> {
            let completion = completions@[k];
            &&& steps[k] matches PortStep::Dispatch(step)
            &&& step == if completion.token == 1 {
                CompletionStep::Notify(completion.overlapped)
            } else {
                CompletionStep::Callback(
                    EventTag { callback_ptr: completion.token, iocp_id: port.id() },
                    completion.overlapped,
                )
            }
        },
        k >= completions@.len() ==> (steps[k] matches PortStep::Done(count) && count
            == completions@.len()),
{
    lemma_calls_advance_turn(port, completions@, calls, steps, k);
    assert(call_ensures(PortTurn::dispatch, (calls[k], &port), steps[k]));
}

/// Each call takes a turn one completion further, to the last one at most.
proof fn lemma_calls_advance_turn(
    port: CompletionPort,
    completions: Seq<Completion>,
    calls: Seq<&mut PortTurn>,
    steps: Seq<PortStep>,
    k: int,
)
    requires
        calls.len() == steps.len(),
        forall|j: int|
            0 <= j < steps.len() ==> call_ensures(
                PortTurn::dispatch,
                (calls[j], &port),
                #[trigger] steps[j],
            ),
        forall|j: int| 0 < j < calls.len() ==> *(#[trigger] calls[j]) == *final(calls[j - 1]),
        0 <= k < steps.len(),
        calls[0].completions() == completions,
        calls[0].position() == 0,
    ensures
        calls[k].wf(),
        calls[k].completions() == completions,
        calls[k].position() == if k < completions.len() {
            k
        } else {
            completions.len() as int
        },
    decreases k,
{
    if k > 0 {
        lemma_calls_advance_turn(port, completions, calls, steps, k - 1);
        assert(call_ensures(PortTurn::dispatch, (calls[k - 1], &port), steps[k - 1]));
        assert(*calls[k] == *final(calls[(k - 1)]));
    }
}

/// A wait fails with the error that it ran into, unless it had a limit and ran into that: then the
/// turn is over without completions.
pub proof fn law_wait_may_run_into_its_limit(
    port: CompletionPort,
    max_wait: Option<Timeout>,
    code: u32,
    error: Error,
    result: Result<PortTurn, Error>,
    turn: &mut PortTurn,
    step: PortStep,
)
    requires
        code != WAIT_IO_COMPLETION,
        call_ensures(
            CompletionPort::waited,
            (&port, max_wait, Err::<Vec<Completion>, (u32, Error)>((code, error))),
            result,
        ),
        result matches Ok(waited) ==> *old(turn) == waited && call_ensures(
            PortTurn::dispatch,
            (turn, &port),
            step,
        ),
    ensures
        result is Ok <==> code == 258 && max_wait is Some,
        result matches Err(reported) ==> reported == error,
        result is Ok ==> step == PortStep::Done(0),
{
}

/// The completions of a socket that was added to a port notify the tasks of its operations.
pub proof fn law_added_socket_notifies_tasks<S>(
    port: CompletionPort,
    handle: Handle,
    socket: S,
    request: AddSocket<S>,
    overlapped: usize,
    step: CompletionStep,
)
    requires
        call_ensures(CompletionPort::handle, (&port,), handle),
        call_ensures(Handle::add_socket::<S>, (&handle, socket), request),
        call_ensures(
            CompletionPort::dispatch,
            (&port, (Completion { token: request.token, overlapped })),
            step,
        ),
    ensures
        request.iocp_id == port.id(),
        request.socket == socket,
        step == CompletionStep::Notify(overlapped),
{
}

/// What is posted for a custom event reaches the callback that the event was made with, with the
/// datum that was posted, and the callbacks that there were stay.
pub proof fn law_custom_event_reaches_its_callback(
    port: &mut CompletionPort,
    callback_ptr: usize,
    tag: EventTag,
    handle: Handle,
    data: usize,
    completion: Completion,
    step: CompletionStep,
)
    requires
        old(port).wf(),
        callback_ptr != FUTURE_NOTIFY_IOCP_TOKEN,
        call_ensures(CompletionPort::new_custom_event, (port, callback_ptr), tag),
        call_ensures(CompletionPort::handle, (&*final(port),), handle),
        call_ensures(Handle::post_custom_event, (&handle, tag, data), completion),
        call_ensures(CompletionPort::dispatch, (&*final(port), completion), step),
    ensures
        handle.iocp_id == tag.iocp_id,
        step == CompletionStep::Callback(tag, data),
        tag.callback_ptr == callback_ptr,
        final(port).wf(),
        final(port).id() == old(port).id(),
        final(port).event_table().last() == callback_ptr,
        final(port).event_table().drop_last() == old(port).event_table(),
{
    assert(final(port).event_table().drop_last() =~= old(port).event_table());
}

/// The task that an operation notifies when it is complete is the one that was registered last, and
/// it is notified once. The port has a reference to the operation exactly from a submission that
/// succeeded up to the completion.
pub proof fn law_operation_notifies_last_registered_task<T, R>(
    first: T,
    made: OverlappedTask<T>,
    submitted: &mut OverlappedTask<T>,
    submission: Result<R, Error>,
    outcome: Result<R, Error>,
    in_flight: bool,
    registered: &mut OverlappedTask<T>,
    second: T,
    completed: &mut OverlappedTask<T>,
    notified: Option<T>,
    done: bool,
)
    requires
        call_ensures(OverlappedTask::<T>::new, (first,), made),
        *old(submitted) == made,
        call_ensures(
            OverlappedTask::<T>::for_operation::<R>,
            (submitted, submission),
            outcome,
        ),
        call_ensures(OverlappedTask::<T>::is_submitted, (&*final(submitted),), in_flight),
        call_ensures(OverlappedTask::<T>::register, (registered, second), ()),
        *old(registered) == *final(submitted),
        *old(completed) == *final(submitted) || *old(completed) == *final(registered),
        submission is Ok ==> call_ensures(OverlappedTask::<T>::completed, (completed,), notified),
        submission is Ok ==> call_ensures(
            OverlappedTask::<T>::is_submitted,
            (&*final(completed),),
            done,
        ),
    ensures
        !made.submitted(),
        outcome == submission,
        in_flight <==> submission is Ok,
        final(registered).submitted() == final(submitted).submitted(),
        submission is Ok ==> {
            &&& *old(completed) == *final(submitted) ==> notified == Some(first)
            &&& *old(completed) == *final(registered) ==> notified == Some(second)
            &&& final(submitted).task() == Some(first)
            &&& final(completed).task() is None
            &&& !done
        },
{
}

/// An operation is not ready exactly while its status says that it goes on; its result is the
/// number of bytes and the flags that the system tells, or the error where there is one.
pub proof fn law_operation_result_is_read<T>(
    task: OverlappedTask<T>,
    status: i32,
    step: PollSocketStep,
    succeeded: bool,
    transferred: u32,
    flags: u32,
    last_error: Error,
    result: Result<Async<(usize, u32)>, Error>,
)
    requires
        call_ensures(OverlappedTask::<T>::poll_socket, (&task, status), step),
        call_ensures(
            OverlappedTask::<T>::socket_result,
            (&task, succeeded, transferred, flags, last_error),
            result,
        ),
    ensures
        step is NotReady <==> status == 0x103,
        result is Ok <==> succeeded,
        result matches Ok(ready) ==> (ready matches Async::Ready((count, returned)) && count
            == transferred && returned == flags),
        result matches Err(error) ==> error == last_error,
{
}

} // verus!
