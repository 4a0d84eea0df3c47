//! One turn of the event queue: waiting for events and handing them to their registrations.

use crate::epoll::flags::EventMask;
use crate::epoll::registration::Registration;
use crate::epoll::{Entry, Epoll};
use crate::io::{Error, ErrorKind};
use crate::queue::Timeout;
use vstd::prelude::*;

verus! {

/// How many events one wait can report.
pub const EVENT_BUFFER_SIZE: usize = 32;

/// The address that stands for the default disposition of a signal.
pub const SIG_DFL: usize = 0;

/// The address that stands for a signal that is passed over.
pub const SIG_IGN: usize = 1;

/// A report of `epoll_wait`.
#[derive(Clone, Copy, PartialEq, Eq, Debug, Structural)]
pub struct RawEvent {
    /// The conditions reported.
    pub events: u32,
    /// The token of the registration.
    pub data: u64,
}

/// What `epoll_wait` is told: -1 stands for no limit. It takes 31 bits of milliseconds, and a
/// longer time is cut short to that.
pub open spec fn wait_argument(max_wait: Option<Timeout>) -> int {
    match max_wait {
        None => -1,
        Some(timeout) => if timeout.total_millis() <= i32::MAX {
            timeout.total_millis()
        } else {
            i32::MAX as int
        },
    }
}

/// What `epoll_wait` is told about the longest time to wait.
pub fn timeout_ms(max_wait: Option<Timeout>) -> (millis: i32)
    ensures
        millis == wait_argument(max_wait),
{
    match max_wait {
        Some(timeout) => timeout.millis_up_to(0x7fff_ffff) as i32,
        None => -1,
    }
}

/// The argument of the next wait, when this much of the time that a wait was given has passed.
pub open spec fn left_after(timeout: int, elapsed_ms: u32) -> int {
    if timeout < 0 {
        -1
    } else if timeout <= elapsed_ms {
        0
    } else {
        timeout - elapsed_ms
    }
}

/// A turn of an event queue.
pub struct Turn {
    interruptible: bool,
    timeout_ms: i32,
    events: Vec<RawEvent>,
    next: usize,
}

/// What a turn needs done.
#[derive(PartialEq, Eq, Debug)]
pub enum TurnStep {
    /// Wait for events.
    Wait,
    /// Hand the reported events to their registrations, one after the other.
    Dispatch,
    /// The turn is over.
    Done(Result<usize, Error>),
}

/// What the dispatch of reported events needs done.
#[derive(Clone, Copy, PartialEq, Eq, Debug, Structural)]
pub enum DispatchStep {
    /// Tell the handler of a registration about these conditions, and ask again.
    Handle(Registration, EventMask),
    /// The turn is over; this many events were reported.
    Done(usize),
}

/// The first report from `from` on whose registration lives, or the number of reports.
pub open spec fn first_live<H>(
    events: Seq<RawEvent>,
    from: int,
    registrations: Map<u64, Entry<H>>,
) -> int
    decreases events.len() - from,
{
    if from >= events.len() {
        events.len() as int
    } else if registrations.contains_key(events[from].data) {
        from
    } else {
        first_live(events, from + 1, registrations)
    }
}

impl Turn {
    /// Whether an `Interrupt` ends the wait.
    pub closed spec fn interruptible(&self) -> bool {
        self.interruptible
    }

    /// The argument of the wait.
    pub closed spec fn timeout(&self) -> i32 {
        self.timeout_ms
    }

    /// What the wait reported.
    pub closed spec fn events(&self) -> Seq<RawEvent> {
        self.events@
    }

    /// How many reports were gone through.
    pub closed spec fn position(&self) -> usize {
        self.next
    }

    /// The position is within the reports.
    pub open spec fn wf(&self) -> bool {
        self.position() <= self.events().len()
    }

    /// Starts a turn; waiting comes next.
    fn new(max_wait: Option<Timeout>, interruptible: bool) -> (turn: Turn)
        ensures
            turn.wf(),
            turn.interruptible() == interruptible,
            turn.timeout() == wait_argument(max_wait),
            turn.events() == Seq::<RawEvent>::empty(),
    {
        Turn { interruptible, timeout_ms: timeout_ms(max_wait), events: Vec::new(), next: 0 }
    }

    /// The argument of the wait.
    pub fn timeout_ms(&self) -> (millis: i32)
        ensures
            millis == self.timeout(),
    {
        self.timeout_ms
    }

    /// Takes what a wait of this many milliseconds, rounded up, brought. Where a signal broke it
    /// off, the turn waits once more, for the time that is left.
    pub fn waited(&mut self, elapsed_ms: u32, reported: Result<Vec<RawEvent>, Error>) -> (step:
        TurnStep)
        requires
            old(self).wf(),
            !old(self).interruptible(),
        ensures
            final(self).wf(),
            !final(self).interruptible(),
            match reported {
                Err(error) => {
                    &&& final(self).events() == old(self).events()
                    &&& final(self).position() == old(self).position()
                    &&& if error.spec_kind() == ErrorKind::Interrupted {
                        &&& step == TurnStep::Wait
                        &&& final(self).timeout() == left_after(
                            old(self).timeout() as int,
                            elapsed_ms,
                        )
                    } else {
                        &&& step == TurnStep::Done(Err(error))
                        &&& final(self).timeout() == old(self).timeout()
                    }
                },
                Ok(events) => {
                    &&& final(self).timeout() == old(self).timeout()
                    &&& final(self).took(events@, step)
                },
            },
    {
        match reported {
            Err(error) => {
                if error.kind() == ErrorKind::Interrupted {
                    self.timeout_ms = if self.timeout_ms < 0 {
                        -1
                    } else if self.timeout_ms as u32 <= elapsed_ms {
                        0
                    } else {
                        self.timeout_ms - elapsed_ms as i32
                    };
                    TurnStep::Wait
                } else {
                    TurnStep::Done(Err(error))
                }
            },
            Ok(events) => self.take_events(events),
        }
    }

    /// Takes what the wait of a turn that `interrupt` can end brought, and notes that no thread
    /// waits any more. A signal ends such a turn, which then reports no events.
    pub fn waited_interruptible(
        &mut self,
        interrupt: &mut Interrupt,
        reported: Result<Vec<RawEvent>, Error>,
    ) -> (step: TurnStep)
        requires
            old(self).wf(),
            old(self).interruptible(),
        ensures
            final(self).wf(),
            final(self).interruptible(),
            final(self).timeout() == old(self).timeout(),
            final(interrupt).thread() == thread_by(InterruptOp::End),
            step !is Wait,
            match reported {
                Err(error) => {
                    &&& final(self).events() == old(self).events()
                    &&& final(self).position() == old(self).position()
                    &&& step == (if error.spec_kind() == ErrorKind::Interrupted {
                        TurnStep::Done(Ok(0))
                    } else {
                        TurnStep::Done(Err(error))
                    })
                },
                Ok(events) => final(self).took(events@, step),
            },
    {
        interrupt.leave();
        match reported {
            Err(error) => {
                if error.kind() == ErrorKind::Interrupted {
                    TurnStep::Done(Ok(0))
                } else {
                    TurnStep::Done(Err(error))
                }
            },
            Ok(events) => self.take_events(events),
        }
    }

    /// The turn has these reports to go through, and this is what comes next.
    pub open spec fn took(&self, events: Seq<RawEvent>, step: TurnStep) -> bool {
        &&& self.events() == events
        &&& self.position() == 0
        &&& step == (if events.len() == 0 {
            TurnStep::Done(Ok(0))
        } else {
            TurnStep::Dispatch
        })
    }

    /// Takes what was reported.
    fn take_events(&mut self, events: Vec<RawEvent>) -> (step: TurnStep)
        ensures
            final(self).wf(),
            final(self).interruptible() == old(self).interruptible(),
            final(self).timeout() == old(self).timeout(),
            final(self).took(events@, step),
    {
        let count: usize = events.len();
        self.events = events;
        self.next = 0;
        if count == 0 {
            TurnStep::Done(Ok(0))
        } else {
            TurnStep::Dispatch
        }
    }

    /// Goes on to the next report whose registration still lives; registrations that a handler
    /// dropped meanwhile are passed over.
    pub fn dispatch<H>(&mut self, epoll: &Epoll<H>) -> (step: DispatchStep)
        requires
            old(self).wf(),
        ensures
            final(self).wf(),
            final(self).interruptible() == old(self).interruptible(),
            final(self).timeout() == old(self).timeout(),
            final(self).events() == old(self).events(),
            ({
                let events = old(self).events();
                let found = first_live(events, old(self).position() as int, epoll.registrations());
                if found < events.len() {
                    let token = events[found].data;
                    &&& final(self).position() == found + 1
                    &&& step == DispatchStep::Handle(
                        Registration { fd: epoll.registrations()[token].fd, token },
                        EventMask::spec_from_bits_truncate(events[found].events),
                    )
                } else {
                    &&& final(self).position() == events.len()
                    &&& step == DispatchStep::Done(events.len() as usize)
                }
            }),
    {
        let ghost found = first_live(
            old(self).events(),
            old(self).position() as int,
            epoll.registrations(),
        );
        while self.next < self.events.len()
            invariant
                self.wf(),
                self.interruptible() == old(self).interruptible(),
                self.timeout() == old(self).timeout(),
                self.events() == old(self).events(),
                found == first_live(
                    old(self).events(),
                    old(self).position() as int,
                    epoll.registrations(),
                ),
                found == first_live(self.events(), self.position() as int, epoll.registrations()),
            decreases self.events.len() - self.next,
        {
            let event = self.events[self.next];
            self.next += 1;
            if let Some(registration) = epoll.live(event.data) {
                return DispatchStep::Handle(
                    registration,
                    EventMask::from_bits_truncate(event.events),
                );
            }
        }
        DispatchStep::Done(self.events.len())
    }
}

impl<H> Epoll<H> {
    /// Starts one iteration of the event loop, which waits for events for at most `max_wait`
    /// (without limit if `None`).
    pub fn turn(&self, max_wait: Option<Timeout>) -> (turn: Turn)
        ensures
            turn.wf(),
            !turn.interruptible(),
            turn.timeout() == wait_argument(max_wait),
            turn.events() == Seq::<RawEvent>::empty(),
    {
        Turn::new(max_wait, false)
    }

    /// Starts one iteration of the event loop that `interrupt` can end, and notes that `thread`
    /// is the one to signal while it waits.
    pub fn turn_interruptible(
        &self,
        max_wait: Option<Timeout>,
        interrupt: &mut Interrupt,
        thread: usize,
    ) -> (turn: Turn)
        ensures
            turn.wf(),
            turn.interruptible(),
            turn.timeout() == wait_argument(max_wait),
            turn.events() == Seq::<RawEvent>::empty(),
            final(interrupt).thread() == thread_by(InterruptOp::Begin(thread)),
    {
        interrupt.enter(thread);
        Turn::new(max_wait, true)
    }
}

/// Ends a wait of another thread.
pub struct Interrupt {
    thread_id: usize,
}

/// What interrupting takes.
#[derive(Clone, Copy, PartialEq, Eq, Debug, Structural)]
pub enum InterruptStep {
    /// Nobody waits: the answer is that nothing was interrupted.
    Idle,
    /// Signal this thread.
    Signal(usize),
}

/// What interrupting takes when this thread waits, or nobody, which 0 stands for.
pub open spec fn interrupt_step(thread: usize) -> InterruptStep {
    if thread == 0 {
        InterruptStep::Idle
    } else {
        InterruptStep::Signal(thread)
    }
}

impl Interrupt {
    /// The thread that waits, or 0.
    pub closed spec fn thread(&self) -> usize {
        self.thread_id
    }

    /// An interrupt on which nobody waits.
    pub fn new() -> (interrupt: Interrupt)
        ensures
            interrupt.thread() == 0,
    {
        Interrupt { thread_id: 0 }
    }

    /// Notes that a thread starts to wait.
    fn enter(&mut self, thread: usize)
        ensures
            final(self).thread() == thread,
    {
        self.thread_id = thread;
    }

    /// Notes that the wait is over.
    fn leave(&mut self)
        ensures
            final(self).thread() == 0,
    {
        self.thread_id = 0;
    }

    /// What ends the wait.
    pub fn interrupt(&self) -> (step: InterruptStep)
        ensures
            step == interrupt_step(self.thread()),
    {
        if self.thread_id == 0 {
            InterruptStep::Idle
        } else {
            InterruptStep::Signal(self.thread_id)
        }
    }

    /// Reads what `pthread_kill` returned: 0, or the code of an error, which `error` describes.
    pub fn signalled(returned: i32, error: Error) -> (interrupted: Result<bool, Error>)
        ensures
            interrupted == (if returned == 0 {
                Ok::<bool, Error>(true)
            } else {
                Err::<bool, Error>(error)
            }),
    {
        if returned == 0 {
            Ok(true)
        } else {
            Err(error)
        }
    }
}

/// The disposition that a signal had before it was taken over.
#[derive(Clone, Copy, PartialEq, Eq, Debug, Structural)]
pub struct OldHandler {
    /// The address of the handler.
    pub address: usize,
    pub flags: i32,
}

/// How a signal is passed on to the handler that was there before.
#[derive(Clone, Copy, PartialEq, Eq, Debug, Structural)]
pub enum SignalStep {
    /// It is not.
    Ignore,
    /// Call the handler at this address with the signal's number, its description and the context.
    CallWithInfo(usize),
    /// Call the handler at this address with the signal's number.
    Call(usize),
}

/// How a signal is passed on to the handler that was there before; `sa_siginfo` is the flag of a
/// handler that takes three arguments.
pub fn chain_signal(old_handler: Option<OldHandler>, sa_siginfo: i32) -> (step: SignalStep)
    ensures
        step == match old_handler {
            None => SignalStep::Ignore,
            Some(old) => if old.address == SIG_IGN || old.address == SIG_DFL {
                SignalStep::Ignore
            } else if old.flags & sa_siginfo != 0 {
                SignalStep::CallWithInfo(old.address)
            } else {
                SignalStep::Call(old.address)
            },
        },
{
    match old_handler {
        None => SignalStep::Ignore,
        Some(old_handler) => {
            if old_handler.address == SIG_IGN || old_handler.address == SIG_DFL {
                return SignalStep::Ignore;
            }
            if old_handler.flags & sa_siginfo != 0 {
                SignalStep::CallWithInfo(old_handler.address)
            } else {
                SignalStep::Call(old_handler.address)
            }
        },
    }
}

/// What happens to an `Interrupt`.
pub enum InterruptOp {
    /// A turn that it can end begins on this thread.
    Begin(usize),
    /// That turn has waited, and whatever it brought, it is taken.
    End,
}

/// The thread that is noted after an operation, whatever was before.
pub open spec fn thread_by(op: InterruptOp) -> usize {
    match op {
        InterruptOp::Begin(thread) => thread,
        InterruptOp::End => 0,
    }
}

/// The thread that is noted after these operations on a new `Interrupt`.
pub open spec fn thread_after(ops: Seq<InterruptOp>) -> usize {
    if ops.len() == 0 {
        0
    } else {
        thread_by(ops.last())
    }
}

/// The operations of turns that are over, `threads` being those on which they ran, one after the
/// other.
pub open spec fn finished_turns(threads: Seq<usize>) -> Seq<InterruptOp>
    decreases threads.len(),
{
    if threads.len() == 0 {
        Seq::empty()
    } else {
        finished_turns(threads.drop_last()).push(InterruptOp::Begin(threads.last())).push(
            InterruptOp::End,
        )
    }
}

/// Turns that are over leave no thread noted, whatever became of them: an interrupt on which all of
/// them are over signals nobody.
pub proof fn law_finished_turns_leave_no_thread(threads: Seq<usize>)
    ensures
        thread_after(finished_turns(threads)) == 0,
        interrupt_step(thread_after(finished_turns(threads))) == InterruptStep::Idle,
{
}

/// A wait that has a limit ends within it, and one that has none is not cut short. A limit that the
/// argument can tell is told in full.
pub proof fn law_wait_is_no_longer_than_asked(max_wait: Option<Timeout>)
    ensures
        match max_wait {
            Some(timeout) => {
                &&& 0 <= wait_argument(max_wait) <= timeout.total_millis()
                &&& wait_argument(max_wait) * 1_000_000 <= timeout.total_nanos()
                &&& timeout.total_millis() <= i32::MAX ==> wait_argument(max_wait)
                    == timeout.total_millis()
            },
            None => wait_argument(max_wait) == -1,
        },
{
}

/// The argument of the next wait of a turn whose first one got `timeout`, after waits that took
/// this many milliseconds each and were broken off.
pub open spec fn left_after_all(timeout: int, elapsed: Seq<u32>) -> int
    decreases elapsed.len(),
{
    if elapsed.len() == 0 {
        timeout
    } else {
        left_after(left_after_all(timeout, elapsed.drop_last()), elapsed.last())
    }
}

/// The sum of these times.
pub open spec fn total(blocked: Seq<int>) -> int
    decreases blocked.len(),
{
    if blocked.len() == 0 {
        0
    } else {
        total(blocked.drop_last()) + blocked.last()
    }
}

/// Whether the waits of a turn can have blocked for these times, in milliseconds: none blocks for
/// longer than its argument, nor for longer than it is said to have taken.
pub open spec fn can_block(timeout: int, elapsed: Seq<u32>, blocked: Seq<int>) -> bool {
    &&& blocked.len() == elapsed.len()
    &&& forall|k: int|
        0 <= k < blocked.len() ==> (#[trigger] blocked[k]) <= elapsed[k] && blocked[k]
            <= left_after_all(timeout, elapsed.take(k))
}

/// What the waits of a turn blocked for, and what is left, is no more than the first argument.
proof fn lemma_blocked_and_left(timeout: int, elapsed: Seq<u32>, blocked: Seq<int>)
    requires
        timeout >= 0,
        can_block(timeout, elapsed, blocked),
    ensures
        0 <= left_after_all(timeout, elapsed),
        total(blocked) + left_after_all(timeout, elapsed) <= timeout,
    decreases elapsed.len(),
{
    if elapsed.len() > 0 {
        let last = elapsed.len() - 1;
        let fewer = elapsed.drop_last();
        assert forall|k: int| 0 <= k < blocked.drop_last().len() implies (
        #[trigger] blocked.drop_last()[k]) <= fewer[k] && blocked.drop_last()[k]
            <= left_after_all(timeout, fewer.take(k)) by {
            assert(blocked[k] == blocked.drop_last()[k]);
            assert(fewer.take(k) =~= elapsed.take(k));
        }
        lemma_blocked_and_left(timeout, fewer, blocked.drop_last());
        assert(elapsed.take(last) =~= fewer);
        assert(blocked[last] == blocked.last());
    }
}

/// All the waits of one turn together block for no longer than was asked, however often a signal
/// breaks them off.
pub proof fn law_waits_add_up_to_no_more_than_asked(
    max_wait: Timeout,
    elapsed: Seq<u32>,
    blocked: Seq<int>,
)
    requires
        can_block(wait_argument(Some(max_wait)), elapsed, blocked),
    ensures
        total(blocked) <= wait_argument(Some(max_wait)),
        total(blocked) * 1_000_000 <= max_wait.total_nanos(),
{
    law_wait_is_no_longer_than_asked(Some(max_wait));
    lemma_blocked_and_left(wait_argument(Some(max_wait)), elapsed, blocked);
}

/// Dispatching passes over the reports of dropped registrations, and over no others.
pub proof fn law_dispatch_skips_only_dead<H>(
    events: Seq<RawEvent>,
    from: int,
    registrations: Map<u64, Entry<H>>,
)
    requires
        0 <= from <= events.len(),
    ensures
        ({
            let found = first_live(events, from, registrations);
            &&& from <= found <= events.len()
            &&& found < events.len() ==> registrations.contains_key(events[found].data)
            &&& forall|i: int|
                from <= i < found ==> !registrations.contains_key((#[trigger] events[i]).data)
        }),
    decreases events.len() - from,
{
    if from < events.len() && !registrations.contains_key(events[from].data) {
        law_dispatch_skips_only_dead(events, from + 1, registrations);
    }
}

/// Whatever number of reports a turn takes, it hands out every one of them from the first to the
/// last, once each and in their order, and then says how many there were, as long as their
/// registrations live. `calls` are the turn at one call of `Turn::dispatch` after another, `queues`
/// the queue at each of them, and `steps` what they return.
pub proof fn law_every_report_is_handed_out<H>(
    turn: &mut Turn,
    interrupt: &mut Interrupt,
    elapsed_ms: u32,
    reports: Vec<RawEvent>,
    first: TurnStep,
    calls: Seq<&mut Turn>,
    queues: Seq<Epoll<H>>,
    steps: Seq<DispatchStep>,
    k: int,
)
    requires
        old(turn).wf(),
        if old(turn).interruptible() {
            call_ensures(
                Turn::waited_interruptible,
                (turn, interrupt, Ok::<Vec<RawEvent>, Error>(reports)),
                first,
            )
        } else {
            call_ensures(
                Turn::waited,
                (turn, elapsed_ms, Ok::<Vec<RawEvent>, Error>(reports)),
                first,
            )
        },
        calls.len() == steps.len(),
        queues.len() == steps.len(),
        forall|j: int|
            0 <= j < steps.len() ==> call_ensures(
                Turn::dispatch::<H>,
                (calls[j], &queues[j]),
                #[trigger] steps[j],
            ),
        calls.len() > 0 ==> *calls[0] == *final(turn),
        forall|j: int| 0 < j < calls.len() ==> *(#[trigger] calls[j]) == *final(calls[j - 1]),
        forall|j: int, i: int|
            0 <= j < queues.len() && 0 <= i < reports@.len() ==> (
            #[trigger] queues[j]).registrations().contains_key((#[trigger] reports@[i]).data),
        0 <= k < steps.len(),
    ensures
        reports@.len() > 0 ==> first is Dispatch,
        reports@.len() == 0 ==> first == TurnStep::Done(Ok(0)),
        k < reports@.len() ==> {
            &&& steps[k] matches DispatchStep::Handle(registration, mask)
            &&& registration.token == reports@[k].data
            &&& registration.fd == queues[k].registrations()[reports@[k].data].fd
            &&& mask.read == (reports@[k].events & 0x0001 != 0)
            &&& mask.exceptional == (reports@[k].events & 0x0002 != 0)
            &&& mask.write == (reports@[k].events & 0x0004 != 0)
            &&& mask.error == (reports@[k].events & 0x0008 != 0)
            &&& mask.hup == (reports@[k].events & 0x0010 != 0)
            &&& mask.read_hup == (reports@[k].events & 0x2000 != 0)
        },
        k >= reports@.len() ==> (steps[k] matches DispatchStep::Done(count) && count
            == reports@.len()),
{
    lemma_dispatch_position(calls, queues, steps, reports@, k);
    assert(call_ensures(Turn::dispatch::<H>, (calls[k], &queues[k]), steps[k]));
}

/// While all registrations live, each call takes a turn one report further.
proof fn lemma_dispatch_position<H>(
    calls: Seq<&mut Turn>,
    queues: Seq<Epoll<H>>,
    steps: Seq<DispatchStep>,
    reports: Seq<RawEvent>,
    k: int,
)
    requires
        calls.len() == steps.len(),
        queues.len() == steps.len(),
        forall|j: int|
            0 <= j < steps.len() ==> call_ensures(
                Turn::dispatch::<H>,
                (calls[j], &queues[j]),
                #[trigger] steps[j],
            ),
        forall|j: int| 0 < j < calls.len() ==> *(#[trigger] calls[j]) == *final(calls[j - 1]),
        forall|j: int, i: int|
            0 <= j < queues.len() && 0 <= i < reports.len() ==> (
            #[trigger] queues[j]).registrations().contains_key((#[trigger] reports[i]).data),
        0 <= k < steps.len(),
        calls[0].wf(),
        calls[0].events() == reports,
        calls[0].position() == 0,
    ensures
        calls[k].wf(),
        calls[k].events() == reports,
        calls[k].position() == if k < reports.len() {
            k
        } else {
            reports.len() as int
        },
        k < reports.len() ==> queues[k].registrations().contains_key(reports[k].data),
    decreases k,
{
    if k < reports.len() {
        assert(queues[k].registrations().contains_key(reports[k].data));
    }
    if k > 0 {
        lemma_dispatch_position(calls, queues, steps, reports, k - 1);
        assert(call_ensures(Turn::dispatch::<H>, (calls[k - 1], &queues[k - 1]), steps[k - 1]));
        assert(*calls[k] == *final(calls[(k - 1)]));
    }
}

/// When a turn says that it is over, it has handed out every report whose registration lived
/// meanwhile, whatever became of the others.
pub proof fn law_live_report_is_handed_out<H>(
    calls: Seq<&mut Turn>,
    queues: Seq<Epoll<H>>,
    steps: Seq<DispatchStep>,
    i: int,
)
    requires
        calls.len() == steps.len(),
        queues.len() == steps.len(),
        forall|j: int|
            0 <= j < steps.len() ==> call_ensures(
                Turn::dispatch::<H>,
                (calls[j], &queues[j]),
                #[trigger] steps[j],
            ),
        forall|j: int| 0 < j < calls.len() ==> *(#[trigger] calls[j]) == *final(calls[j - 1]),
        steps.len() > 0,
        steps.last() is Done,
        calls[0].wf(),
        calls[0].position() == 0,
        0 <= i < calls[0].events().len(),
        forall|j: int|
            0 <= j < queues.len() ==> (#[trigger] queues[j]).registrations().contains_key(
                calls[0].events()[i].data,
            ),
    ensures
        exists|k: int|
            0 <= k < steps.len() && ((#[trigger] steps[k]) matches DispatchStep::Handle(
                registration,
                _,
            ) && registration.token == calls[0].events()[i].data),
{
    let last = steps.len() - 1;
    lemma_passed_report_was_handed_out(calls, queues, steps, i, last);
    assert(call_ensures(Turn::dispatch::<H>, (calls[last], &queues[last]), steps[last]));
    law_dispatch_skips_only_dead(
        calls[0].events(),
        calls[last].position() as int,
        queues[last].registrations(),
    );
    assert(queues[last].registrations().contains_key(calls[0].events()[i].data));
}

/// A report that a turn has passed, and whose registration lived, was handed out.
proof fn lemma_passed_report_was_handed_out<H>(
    calls: Seq<&mut Turn>,
    queues: Seq<Epoll<H>>,
    steps: Seq<DispatchStep>,
    i: int,
    k: int,
)
    requires
        calls.len() == steps.len(),
        queues.len() == steps.len(),
        forall|j: int|
            0 <= j < steps.len() ==> call_ensures(
                Turn::dispatch::<H>,
                (calls[j], &queues[j]),
                #[trigger] steps[j],
            ),
        forall|j: int| 0 < j < calls.len() ==> *(#[trigger] calls[j]) == *final(calls[j - 1]),
        0 <= k < steps.len(),
        calls[0].wf(),
        calls[0].position() == 0,
        0 <= i < calls[0].events().len(),
        forall|j: int|
            0 <= j < queues.len() ==> (#[trigger] queues[j]).registrations().contains_key(
                calls[0].events()[i].data,
            ),
    ensures
        calls[k].wf(),
        calls[k].events() == calls[0].events(),
        i < calls[k].position() ==> exists|j: int|
            0 <= j < k && ((#[trigger] steps[j]) matches DispatchStep::Handle(registration, _)
                && registration.token == calls[0].events()[i].data),
    decreases k,
{
    if k > 0 {
        let before = k - 1;
        lemma_passed_report_was_handed_out(calls, queues, steps, i, before);
        assert(call_ensures(Turn::dispatch::<H>, (calls[before], &queues[before]), steps[before]));
        assert(*calls[k] == *final(calls[before]));
        law_dispatch_skips_only_dead(
            calls[0].events(),
            calls[before].position() as int,
            queues[before].registrations(),
        );
        assert(queues[before].registrations().contains_key(calls[0].events()[i].data));
        if i < calls[k].position() && i >= calls[before].position() {
            assert(steps[before] is Handle);
        }
    }
}

/// What is handed out is a registration that lives, under the file descriptor that it watches, with
/// what was reported of it.
pub proof fn law_handed_out_registration_lives<H>(
    turn: &mut Turn,
    queue: Epoll<H>,
    registration: Registration,
    mask: EventMask,
)
    requires
        old(turn).wf(),
        call_ensures(
            Turn::dispatch::<H>,
            (turn, &queue),
            DispatchStep::Handle(registration, mask),
        ),
    ensures
        queue.registrations().contains_key(registration.token),
        queue.registrations()[registration.token].fd == registration.fd,
        old(turn).position() < final(turn).position() <= old(turn).events().len(),
        old(turn).events()[final(turn).position() - 1].data == registration.token,
{
    law_dispatch_skips_only_dead(
        old(turn).events(),
        old(turn).position() as int,
        queue.registrations(),
    );
}

/// A turn that may wait for some time is told the whole milliseconds of it, and no more than the
/// argument of a wait can say; one without a limit is told so.
pub proof fn law_turn_waits_as_asked<H>(
    queue: Epoll<H>,
    max_wait: Option<Timeout>,
    turn: Turn,
    millis: i32,
)
    requires
        call_ensures(Epoll::<H>::turn, (&queue, max_wait), turn),
        call_ensures(Turn::timeout_ms, (&turn,), millis),
    ensures
        max_wait is None <==> millis == -1,
        max_wait matches Some(timeout) ==> {
            let nanos = timeout.secs * 1_000_000_000 + timeout.nanos;
            &&& 0 <= millis
            &&& millis * 1_000_000 <= nanos
            &&& nanos < (millis + 1) * 1_000_000 || millis == 0x7fff_ffff
        },
        !turn.interruptible(),
        turn.events().len() == 0,
{
}

/// The same holds of a turn that an interrupt can end, and while it waits, interrupting signals its
/// thread.
pub proof fn law_interruptible_turn_waits_as_asked<H>(
    queue: Epoll<H>,
    max_wait: Option<Timeout>,
    interrupt: &mut Interrupt,
    thread: usize,
    turn: Turn,
    millis: i32,
    step: InterruptStep,
)
    requires
        thread != 0,
        call_ensures(
            Epoll::<H>::turn_interruptible,
            (&queue, max_wait, interrupt, thread),
            turn,
        ),
        call_ensures(Turn::timeout_ms, (&turn,), millis),
        call_ensures(Interrupt::interrupt, (&*final(interrupt),), step),
    ensures
        max_wait is None <==> millis == -1,
        max_wait matches Some(timeout) ==> {
            let nanos = timeout.secs * 1_000_000_000 + timeout.nanos;
            &&& 0 <= millis
            &&& millis * 1_000_000 <= nanos
            &&& nanos < (millis + 1) * 1_000_000 || millis == 0x7fff_ffff
        },
        turn.interruptible(),
        turn.events().len() == 0,
        step == InterruptStep::Signal(thread),
{
}

/// A wait that failed ends the turn with its error, unless a signal broke it off: then the turn
/// waits for what is left of its time, or once more without a limit.
pub proof fn law_failed_wait_ends_turn(
    turn: &mut Turn,
    elapsed_ms: u32,
    error: Error,
    step: TurnStep,
)
    requires
        old(turn).wf(),
        !old(turn).interruptible(),
        call_ensures(Turn::waited, (turn, elapsed_ms, Err::<Vec<RawEvent>, Error>(error)), step),
    ensures
        error.spec_kind() != ErrorKind::Interrupted <==> step == TurnStep::Done(Err(error)),
        error.spec_kind() == ErrorKind::Interrupted ==> {
            &&& step is Wait
            &&& old(turn).timeout() < 0 ==> final(turn).timeout() == -1
            &&& 0 <= old(turn).timeout() <= elapsed_ms ==> final(turn).timeout() == 0
            &&& elapsed_ms <= old(turn).timeout() ==> final(turn).timeout() + elapsed_ms == old(
                turn,
            ).timeout()
        },
        final(turn).events() == old(turn).events(),
        final(turn).position() == old(turn).position(),
{
}

/// When a turn that an interrupt can end has waited, interrupting signals nobody any more. An error
/// of its wait ends the turn; a signal ends it too, without an error and without events.
pub proof fn law_interruptible_turn_waits_once(
    turn: &mut Turn,
    interrupt: &mut Interrupt,
    reported: Result<Vec<RawEvent>, Error>,
    step: TurnStep,
    later: InterruptStep,
)
    requires
        old(turn).wf(),
        old(turn).interruptible(),
        call_ensures(Turn::waited_interruptible, (turn, interrupt, reported), step),
        call_ensures(Interrupt::interrupt, (&*final(interrupt),), later),
    ensures
        later is Idle,
        step !is Wait,
        step is Dispatch <==> (reported matches Ok(events) && events@.len() > 0),
        reported matches Err(error) ==> if error.spec_kind() == ErrorKind::Interrupted {
            step == TurnStep::Done(Ok(0))
        } else {
            step == TurnStep::Done(Err(error))
        },
{
}

/// A new `Interrupt` signals nobody.
pub proof fn law_new_interrupt_is_idle(interrupt: Interrupt, step: InterruptStep)
    requires
        call_ensures(Interrupt::new, (), interrupt),
        call_ensures(Interrupt::interrupt, (&interrupt,), step),
    ensures
        step is Idle,
{
}

/// A signal goes on to the handler that was there before, if there was one to call: the default
/// disposition and the one that ignores are not called. It gets three arguments exactly when it
/// asked for them.
pub proof fn law_signal_reaches_handler_before(
    old_handler: Option<OldHandler>,
    sa_siginfo: i32,
    step: SignalStep,
)
    requires
        call_ensures(chain_signal, (old_handler, sa_siginfo), step),
    ensures
        step is Ignore <==> (old_handler is None || old_handler->0.address <= 1),
        step matches SignalStep::Call(address) ==> {
            &&& address == old_handler->0.address
            &&& old_handler->0.flags & sa_siginfo == 0
        },
        step matches SignalStep::CallWithInfo(address) ==> {
            &&& address == old_handler->0.address
            &&& old_handler->0.flags & sa_siginfo != 0
        },
{
}

/// Interrupting succeeds exactly when the signal could be sent, and fails with the error otherwise.
pub proof fn law_failed_signal_is_reported(
    returned: i32,
    error: Error,
    interrupted: Result<bool, Error>,
)
    requires
        call_ensures(Interrupt::signalled, (returned, error), interrupted),
    ensures
        interrupted is Ok <==> returned == 0,
        interrupted matches Ok(done) ==> done,
        interrupted matches Err(reported) ==> reported == error,
{
}

} // verus!
