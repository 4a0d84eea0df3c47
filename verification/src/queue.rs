//! What every event queue shares.

use crate::io::Async;
use vstd::prelude::*;

verus! {

/// For how long to wait: whole seconds, and nanoseconds of the next one.
#[derive(Clone, Copy, PartialEq, Eq, Debug, Structural)]
pub struct Timeout {
    pub secs: u64,
    pub nanos: u32,
}

impl Timeout {
    /// All of it in nanoseconds.
    pub open spec fn total_nanos(self) -> int {
        self.secs * 1_000_000_000 + self.nanos
    }

    /// The whole milliseconds of it.
    pub open spec fn total_millis(self) -> int {
        self.total_nanos() / 1_000_000
    }

    /// The whole milliseconds of it, but no more than `limit`.
    pub(crate) fn millis_up_to(&self, limit: u32) -> (millis: u32)
        ensures
            millis == if self.total_millis() <= limit {
                self.total_millis()
            } else {
                limit as int
            },
    {
        if self.secs > 0xffff_ffff {
            return limit;
        }
        let millis: u64 = self.secs * 1000 + (self.nanos / 1_000_000) as u64;
        if millis <= limit as u64 {
            millis as u32
        } else {
            limit
        }
    }
}

/// Tells the thread that drives a future when the future is to be polled, and gets that thread out
/// of a wait through an interrupt.
pub struct InterruptNotify<I> {
    interrupt: I,
    notified: bool,
}

/// What driving a future on an event queue needs done.
#[derive(PartialEq, Eq, Debug)]
pub enum RunStep<T, E> {
    /// Poll the future.
    Poll,
    /// Turn the event queue, without a limit to the wait.
    Turn,
    /// The future resolved.
    Return(Result<T, E>),
}

impl<I> InterruptNotify<I> {
    /// Whether the future was notified since it was last polled.
    pub closed spec fn notified(&self) -> bool {
        self.notified
    }

    /// What raises the interrupt.
    pub closed spec fn spec_interrupt(&self) -> I {
        self.interrupt
    }

    /// A future that was not polled yet counts as notified.
    pub fn new(interrupt: I) -> (notify: InterruptNotify<I>)
        ensures
            notify.notified(),
            notify.spec_interrupt() == interrupt,
    {
        InterruptNotify { interrupt, notified: true }
    }

    /// What raises the interrupt.
    pub fn interrupt(&self) -> (interrupt: &I)
        ensures
            *interrupt == self.spec_interrupt(),
    {
        &self.interrupt
    }

    /// Takes the notification, and says whether there was one.
    pub fn reset(&mut self) -> (notified: bool)
        ensures
            notified == old(self).notified(),
            !final(self).notified(),
            final(self).spec_interrupt() == old(self).spec_interrupt(),
    {
        let notified: bool = self.notified;
        self.notified = false;
        notified
    }

    /// Notifies the future, and says whether the interrupt is to be raised: only the first
    /// notification since the last poll does so.
    pub fn notify(&mut self) -> (raise: bool)
        ensures
            raise == !old(self).notified(),
            final(self).notified() == notified_by(NotifyOp::Notify),
            final(self).spec_interrupt() == old(self).spec_interrupt(),
    {
        let raise: bool = !self.notified;
        self.notified = true;
        raise
    }

    /// What comes next in driving a future, at the start and after every turn: a future that was
    /// notified is polled, any other waits.
    pub fn next<T, E>(&mut self) -> (step: RunStep<T, E>)
        ensures
            step == (if old(self).notified() {
                RunStep::Poll::<T, E>
            } else {
                RunStep::Turn::<T, E>
            }),
            final(self).notified() == notified_by(NotifyOp::Next),
            final(self).spec_interrupt() == old(self).spec_interrupt(),
    {
        if self.reset() {
            RunStep::Poll
        } else {
            RunStep::Turn
        }
    }
}

/// What comes next in driving a future that was polled.
pub fn polled<T, E>(result: Result<Async<T>, E>) -> (step: RunStep<T, E>)
    ensures
        step == match result {
            Ok(Async::Ready(value)) => RunStep::Return(Ok::<T, E>(value)),
            Ok(Async::NotReady) => RunStep::Turn::<T, E>,
            Err(error) => RunStep::Return(Err::<T, E>(error)),
        },
{
    match result {
        Ok(Async::Ready(value)) => RunStep::Return(Ok(value)),
        Ok(Async::NotReady) => RunStep::Turn,
        Err(error) => RunStep::Return(Err(error)),
    }
}

/// What can happen to an `InterruptNotify` while a future is driven.
pub enum NotifyOp {
    /// The future is notified, by whatever thread.
    Notify,
    /// The driving thread goes on: it polls a notified future, and waits otherwise.
    Next,
}

/// Whether the future is notified after an operation, whatever was before.
pub open spec fn notified_by(op: NotifyOp) -> bool {
    op is Notify
}

/// Whether the future is notified after these operations.
pub open spec fn notified_after(notified: bool, ops: Seq<NotifyOp>) -> bool {
    if ops.len() == 0 {
        notified
    } else {
        notified_by(ops.last())
    }
}

/// The driving thread does not wait on a future that was notified since it last went on, however
/// often it was: the future is polled first.
pub proof fn law_notified_future_is_polled(notified: bool, ops: Seq<NotifyOp>, at: int)
    requires
        0 <= at < ops.len(),
        forall|i: int| at <= i < ops.len() ==> #[trigger] ops[i] is Notify,
    ensures
        notified_after(notified, ops),
{
    assert(ops[ops.len() - 1] is Notify);
}

/// A future is polled once for any number of notifications that came since it was polled last, and
/// is not polled without one: after that the driving thread waits.
pub proof fn law_notification_is_taken_once<I, T, E>(
    notified: &mut InterruptNotify<I>,
    raise: bool,
    again: &mut InterruptNotify<I>,
    raise_again: bool,
    polled: &mut InterruptNotify<I>,
    first: RunStep<T, E>,
    waiting: &mut InterruptNotify<I>,
    second: RunStep<T, E>,
)
    requires
        call_ensures(InterruptNotify::<I>::notify, (notified,), raise),
        *old(again) == *final(notified),
        call_ensures(InterruptNotify::<I>::notify, (again,), raise_again),
        *old(polled) == *final(notified) || *old(polled) == *final(again),
        call_ensures(InterruptNotify::<I>::next::<T, E>, (polled,), first),
        *old(waiting) == *final(polled),
        call_ensures(InterruptNotify::<I>::next::<T, E>, (waiting,), second),
    ensures
        raise <==> !old(notified).notified(),
        !raise_again,
        first is Poll,
        second is Turn,
        final(waiting).spec_interrupt() == old(notified).spec_interrupt(),
{
}

/// A future that was not polled yet is polled first, without a notification, and its interrupt is
/// the one that was given. Taking the notification says whether there was one, and leaves none.
pub proof fn law_new_future_is_polled_first<I, T, E>(
    given: I,
    made: InterruptNotify<I>,
    driven: &mut InterruptNotify<I>,
    first: RunStep<T, E>,
    taken: &mut InterruptNotify<I>,
    was_notified: bool,
    interrupt: &I,
)
    requires
        call_ensures(InterruptNotify::<I>::new, (given,), made),
        *old(driven) == made,
        call_ensures(InterruptNotify::<I>::next::<T, E>, (driven,), first),
        call_ensures(InterruptNotify::<I>::reset, (taken,), was_notified),
        call_ensures(InterruptNotify::<I>::interrupt, (&*final(driven),), interrupt),
    ensures
        first is Poll,
        *interrupt == given,
        was_notified == old(taken).notified(),
        !final(taken).notified(),
{
}

/// Driving a future ends exactly when the future resolves, with what it resolves to; until then the
/// queue is turned after each poll.
pub proof fn law_driving_ends_with_future<T, E>(
    result: Result<Async<T>, E>,
    step: RunStep<T, E>,
)
    requires
        call_ensures(polled::<T, E>, (result,), step),
    ensures
        step is Turn <==> (result matches Ok(outcome) && outcome is NotReady),
        step !is Poll,
        step matches RunStep::Return(Ok(value)) ==> result == Ok::<Async<T>, E>(
            Async::Ready(value),
        ),
        step matches RunStep::Return(Err(error)) ==> result == Err::<Async<T>, E>(error),
{
}

} // verus!
