//! Events that a program posts to its own queue.

use crate::epoll::flags::{Event, EventMask, EventMode};
use crate::epoll::registration::{Ctl, Registration};
use crossbeam::sync::SegQueue;
use vstd::prelude::*;

verus! {

#[verifier::external_type_specification]
#[verifier::external_body]
#[verifier::reject_recursive_types(T)]
pub struct ExSegQueue<T>(crossbeam::sync::SegQueue<T>);

/// The items of a `SegQueue`, the one that comes out next at the front.
pub uninterp spec fn queued_items(queue: SegQueue<usize>) -> Seq<usize>;

/// `SegQueue::new`: a queue without items.
#[verifier::external_body]
fn seg_queue_new() -> (queue: SegQueue<usize>)
    ensures
        queued_items(queue) == Seq::<usize>::empty(),
{
    SegQueue::new()
}

/// `SegQueue::push`: adds an item at the back. The queue is borrowed for this call alone, so no
/// other thread takes from it or adds to it meanwhile.
#[verifier::external_body]
fn seg_queue_push(queue: &mut SegQueue<usize>, item: usize)
    ensures
        queued_items(*final(queue)) == queued_items(*old(queue)).push(item),
{
    queue.push(item)
}

/// `SegQueue::try_pop`: takes the item at the front, or nothing where there is none. The queue is
/// borrowed for this call alone, as for `seg_queue_push`.
#[verifier::external_body]
fn seg_queue_try_pop(queue: &mut SegQueue<usize>) -> (item: Option<usize>)
    ensures
        match item {
            Some(front) => {
                &&& queued_items(*old(queue)).len() > 0
                &&& front == queued_items(*old(queue))[0]
                &&& queued_items(*final(queue)) == queued_items(*old(queue)).skip(1)
            },
            None => {
                &&& queued_items(*old(queue)).len() == 0
                &&& queued_items(*final(queue)) == queued_items(*old(queue))
            },
        },
{
    queue.try_pop()
}

/// An event that a program posts to its own queue: posting adds to `queued` and signals
/// `event_fd`, which the queue watches.
pub struct CustomEvent {
    event_fd: i32,
    registration: Registration,
    queue: SegQueue<usize>,
}

/// What a `CustomEvent` stands for.
pub struct CustomEventView {
    pub event_fd: i32,
    pub registration: Registration,
    /// What was posted and not delivered yet, oldest first.
    pub queued: Seq<usize>,
}

impl View for CustomEvent {
    type V = CustomEventView;

    closed spec fn view(&self) -> CustomEventView {
        CustomEventView {
            event_fd: self.event_fd,
            registration: self.registration,
            queued: queued_items(self.queue),
        }
    }
}

/// What is to be done about a custom event.
#[derive(Clone, Copy, PartialEq, Eq, Debug, Structural)]
pub enum CustomStep {
    /// Call the event's handler with this datum, and ask again.
    Deliver(usize),
    /// Arm the event again; that is all.
    Rearm(Ctl),
}

/// What is done next while data are delivered: the oldest datum goes out, and once there is none,
/// the event is armed again.
pub open spec fn delivery(event: CustomEventView) -> CustomStep {
    if event.queued.len() > 0 {
        CustomStep::Deliver(event.queued[0])
    } else {
        CustomStep::Rearm(rearm(event))
    }
}

/// What is left to deliver after that.
pub open spec fn delivered(event: CustomEventView) -> CustomEventView {
    if event.queued.len() > 0 {
        CustomEventView { queued: event.queued.skip(1), ..event }
    } else {
        event
    }
}

/// Custom events are reported one at a time, for as long as the event is signalled.
pub open spec fn rearm(event: CustomEventView) -> Ctl {
    event.registration.spec_modify(EventMask::spec_only(Event::Read), EventMode::spec_one_shot())
}

impl CustomEvent {
    /// An event with nothing posted.
    pub(crate) fn new(event_fd: i32, registration: Registration) -> (event: CustomEvent)
        ensures
            event@ == (CustomEventView {
                event_fd,
                registration,
                queued: Seq::<usize>::empty(),
            }),
    {
        CustomEvent { event_fd, registration, queue: seg_queue_new() }
    }

    /// Adds a datum, and says which file descriptor to signal.
    pub(crate) fn post(&mut self, data: usize) -> (event_fd: i32)
        ensures
            final(self)@ == (CustomEventView { queued: old(self)@.queued.push(data), ..old(self)@ }),
            event_fd == old(self)@.event_fd,
    {
        seg_queue_push(&mut self.queue, data);
        self.event_fd
    }

    /// Takes out the oldest datum, or arms the event again.
    pub(crate) fn deliver(&mut self) -> (step: CustomStep)
        ensures
            step == delivery(old(self)@),
            final(self)@ == delivered(old(self)@),
    {
        match seg_queue_try_pop(&mut self.queue) {
            Some(data) => CustomStep::Deliver(data),
            None => CustomStep::Rearm(self.rearm()),
        }
    }

    /// Arms the event again.
    pub(crate) fn rearm(&self) -> (ctl: Ctl)
        ensures
            ctl == rearm(self@),
    {
        self.registration.modify(
            EventMask::only(Event::Read),
            EventMode { edge: false, one_shot: true },
        )
    }

    /// The file descriptor that signals the event.
    pub(crate) fn event_fd(&self) -> (event_fd: i32)
        ensures
            event_fd == self@.event_fd,
    {
        self.event_fd
    }
}

} // verus!
