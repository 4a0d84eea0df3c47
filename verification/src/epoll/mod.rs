//! An event queue on top of Linux's `epoll`.

pub mod custom;
pub mod flags;
pub mod interest;
pub mod net;
pub mod registration;
pub mod turn;

pub use crate::epoll::flags::{EventMask, EventMode};
pub use crate::epoll::interest::{FutureInterest, FuturesRegistration};
pub use crate::epoll::registration::Registration;
pub use crate::epoll::turn::Interrupt;

use crate::epoll::custom::{delivered, delivery, rearm, CustomEvent, CustomEventView, CustomStep};
use crate::epoll::flags::{law_interest_word_names_conditions, Event};
use crate::epoll::registration::Ctl;
use crate::epoll::turn::{DispatchStep, Turn};
use crate::io::{AsRegistrar, Error, ErrorKind, EventRegistrar};
use std::collections::HashMap;
use vstd::prelude::*;

verus! {

broadcast use vstd::std_specs::hash::group_hash_axioms;

/// A live registration: what is watched, and what handles its events.
pub struct Entry<H> {
    pub fd: i32,
    pub handler: H,
}

/// What an event queue holds.
pub struct Epoll<H> {
    fd: i32,
    next_token: u64,
    registrations: HashMap<u64, Entry<H>>,
    custom_events: Vec<CustomEvent>,
}

/// Names an event queue.
#[derive(Clone, Copy, PartialEq, Eq, Debug, Structural)]
pub struct Handle {
    pub epoll_fd: i32,
}

/// Names a custom event of an event queue.
#[derive(Clone, Copy, PartialEq, Eq, Hash, Debug, Structural)]
pub struct EventTag {
    /// The event's place among the custom events of its queue.
    pub event: usize,
    /// The event queue that the event belongs to.
    pub epoll_fd: i32,
}

impl<H> Epoll<H> {
    /// The file descriptor of the queue itself.
    pub closed spec fn fd(&self) -> i32 {
        self.fd
    }

    /// The registrations that have not been dropped, by their tokens.
    pub closed spec fn registrations(&self) -> Map<u64, Entry<H>> {
        self.registrations@
    }

    /// The token of the next registration.
    pub closed spec fn next_token(&self) -> u64 {
        self.next_token
    }

    /// The custom events, oldest first.
    pub closed spec fn custom_events(&self) -> Seq<CustomEventView> {
        self.custom_events@.map_values(|event: CustomEvent| event@)
    }

    /// Every token was given out.
    pub open spec fn wf(&self) -> bool {
        given_out(self.registrations(), self.next_token())
    }

    /// Whether a tag names a custom event of this queue.
    pub open spec fn tagged(&self, tag: EventTag) -> bool {
        tag.epoll_fd == self.fd() && tag.event < self.custom_events().len()
    }

    /// This queue is what an operation left of `before`: no custom event is gone.
    pub open spec fn follows(&self, before: Epoll<H>) -> bool {
        &&& self.fd() == before.fd()
        &&& self.custom_events().len() >= before.custom_events().len()
    }

    /// The custom event that `tag` names is new in `after`.
    pub open spec fn tags(&self, tag: EventTag, after: Epoll<H>) -> bool {
        &&& tag.epoll_fd == self.fd()
        &&& tag.event == self.custom_events().len()
        &&& after.custom_events().len() == self.custom_events().len() + 1
    }

    /// This queue differs from `other` in its custom events at most.
    pub open spec fn same_but_events(&self, other: Epoll<H>) -> bool {
        &&& self.fd() == other.fd()
        &&& self.next_token() == other.next_token()
        &&& self.registrations() == other.registrations()
    }

    /// A queue over the file descriptor that `epoll_create1` returned; a negative one means that
    /// it failed with `last_error`.
    pub fn new(fd: i32, last_error: Error) -> (result: Result<Epoll<H>, Error>)
        ensures
            fd < 0 ==> result == Err::<Epoll<H>, Error>(last_error),
            fd >= 0 ==> {
                &&& result matches Ok(epoll)
                &&& epoll.wf()
                &&& epoll.fd() == fd
                &&& epoll.registrations() == Map::<u64, Entry<H>>::empty()
                &&& epoll.next_token() == 0
                &&& epoll.custom_events() == Seq::<CustomEventView>::empty()
            },
    {
        if fd < 0 {
            return Err(last_error);
        }
        let epoll = Epoll {
            fd,
            next_token: 0,
            registrations: HashMap::new(),
            custom_events: Vec::new(),
        };
        assert(epoll.custom_events() =~= Seq::<CustomEventView>::empty());
        Ok(epoll)
    }

    /// A name for this queue.
    pub fn handle(&self) -> (handle: Handle)
        ensures
            handle.epoll_fd == self.fd(),
    {
        Handle { epoll_fd: self.fd }
    }

    /// Whether there is a token for another registration.
    pub fn can_register(&self) -> (free: bool)
        ensures
            free == (self.next_token() < u64::MAX),
    {
        self.next_token < u64::MAX
    }

    /// What `tagged` says.
    pub fn is_tagged(&self, tag: EventTag) -> (tagged: bool)
        ensures
            tagged == self.tagged(tag),
    {
        tag.epoll_fd == self.fd && tag.event < self.custom_events.len()
    }

    /// Concludes a registration with what `epoll_ctl` returned: where it failed, there is no
    /// registration any more.
    pub fn registered(&mut self, registration: Registration, result: Result<(), Error>) -> (outcome:
        Result<Registration, Error>)
        requires
            old(self).wf(),
        ensures
            final(self).wf(),
            final(self).follows(*old(self)),
            final(self).fd() == old(self).fd(),
            final(self).next_token() == old(self).next_token(),
            final(self).custom_events() == old(self).custom_events(),
            match result {
                Ok(_) => {
                    &&& outcome == Ok::<Registration, Error>(registration)
                    &&& final(self).registrations() == old(self).registrations()
                },
                Err(error) => {
                    &&& outcome == Err::<Registration, Error>(error)
                    &&& final(self).registrations() == old(self).registrations().remove(
                        registration.token,
                    )
                },
            },
    {
        match result {
            Ok(_) => Ok(registration),
            Err(error) => {
                self.registrations.remove(&registration.token);
                proof {
                    lemma_given_out(old(self).registrations(), self.next_token());
                }
                Err(error)
            },
        }
    }

    /// Drops a registration: its events are not handled any more, and the request that ends the
    /// watching is to be carried out next.
    pub fn unregister(&mut self, registration: Registration) -> (ctl: Ctl)
        requires
            old(self).wf(),
        ensures
            final(self).wf(),
            final(self).follows(*old(self)),
            final(self).fd() == old(self).fd(),
            final(self).next_token() == old(self).next_token(),
            final(self).custom_events() == old(self).custom_events(),
            final(self).registrations() == old(self).registrations().remove(registration.token),
            ctl == registration.spec_delete(),
    {
        self.registrations.remove(&registration.token);
        proof {
            lemma_given_out(old(self).registrations(), self.next_token());
        }
        registration.delete_request()
    }

    /// What handles the events of a registration, while it lives.
    pub fn handler(&self, token: u64) -> (handler: Option<&H>)
        ensures
            handler == (if self.registrations().contains_key(token) {
                Some(&self.registrations()[token].handler)
            } else {
                None
            }),
    {
        match self.registrations.get(&token) {
            Some(entry) => Some(&entry.handler),
            None => None,
        }
    }

    /// The registration that a token names, while it lives.
    pub fn live(&self, token: u64) -> (registration: Option<Registration>)
        ensures
            registration == (if self.registrations().contains_key(token) {
                Some(Registration { fd: self.registrations()[token].fd, token })
            } else {
                None
            }),
    {
        match self.registrations.get(&token) {
            Some(entry) => Some(Registration { fd: entry.fd, token }),
            None => None,
        }
    }

    /// Starts a custom event over the file descriptor that `eventfd` returned; -1 means that it
    /// failed with `last_error`. The file descriptor is registered, and the request that makes the
    /// queue watch it is to be carried out next.
    pub fn open_custom_event(&mut self, event_fd: i32, last_error: Error, handler: H) -> (result:
        Result<(Registration, Ctl), Error>)
        requires
            old(self).wf(),
            old(self).next_token() < u64::MAX,
        ensures
            final(self).wf(),
            final(self).follows(*old(self)),
            final(self).fd() == old(self).fd(),
            final(self).custom_events() == old(self).custom_events(),
            event_fd == -1 ==> {
                &&& result == Err::<(Registration, Ctl), Error>(last_error)
                &&& final(self).same_but_events(*old(self))
            },
            event_fd != -1 ==> {
                let registration = Registration { fd: event_fd, token: old(self).next_token() };
                &&& result == Ok::<(Registration, Ctl), Error>(
                    (
                        registration,
                        registration.spec_add(
                            EventMask::spec_only(Event::Read),
                            EventMode::spec_one_shot(),
                        ),
                    ),
                )
                &&& final(self).next_token() == old(self).next_token() + 1
                &&& final(self).registrations() == old(self).registrations().insert(
                    registration.token,
                    (Entry { fd: event_fd, handler }),
                )
            },
    {
        if event_fd == -1 {
            return Err(last_error);
        }
        let handle = self.handle();
        Ok(
            handle.register_fd_raw(
                self,
                event_fd,
                EventMask::only(Event::Read),
                EventMode { edge: false, one_shot: true },
                handler,
            ),
        )
    }

    /// Concludes a custom event with what `epoll_ctl` returned for its registration.
    pub fn new_custom_event(&mut self, registration: Registration, result: Result<(), Error>) -> (
    outcome: Result<EventTag, Error>)
        requires
            old(self).wf(),
        ensures
            final(self).wf(),
            final(self).follows(*old(self)),
            final(self).fd() == old(self).fd(),
            final(self).next_token() == old(self).next_token(),
            match result {
                Ok(_) => {
                    &&& outcome matches Ok(tag)
                    &&& tag.event == old(self).custom_events().len()
                    &&& tag.epoll_fd == old(self).fd()
                    &&& final(self).tagged(tag)
                    &&& old(self).tags(tag, *final(self))
                    &&& final(self).registrations() == old(self).registrations()
                    &&& final(self).custom_events() == old(self).custom_events().push(
                        CustomEventView {
                            event_fd: registration.fd,
                            registration,
                            queued: Seq::<usize>::empty(),
                        },
                    )
                },
                Err(error) => {
                    &&& outcome == Err::<EventTag, Error>(error)
                    &&& final(self).custom_events() == old(self).custom_events()
                    &&& final(self).registrations() == old(self).registrations().remove(
                        registration.token,
                    )
                },
            },
    {
        match self.registered(registration, result) {
            Ok(registration) => {
                let event: usize = self.custom_events.len();
                let custom_event = CustomEvent::new(registration.fd, registration);
                let ghost view = custom_event@;
                self.custom_events.push(custom_event);
                assert(self.custom_events() =~= old(self).custom_events().push(view));
                Ok(EventTag { event, epoll_fd: self.fd })
            },
            Err(error) => Err(error),
        }
    }

    /// Handles a report that a custom event is signalled. `count` is what was read from its file
    /// descriptor; when another thread was faster, there is nothing to read, and the event is only
    /// armed again. Otherwise what was posted is delivered.
    pub fn handle_custom_event(&mut self, tag: EventTag, count: Result<u64, Error>) -> (step:
        CustomStep)
        requires
            old(self).wf(),
            old(self).tagged(tag),
            count matches Err(error) ==> error.spec_kind() == ErrorKind::WouldBlock,
        ensures
            final(self).wf(),
            final(self).follows(*old(self)),
            final(self).same_but_events(*old(self)),
            count is Ok && count->Ok_0 != 0 ==> {
                &&& step == delivery(old(self).custom_events()[tag.event as int])
                &&& final(self).custom_events() == old(self).custom_events().update(
                    tag.event as int,
                    delivered(old(self).custom_events()[tag.event as int]),
                )
            },
            count is Err || count->Ok_0 == 0 ==> {
                &&& step == CustomStep::Rearm(rearm(old(self).custom_events()[tag.event as int]))
                &&& final(self).custom_events() == old(self).custom_events()
            },
    {
        let count: u64 = match count {
            Ok(count) => count,
            Err(_) => 0,
        };
        if count != 0 {
            self.deliver_custom_event(tag)
        } else {
            CustomStep::Rearm(self.custom_events[tag.event].rearm())
        }
    }

    /// Goes on with the delivery of what was posted to a custom event.
    pub fn deliver_custom_event(&mut self, tag: EventTag) -> (step: CustomStep)
        requires
            old(self).wf(),
            old(self).tagged(tag),
        ensures
            final(self).wf(),
            final(self).follows(*old(self)),
            final(self).same_but_events(*old(self)),
            step == delivery(old(self).custom_events()[tag.event as int]),
            final(self).custom_events() == old(self).custom_events().update(
                tag.event as int,
                delivered(old(self).custom_events()[tag.event as int]),
            ),
    {
        let step = self.custom_events[tag.event].deliver();
        assert(self.registrations() == old(self).registrations());
        assert(self.custom_events() =~= old(self).custom_events().update(
            tag.event as int,
            delivered(old(self).custom_events()[tag.event as int]),
        ));
        step
    }

    /// The file descriptor that signals a custom event.
    pub fn custom_event_fd(&self, tag: EventTag) -> (event_fd: i32)
        requires
            self.tagged(tag),
        ensures
            event_fd == self.custom_events()[tag.event as int].event_fd,
    {
        self.custom_events[tag.event].event_fd()
    }
}

impl Handle {
    /// Registers a file descriptor with a queue: its token is new, its handler is in place, and
    /// the request that makes the queue watch it is to be carried out next.
    pub fn register_fd_raw<H>(
        &self,
        epoll: &mut Epoll<H>,
        fd: i32,
        event_mask: EventMask,
        mode: EventMode,
        handler: H,
    ) -> (result: (Registration, Ctl))
        requires
            old(epoll).wf(),
            old(epoll).fd() == self.epoll_fd,
            old(epoll).next_token() < u64::MAX,
        ensures
            final(epoll).wf(),
            final(epoll).follows(*old(epoll)),
            final(epoll).fd() == old(epoll).fd(),
            final(epoll).custom_events() == old(epoll).custom_events(),
            final(epoll).next_token() == old(epoll).next_token() + 1,
            result.0 == (Registration { fd, token: old(epoll).next_token() }),
            final(epoll).registrations() == old(epoll).registrations().insert(
                result.0.token,
                (Entry { fd, handler }),
            ),
            result.1 == result.0.spec_add(event_mask, mode),
    {
        let registration = Registration { fd, token: epoll.next_token };
        epoll.next_token = epoll.next_token + 1;
        epoll.registrations.insert(registration.token, Entry { fd, handler });
        proof {
            lemma_given_out(old(epoll).registrations(), old(epoll).next_token());
        }
        (registration, registration.add_request(event_mask, mode))
    }

    /// Registers a file descriptor that its owner keeps open for as long as it is registered.
    pub fn register_fd<H>(
        &self,
        epoll: &mut Epoll<H>,
        fd: i32,
        event_mask: EventMask,
        mode: EventMode,
        handler: H,
    ) -> (result: (Registration, Ctl))
        requires
            old(epoll).wf(),
            old(epoll).fd() == self.epoll_fd,
            old(epoll).next_token() < u64::MAX,
        ensures
            final(epoll).wf(),
            final(epoll).follows(*old(epoll)),
            final(epoll).fd() == old(epoll).fd(),
            final(epoll).custom_events() == old(epoll).custom_events(),
            final(epoll).next_token() == old(epoll).next_token() + 1,
            result.0 == (Registration { fd, token: old(epoll).next_token() }),
            final(epoll).registrations() == old(epoll).registrations().insert(
                result.0.token,
                (Entry { fd, handler }),
            ),
            result.1 == result.0.spec_add(event_mask, mode),
    {
        self.register_fd_raw(epoll, fd, event_mask, mode, handler)
    }

    /// Posts a datum to a custom event. The file descriptor that is returned is to be signalled,
    /// by writing a count of one to it.
    pub fn post_custom_event<H>(&self, epoll: &mut Epoll<H>, tag: EventTag, data: usize) -> (
    event_fd: i32)
        requires
            old(epoll).wf(),
            old(epoll).fd() == self.epoll_fd,
            old(epoll).tagged(tag),
        ensures
            final(epoll).wf(),
            final(epoll).follows(*old(epoll)),
            final(epoll).same_but_events(*old(epoll)),
            final(epoll).custom_events() == old(epoll).custom_events().update(
                tag.event as int,
                posted(old(epoll).custom_events()[tag.event as int], data),
            ),
            event_fd == old(epoll).custom_events()[tag.event as int].event_fd,
    {
        let event_fd: i32 = epoll.custom_events[tag.event].post(data);
        assert(epoll.registrations() == old(epoll).registrations());
        assert(epoll.custom_events() =~= old(epoll).custom_events().update(
            tag.event as int,
            posted(old(epoll).custom_events()[tag.event as int], data),
        ));
        event_fd
    }
}

/// Every token was given out before `next_token`.
pub open spec fn given_out<H>(registrations: Map<u64, Entry<H>>, next_token: u64) -> bool {
    forall|token: u64| #[trigger] registrations.contains_key(token) ==> token < next_token
}

/// Tokens stay given out when a registration goes, and when one is made with the next token.
proof fn lemma_given_out<H>(registrations: Map<u64, Entry<H>>, next_token: u64)
    requires
        given_out(registrations, next_token),
    ensures
        forall|token: u64| given_out(#[trigger] registrations.remove(token), next_token),
        forall|entry: Entry<H>|
            next_token < u64::MAX ==> given_out(
                #[trigger] registrations.insert(next_token, entry),
                (next_token + 1) as u64,
            ),
{
}

/// A custom event with a datum more.
pub open spec fn posted(event: CustomEventView, data: usize) -> CustomEventView {
    CustomEventView { queued: event.queued.push(data), ..event }
}

impl<H> EventRegistrar for Epoll<H> {
    type RegHandle = Handle;
}

impl<H> AsRegistrar<Epoll<H>> for Handle {
    open spec fn registrar(&self) -> Handle {
        *self
    }

    fn as_registrar(&self) -> (handle: &Handle) {
        self
    }
}

/// What `count` deliveries in a row hand to the handler, and what the event holds after them.
pub open spec fn deliveries(event: CustomEventView, count: nat) -> (Seq<usize>, CustomEventView)
    decreases count,
{
    if count == 0 {
        (Seq::empty(), event)
    } else {
        let (data, left) = deliveries(event, (count - 1) as nat);
        match delivery(left) {
            CustomStep::Deliver(datum) => (data.push(datum), delivered(left)),
            CustomStep::Rearm(_) => (data, left),
        }
    }
}

/// What was posted to an event is delivered once each, in the order in which it was posted, and
/// the event is armed again when all is delivered and not before.
pub proof fn law_posted_data_come_out_in_order(event: CustomEventView, count: nat)
    ensures
        count <= event.queued.len() ==> {
            &&& deliveries(event, count).0 == event.queued.take(count as int)
            &&& deliveries(event, count).1 == (CustomEventView {
                queued: event.queued.skip(count as int),
                ..event
            })
            &&& delivery(deliveries(event, count).1) is Rearm <==> count == event.queued.len()
        },
    decreases count,
{
    if count == 0 {
        assert(event.queued.take(0) =~= Seq::<usize>::empty());
        assert(event.queued.skip(0) =~= event.queued);
    } else if count <= event.queued.len() {
        law_posted_data_come_out_in_order(event, (count - 1) as nat);
        let left = event.queued.skip(count - 1);
        assert(left[0] == event.queued[count - 1]);
        assert(event.queued.take(count - 1).push(left[0]) =~= event.queued.take(count as int));
        assert(left.skip(1) =~= event.queued.skip(count as int));
    }
}

/// A datum comes out after all that was posted before it.
pub proof fn law_later_posts_come_out_later(event: CustomEventView, data: usize)
    ensures
        deliveries(posted(event, data), event.queued.len() + 1).0 == event.queued.push(data),
{
    law_posted_data_come_out_in_order(posted(event, data), event.queued.len() + 1);
    let queued = event.queued.push(data);
    assert(queued.take(queued.len() as int) =~= queued);
}

/// The token of a new registration names no registration that lives, so that the events of one
/// registration never reach another.
pub proof fn law_new_token_is_unused<H>(epoll: Epoll<H>)
    requires
        epoll.wf(),
    ensures
        !epoll.registrations().contains_key(epoll.next_token()),
{
}

/// A tag that was given out once is not given out again: it differs from that of every custom event
/// that is made later, whatever is done with the queue in between. `history` holds what each
/// operation left of the queue.
pub proof fn law_tags_differ<H>(history: Seq<Epoll<H>>, i: int, j: int, a: EventTag, b: EventTag)
    requires
        forall|k: int|
            0 <= k < history.len() - 1 ==> history[k + 1].follows(#[trigger] history[k]),
        0 <= i < j < history.len() - 1,
        history[i].tags(a, history[i + 1]),
        history[j].tags(b, history[j + 1]),
    ensures
        a != b,
        history[j].tagged(a),
{
    lemma_custom_events_stay(history, i + 1, j);
}

/// Operations leave the custom events that there are.
proof fn lemma_custom_events_stay<H>(history: Seq<Epoll<H>>, i: int, j: int)
    requires
        forall|k: int|
            0 <= k < history.len() - 1 ==> history[k + 1].follows(#[trigger] history[k]),
        0 <= i <= j < history.len(),
    ensures
        history[j].follows(history[i]),
    decreases j - i,
{
    if i < j {
        lemma_custom_events_stay(history, i, j - 1);
        assert(history[(j - 1) + 1].follows(history[j - 1]));
    }
}

/// A queue is had exactly where the system gave a file descriptor for it, and starts empty: no
/// token finds a registration, and the next registration has a token.
pub proof fn law_queue_starts_empty<H>(
    fd: i32,
    last_error: Error,
    result: Result<Epoll<H>, Error>,
    token: u64,
    tag: EventTag,
)
    requires
        call_ensures(Epoll::<H>::new, (fd, last_error), result),
    ensures
        result is Ok <==> fd >= 0,
        result matches Err(error) ==> error == last_error,
        result matches Ok(epoll) ==> {
            &&& epoll.wf()
            &&& epoll.fd() == fd
            &&& !epoll.registrations().contains_key(token)
            &&& !epoll.tagged(tag)
            &&& epoll.next_token() == 0
        },
{
}

/// A file descriptor that is registered is found again under the token that comes back with its
/// events, with the handler that it was registered with, and no registration that was there is
/// touched. The request starts the watching, for the conditions and in the way that were given.
pub proof fn law_registered_descriptor_is_found<H>(
    handle: Handle,
    epoll: &mut Epoll<H>,
    fd: i32,
    mask: EventMask,
    mode: EventMode,
    handler: H,
    result: (Registration, Ctl),
    found: Option<&H>,
    live: Option<Registration>,
    other: u64,
)
    requires
        old(epoll).wf(),
        old(epoll).next_token() < u64::MAX,
        call_ensures(Epoll::<H>::handle, (&*old(epoll),), handle),
        call_ensures(
            Handle::register_fd::<H>,
            (&handle, epoll, fd, mask, mode, handler),
            result,
        ) || call_ensures(
            Handle::register_fd_raw::<H>,
            (&handle, epoll, fd, mask, mode, handler),
            result,
        ),
        call_ensures(Epoll::<H>::handler, (&*final(epoll), result.1.data), found),
        call_ensures(Epoll::<H>::live, (&*final(epoll), result.1.data), live),
    ensures
        found == Some(&handler),
        live == Some(result.0),
        result.0.fd == fd,
        !old(epoll).registrations().contains_key(result.0.token),
        old(epoll).registrations().contains_key(other) ==> {
            &&& final(epoll).registrations().contains_key(other)
            &&& final(epoll).registrations()[other] == old(epoll).registrations()[other]
        },
        final(epoll).registrations().contains_key(other) ==> old(
            epoll,
        ).registrations().contains_key(other) || other == result.0.token,
        final(epoll).custom_events() == old(epoll).custom_events(),
        result.1.op is Add,
        result.1.fd == fd,
        result.1.data == result.0.token,
        (result.1.events & 0x0001 != 0) == mask.read,
        (result.1.events & 0x0002 != 0) == mask.exceptional,
        (result.1.events & 0x0004 != 0) == mask.write,
        (result.1.events & 0x0008 != 0) == mask.error,
        (result.1.events & 0x0010 != 0) == mask.hup,
        (result.1.events & 0x2000 != 0) == mask.read_hup,
        (result.1.events & 0x8000_0000 != 0) == mode.edge,
        (result.1.events & 0x4000_0000 != 0) == mode.one_shot,
        result.1.events & 0x3fff_dfe0 == 0,
{
    law_interest_word_names_conditions(mask, mode);
}

/// A registration that is dropped is not found any more, and every other one still is; the request
/// ends the watching of its file descriptor.
pub proof fn law_dropped_registration_is_gone<H>(
    epoll: &mut Epoll<H>,
    registration: Registration,
    ctl: Ctl,
    found: Option<&H>,
    live: Option<Registration>,
    other: u64,
)
    requires
        old(epoll).wf(),
        call_ensures(Epoll::<H>::unregister, (epoll, registration), ctl),
        call_ensures(Epoll::<H>::handler, (&*final(epoll), registration.token), found),
        call_ensures(Epoll::<H>::live, (&*final(epoll), registration.token), live),
    ensures
        found is None,
        live is None,
        other != registration.token ==> {
            &&& final(epoll).registrations().contains_key(other) == old(
                epoll,
            ).registrations().contains_key(other)
            &&& final(epoll).registrations()[other] == old(epoll).registrations()[other]
        },
        final(epoll).custom_events() == old(epoll).custom_events(),
        ctl.op is Delete,
        ctl.fd == registration.fd,
{
}

/// A registration whose request failed is not found any more, and its error is handed on; one whose
/// request was carried out stays, as every other does.
pub proof fn law_failed_registration_is_gone<H>(
    epoll: &mut Epoll<H>,
    registration: Registration,
    result: Result<(), Error>,
    outcome: Result<Registration, Error>,
    token: u64,
)
    requires
        old(epoll).wf(),
        call_ensures(Epoll::<H>::registered, (epoll, registration, result), outcome),
    ensures
        outcome is Ok <==> result is Ok,
        outcome matches Ok(made) ==> made == registration,
        outcome matches Err(error) ==> result == Err::<(), Error>(error),
        final(epoll).registrations().contains_key(token) <==> {
            &&& old(epoll).registrations().contains_key(token)
            &&& result is Ok || token != registration.token
        },
        final(epoll).registrations().contains_key(token) ==> final(epoll).registrations()[token]
            == old(epoll).registrations()[token],
{
}

/// A custom event is armed again under the file descriptor and the token of its own registration,
/// for one report that it is signalled, and only when there is nothing to deliver. So the next
/// report of it finds that registration, while it lives, and reaches its handler.
pub proof fn law_custom_event_is_armed_again<H>(
    epoll: &mut Epoll<H>,
    tag: EventTag,
    count: Result<u64, Error>,
    ctl: Ctl,
    turn: &mut Turn,
    step: DispatchStep,
    found: Option<&H>,
)
    requires
        old(epoll).wf(),
        old(epoll).tagged(tag),
        count matches Err(error) ==> error.spec_kind() == ErrorKind::WouldBlock,
        call_ensures(
            Epoll::<H>::handle_custom_event,
            (epoll, tag, count),
            CustomStep::Rearm(ctl),
        ) || call_ensures(
            Epoll::<H>::deliver_custom_event,
            (epoll, tag),
            CustomStep::Rearm(ctl),
        ),
        ({
            let own = old(epoll).custom_events()[tag.event as int].registration;
            &&& old(epoll).registrations().contains_key(own.token)
            &&& old(epoll).registrations()[own.token].fd == own.fd
        }),
        old(turn).wf(),
        old(turn).position() < old(turn).events().len(),
        old(turn).events()[old(turn).position() as int].data == ctl.data,
        call_ensures(Turn::dispatch::<H>, (turn, &*final(epoll)), step),
        call_ensures(Epoll::<H>::handler, (&*final(epoll), ctl.data), found),
    ensures
        ({
            let own = old(epoll).custom_events()[tag.event as int].registration;
            &&& ctl.op is Modify
            &&& ctl.fd == own.fd
            &&& ctl.data == own.token
            &&& ctl.events == 0x4000_0001
            &&& step matches DispatchStep::Handle(registration, _)
            &&& registration == own
            &&& found == Some(&old(epoll).registrations()[own.token].handler)
        }),
        final(epoll).custom_events() == old(epoll).custom_events(),
{
    lemma_one_shot_read_word(ctl.events);
    let events = old(epoll).custom_events();
    let event = events[tag.event as int];
    assert(events.update(tag.event as int, event) =~= events);
}

/// The word that asks for one report that a file descriptor can be read from.
proof fn lemma_one_shot_read_word(word: u32)
    requires
        word == crate::epoll::flags::interest_word(
            EventMask::spec_only(Event::Read),
            EventMode::spec_one_shot(),
        ),
    ensures
        word == 0x4000_0001,
{
    law_interest_word_names_conditions(
        EventMask::spec_only(Event::Read),
        EventMode::spec_one_shot(),
    );
    assert(word == 0x4000_0001) by (bit_vector)
        requires
            word & 0x0001 != 0,
            word & 0x0002 == 0,
            word & 0x0004 == 0,
            word & 0x0008 == 0,
            word & 0x0010 == 0,
            word & 0x2000 == 0,
            word & 0x8000_0000 == 0,
            word & 0x4000_0000 != 0,
            word & 0x3fff_dfe0 == 0,
    ;
}

/// Data leave a custom event one by one, the oldest first, as long as there are any, and neither
/// another event nor a registration is touched. A report behind which there is nothing to read
/// delivers nothing.
pub proof fn law_oldest_datum_is_delivered<H>(
    epoll: &mut Epoll<H>,
    tag: EventTag,
    count: Result<u64, Error>,
    step: CustomStep,
    other: int,
)
    requires
        old(epoll).wf(),
        old(epoll).tagged(tag),
        count matches Err(error) ==> error.spec_kind() == ErrorKind::WouldBlock,
        call_ensures(Epoll::<H>::handle_custom_event, (epoll, tag, count), step) || (count == Ok::<
            u64,
            Error,
        >(1) && call_ensures(Epoll::<H>::deliver_custom_event, (epoll, tag), step)),
    ensures
        ({
            let before = old(epoll).custom_events()[tag.event as int];
            let after = final(epoll).custom_events()[tag.event as int];
            let due = (count matches Ok(signals) && signals > 0) && before.queued.len() > 0;
            &&& step is Deliver <==> due
            &&& step matches CustomStep::Deliver(datum) ==> before.queued == seq![datum]
                + after.queued
            &&& step is Rearm ==> after.queued == before.queued
            &&& after.event_fd == before.event_fd
            &&& after.registration == before.registration
        }),
        final(epoll).custom_events().len() == old(epoll).custom_events().len(),
        0 <= other < old(epoll).custom_events().len() && other != tag.event
            ==> final(epoll).custom_events()[other] == old(epoll).custom_events()[other],
        final(epoll).registrations() == old(epoll).registrations(),
        final(epoll).next_token() == old(epoll).next_token(),
        final(epoll).fd() == old(epoll).fd(),
{
    let before = old(epoll).custom_events()[tag.event as int];
    if before.queued.len() > 0 {
        assert(before.queued =~= seq![before.queued[0]] + before.queued.skip(1));
    }
}

/// Posting adds the datum behind all others of the event, names the file descriptor that signals
/// the event, and touches neither another event nor a registration.
pub proof fn law_posted_datum_comes_last<H>(
    handle: Handle,
    epoll: &mut Epoll<H>,
    tag: EventTag,
    data: usize,
    event_fd: i32,
    signals: i32,
    other: int,
)
    requires
        old(epoll).wf(),
        old(epoll).tagged(tag),
        call_ensures(Epoll::<H>::handle, (&*old(epoll),), handle),
        call_ensures(Handle::post_custom_event::<H>, (&handle, epoll, tag, data), event_fd),
        call_ensures(Epoll::<H>::custom_event_fd, (&*old(epoll), tag), signals),
    ensures
        event_fd == signals,
        ({
            let before = old(epoll).custom_events()[tag.event as int];
            let after = final(epoll).custom_events()[tag.event as int];
            &&& after.queued.last() == data
            &&& after.queued.drop_last() == before.queued
            &&& after.queued.len() == before.queued.len() + 1
            &&& after.event_fd == before.event_fd
            &&& after.registration == before.registration
        }),
        final(epoll).custom_events().len() == old(epoll).custom_events().len(),
        0 <= other < old(epoll).custom_events().len() && other != tag.event
            ==> final(epoll).custom_events()[other] == old(epoll).custom_events()[other],
        final(epoll).registrations() == old(epoll).registrations(),
{
    let before = old(epoll).custom_events()[tag.event as int];
    assert(before.queued.push(data).drop_last() =~= before.queued);
}

/// The life of a custom event: its file descriptor is watched under its token, what is posted
/// signals that file descriptor and is delivered when it is reported, and then the same file
/// descriptor is watched again under the same token, under which the handler of the event is found.
/// `opened`, `made`, `posted_to`, `reported` and `delivered_from` are the queue at one call after
/// the other.
pub proof fn law_custom_event_reaches_its_handler<H>(
    opened: &mut Epoll<H>,
    made: &mut Epoll<H>,
    posted_to: &mut Epoll<H>,
    reported: &mut Epoll<H>,
    delivered_from: &mut Epoll<H>,
    event_fd: i32,
    last_error: Error,
    handler: H,
    registration: Registration,
    add: Ctl,
    tag: EventTag,
    handle: Handle,
    data: usize,
    signalled: i32,
    count: u64,
    first: CustomStep,
    second: CustomStep,
    found: Option<&H>,
)
    requires
        old(opened).wf(),
        old(opened).next_token() < u64::MAX,
        event_fd != -1,
        call_ensures(
            Epoll::<H>::open_custom_event,
            (opened, event_fd, last_error, handler),
            Ok((registration, add)),
        ),
        *old(made) == *final(opened),
        call_ensures(
            Epoll::<H>::new_custom_event,
            (made, registration, Ok::<(), Error>(())),
            Ok(tag),
        ),
        *old(posted_to) == *final(made),
        call_ensures(Epoll::<H>::handle, (&*old(posted_to),), handle),
        call_ensures(Handle::post_custom_event::<H>, (&handle, posted_to, tag, data), signalled),
        *old(reported) == *final(posted_to),
        count > 0,
        call_ensures(
            Epoll::<H>::handle_custom_event,
            (reported, tag, Ok::<u64, Error>(count)),
            first,
        ),
        *old(delivered_from) == *final(reported),
        call_ensures(Epoll::<H>::deliver_custom_event, (delivered_from, tag), second),
        call_ensures(
            Epoll::<H>::handler,
            (&*final(delivered_from), registration.token),
            found,
        ),
    ensures
        registration.fd == event_fd,
        add.op is Add,
        add.fd == event_fd,
        add.data == registration.token,
        add.events == 0x4000_0001,
        signalled == event_fd,
        first == CustomStep::Deliver(data),
        second matches CustomStep::Rearm(ctl) && {
            &&& ctl.op is Modify
            &&& ctl.fd == event_fd
            &&& ctl.data == registration.token
            &&& ctl.events == 0x4000_0001
        },
        found == Some(&handler),
{
    lemma_one_shot_read_word(add.events);
    let event = final(posted_to).custom_events()[tag.event as int];
    assert(event.queued.skip(1).len() == 0);
    lemma_one_shot_read_word(second->Rearm_0.events);
}

/// A custom event that the system refuses a file descriptor for, or whose registration fails,
/// leaves no registration behind and no event; otherwise the event is there under its tag.
pub proof fn law_custom_event_is_made_or_not<H>(
    opened: &mut Epoll<H>,
    made: &mut Epoll<H>,
    event_fd: i32,
    last_error: Error,
    handler: H,
    started: Result<(Registration, Ctl), Error>,
    result: Result<(), Error>,
    outcome: Result<EventTag, Error>,
    tagged: bool,
)
    requires
        old(opened).wf(),
        old(opened).next_token() < u64::MAX,
        call_ensures(
            Epoll::<H>::open_custom_event,
            (opened, event_fd, last_error, handler),
            started,
        ),
        *old(made) == *final(opened),
        started matches Ok((registration, _)) ==> call_ensures(
            Epoll::<H>::new_custom_event,
            (made, registration, result),
            outcome,
        ) && (outcome matches Ok(tag) ==> call_ensures(
            Epoll::<H>::is_tagged,
            (&*final(made), tag),
            tagged,
        )),
    ensures
        started is Err <==> event_fd == -1,
        started matches Err(error) ==> {
            &&& error == last_error
            &&& final(opened).registrations() == old(opened).registrations()
            &&& final(opened).custom_events() == old(opened).custom_events()
        },
        started is Ok ==> {
            &&& outcome is Ok <==> result is Ok
            &&& outcome matches Err(error) ==> {
                &&& result == Err::<(), Error>(error)
                &&& final(made).registrations() == old(opened).registrations()
                &&& final(made).custom_events() == old(opened).custom_events()
            }
            &&& outcome matches Ok(tag) ==> {
                &&& tagged
                &&& !old(opened).tagged(tag)
                &&& tag.event == old(opened).custom_events().len()
                &&& tag.epoll_fd == old(opened).fd()
                &&& final(made).custom_events().len() == old(opened).custom_events().len() + 1
                &&& final(made).custom_events()[tag.event as int].queued.len() == 0
            }
        },
{
    let token = old(opened).next_token();
    assert(old(opened).registrations().insert(token, (Entry { fd: event_fd, handler })).remove(
        token,
    ) =~= old(opened).registrations());
}

/// Handles register with the queue that they name. A queue says truly whether it has a token for
/// another registration, and which tags name its own custom events.
pub proof fn law_handle_is_its_own_registrar<H>(
    epoll: Epoll<H>,
    handle: Handle,
    registrar: &Handle,
    free: bool,
    tag: EventTag,
    tagged: bool,
)
    requires
        call_ensures(Epoll::<H>::handle, (&epoll,), handle),
        call_ensures(<Handle as AsRegistrar<Epoll<H>>>::as_registrar, (&handle,), registrar),
        call_ensures(Epoll::<H>::can_register, (&epoll,), free),
        call_ensures(Epoll::<H>::is_tagged, (&epoll, tag), tagged),
    ensures
        registrar.epoll_fd == epoll.fd(),
        free <==> epoll.next_token() != u64::MAX,
        tagged <==> tag.epoll_fd == handle.epoll_fd && tag.event < epoll.custom_events().len(),
{
}

} // verus!
