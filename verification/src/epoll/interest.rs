//! Interests: what tasks wait for on one registration.

use crate::epoll::flags::{
    law_interest_word_keeps_mask, law_interest_word_names_conditions,
    law_mask_holds_flagged_conditions, law_mask_is_its_conditions, lemma_union_view, Event,
    EventMask, EventMode,
};
use crate::epoll::registration::{Ctl, Registration};
use crate::epoll::{Entry, Epoll, Handle};
use crate::io::{Async, Error};
use vstd::prelude::*;

verus! {

/// A task that waits for conditions of a file descriptor.
pub struct Interest<T> {
    /// Sets this interest apart from every other one of its registration.
    pub id: u64,
    /// The conditions waited for.
    pub mask: EventMask,
    /// What to notify.
    pub task: T,
}

/// Whether an event wakes a task that waits for `mask`: when all that it reports is waited for,
/// and on every error and hang-up.
pub open spec fn fires(mask: EventMask, events: EventMask) -> bool {
    events@.subset_of(mask@) || events.hup || events.error
}

/// The conditions that at least one of the interests waits for.
pub open spec fn union_mask<T>(interests: Seq<Interest<T>>) -> EventMask {
    EventMask {
        read: exists|i: int| 0 <= i < interests.len() && (#[trigger] interests[i]).mask.read,
        write: exists|i: int| 0 <= i < interests.len() && (#[trigger] interests[i]).mask.write,
        read_hup: exists|i: int|
            0 <= i < interests.len() && (#[trigger] interests[i]).mask.read_hup,
        exceptional: exists|i: int|
            0 <= i < interests.len() && (#[trigger] interests[i]).mask.exceptional,
        error: exists|i: int| 0 <= i < interests.len() && (#[trigger] interests[i]).mask.error,
        hup: exists|i: int| 0 <= i < interests.len() && (#[trigger] interests[i]).mask.hup,
    }
}

/// The interests with the one at `i` taken out and the last one in its place.
pub open spec fn swap_removed<T>(interests: Seq<Interest<T>>, i: int) -> Seq<Interest<T>> {
    interests.update(i, interests.last()).drop_last()
}

/// The interests that are left, and those that an event takes out, when the interests from `i` on
/// are gone through: the last interest moves into every gap.
pub open spec fn sweep<T>(interests: Seq<Interest<T>>, i: int, events: EventMask) -> (
    Seq<Interest<T>>,
    Seq<Interest<T>>,
)
    decreases interests.len() - i,
{
    if i < 0 || i >= interests.len() {
        (interests, Seq::empty())
    } else if fires(interests[i].mask, events) {
        let (kept, fired) = sweep(swap_removed(interests, i), i, events);
        (kept, seq![interests[i]] + fired)
    } else {
        sweep(interests, i + 1, events)
    }
}

/// The request that an interest in `events` makes beside those that are there: none where these
/// ask for all of its conditions, and else one that asks for the conditions of all.
pub open spec fn add_request<T>(
    registration: Registration,
    interests: Seq<Interest<T>>,
    events: EventMask,
) -> Option<Ctl> {
    if events@.subset_of(union_mask(interests)@) {
        None
    } else {
        Some(
            registration.spec_modify(
                union_mask(interests).spec_union(events),
                EventMode::spec_edge_one_shot(),
            ),
        )
    }
}

/// The request that arms a registration for the interests that are left after an event: none where
/// none is left.
pub open spec fn rearm_request<T>(
    registration: Registration,
    interests: Seq<Interest<T>>,
) -> Option<Ctl> {
    if interests.len() == 0 {
        None
    } else {
        Some(
            registration.spec_modify(union_mask(interests), EventMode::spec_edge_one_shot()),
        )
    }
}

/// The tasks of a sequence of interests.
pub open spec fn tasks<T>(interests: Seq<Interest<T>>) -> Seq<T> {
    interests.map_values(|interest: Interest<T>| interest.task)
}

/// No two interests have one number, and all numbers are below `issued`.
pub open spec fn numbered<T>(interests: Seq<Interest<T>>, issued: u64) -> bool {
    &&& forall|i: int| 0 <= i < interests.len() ==> (#[trigger] interests[i]).id < issued
    &&& forall|i: int, j: int|
        0 <= i < j < interests.len() ==> (#[trigger] interests[i]).id != (
        #[trigger] interests[j]).id
}

/// The interests that wait on one registration.
pub struct FuturesRegistrationHandler<T> {
    interests: Vec<Interest<T>>,
    next_id: u64,
}

impl<T> FuturesRegistrationHandler<T> {
    /// The interests that have not fired.
    pub closed spec fn interests(&self) -> Seq<Interest<T>> {
        self.interests@
    }

    /// How many interests were ever added.
    pub closed spec fn issued(&self) -> u64 {
        self.next_id
    }

    /// No two interests have one number, and every number was given out.
    pub open spec fn wf(&self) -> bool {
        numbered(self.interests(), self.issued())
    }

    /// Whether the interest with this number still waits.
    pub open spec fn pending(&self, id: u64) -> bool {
        exists|i: int| 0 <= i < self.interests().len() && (#[trigger] self.interests()[i]).id == id
    }

    /// No interests.
    pub fn new() -> (handler: Self)
        ensures
            handler.wf(),
            handler.interests() == Seq::<Interest<T>>::empty(),
            handler.issued() == 0,
    {
        FuturesRegistrationHandler { interests: Vec::new(), next_id: 0 }
    }

    /// Whether there is a number for another interest.
    pub fn can_add(&self) -> (free: bool)
        ensures
            free == (self.issued() < u64::MAX),
    {
        self.next_id < u64::MAX
    }

    /// Where the interest with this number is.
    fn position(&self, id: u64) -> (found: Option<usize>)
        ensures
            match found {
                Some(i) => i < self.interests().len() && self.interests()[i as int].id == id,
                None => !self.pending(id),
            },
    {
        let mut i: usize = 0;
        while i < self.interests.len()
            invariant
                i <= self.interests.len(),
                forall|j: int| 0 <= j < i ==> (#[trigger] self.interests@[j]).id != id,
            decreases self.interests.len() - i,
        {
            if self.interests[i].id == id {
                return Some(i);
            }
            i += 1;
        }
        None
    }

    /// The conditions that the interests wait for.
    fn interest_mask(&self) -> (mask: EventMask)
        ensures
            mask == union_mask(self.interests()),
    {
        let mut mask = EventMask::empty();
        let mut i: usize = 0;
        while i < self.interests.len()
            invariant
                i <= self.interests.len(),
                mask == union_mask(self.interests@.take(i as int)),
            decreases self.interests.len() - i,
        {
            let ghost before = self.interests@.take(i as int);
            let ghost after = self.interests@.take(i + 1);
            mask = mask | self.interests[i].mask;
            proof {
                assert(after == before.push(self.interests@[i as int]));
                lemma_union_mask_push(before, self.interests@[i as int]);
            }
            i += 1;
        }
        assert(self.interests@.take(i as int) == self.interests@);
        mask
    }

    /// Takes out the interests that an event wakes, and hands back what to notify. Where interests
    /// are left, the registration, which reports one event at a time, is armed again for them.
    pub fn handle_event(&mut self, registration: &Registration, events: EventMask) -> (result: (
        Vec<T>,
        Option<Ctl>,
    ))
        requires
            old(self).wf(),
        ensures
            final(self).wf(),
            final(self).issued() == old(self).issued(),
            final(self).interests() == sweep(old(self).interests(), 0, events).0,
            result.0@ == tasks(sweep(old(self).interests(), 0, events).1),
            result.1 == rearm_request(*registration, final(self).interests()),
    {
        let mut notified: Vec<T> = Vec::new();
        let mut remaining_interest_mask: Option<EventMask> = None;
        let mut i: usize = 0;
        let ghost mut fired: Seq<Interest<T>> = Seq::empty();
        let ghost whole = sweep(self.interests@, 0, events);
        while i < self.interests.len()
            invariant
                i <= self.interests.len(),
                self.wf(),
                self.issued() == old(self).issued(),
                whole == sweep(old(self).interests(), 0, events),
                whole.0 == sweep(self.interests@, i as int, events).0,
                whole.1 == fired + sweep(self.interests@, i as int, events).1,
                notified@ == tasks(fired),
                remaining_interest_mask is None <==> i == 0,
                remaining_interest_mask matches Some(mask) ==> mask == union_mask(
                    self.interests@.take(i as int),
                ),
            decreases self.interests.len() - i,
        {
            let interest_mask = self.interests[i].mask;
            let ghost before = self.interests@;
            if interest_mask.contains(events) || events.hup || events.error {
                let interest = self.interests.swap_remove(i);
                notified.push(interest.task);
                proof {
                    fired = fired.push(interest);
                    assert(self.interests@ == swap_removed(before, i as int));
                    assert(self.interests@.take(i as int) == before.take(i as int));
                    lemma_swap_removed_numbered(before, i as int, self.next_id);
                    assert(notified@ =~= tasks(fired));
                    assert(whole.1 =~= fired + sweep(self.interests@, i as int, events).1);
                }
            } else {
                remaining_interest_mask = match remaining_interest_mask {
                    Some(mask) => Some(mask | interest_mask),
                    None => Some(EventMask::empty() | interest_mask),
                };
                proof {
                    let front = self.interests@.take(i as int);
                    assert(self.interests@.take(i + 1) == front.push(self.interests@[i as int]));
                    lemma_union_mask_push(front, self.interests@[i as int]);
                }
                i += 1;
            }
        }
        proof {
            assert(self.interests@.take(i as int) == self.interests@);
            assert(whole.1 =~= fired);
        }
        let rearm = match remaining_interest_mask {
            Some(mask) => Some(registration.modify(mask, EventMode { edge: true, one_shot: true })),
            None => None,
        };
        (notified, rearm)
    }
}

/// The interests with another task to notify for the one numbered `id`.
pub open spec fn retasked<T>(interests: Seq<Interest<T>>, id: u64, task: T) -> Seq<Interest<T>> {
    interests.map_values(
        |interest: Interest<T>|
            if interest.id == id {
                Interest { task, ..interest }
            } else {
                interest
            },
    )
}

/// A file descriptor whose readiness futures wait for.
#[derive(Clone, Copy, PartialEq, Eq, Debug, Structural)]
pub struct FuturesRegistration {
    pub registration: Registration,
}

impl FuturesRegistration {
    /// Registers a file descriptor without asking for any condition yet; the interests that are
    /// added later do so.
    pub fn new<H>(handle: &Handle, epoll: &mut Epoll<H>, fd: i32, handler: H) -> (result: (
        FuturesRegistration,
        Ctl,
    ))
        requires
            old(epoll).wf(),
            old(epoll).fd() == handle.epoll_fd,
            old(epoll).next_token() < u64::MAX,
        ensures
            final(epoll).wf(),
            final(epoll).follows(*old(epoll)),
            final(epoll).fd() == old(epoll).fd(),
            final(epoll).custom_events() == old(epoll).custom_events(),
            final(epoll).next_token() == old(epoll).next_token() + 1,
            result.0.registration == (Registration { fd, token: old(epoll).next_token() }),
            final(epoll).registrations() == old(epoll).registrations().insert(
                old(epoll).next_token(),
                (Entry { fd, handler }),
            ),
            result.1 == result.0.registration.spec_add(
                EventMask::spec_empty(),
                EventMode::spec_edge_one_shot(),
            ),
    {
        let (registration, ctl) = handle.register_fd(
            epoll,
            fd,
            EventMask::empty(),
            EventMode { edge: true, one_shot: true },
            handler,
        );
        (FuturesRegistration { registration }, ctl)
    }

    /// Adds an interest of a task. Where no other interest asks for all of its conditions, the
    /// registration is to be modified, so that it asks for them; `interest_added` takes what came
    /// of that.
    pub fn add_interest<T>(
        &self,
        inner: &mut FuturesRegistrationHandler<T>,
        events: EventMask,
        task: T,
    ) -> (result: (FutureInterest, Option<Ctl>))
        requires
            old(inner).wf(),
            old(inner).issued() < u64::MAX,
        ensures
            final(inner).wf(),
            final(inner).issued() == old(inner).issued() + 1,
            final(inner).interests() == old(inner).interests().push(
                Interest { id: old(inner).issued(), mask: events, task },
            ),
            result.0.id == old(inner).issued(),
            result.1 == add_request(self.registration, old(inner).interests(), events),
    {
        let old_event_mask = inner.interest_mask();
        let id: u64 = inner.next_id;
        let interest = Interest { id, mask: events, task };
        inner.interests.push(interest);
        inner.next_id = id + 1;
        let ctl = if !old_event_mask.contains(events) {
            Some(
                self.registration.modify(
                    old_event_mask | events,
                    EventMode { edge: true, one_shot: true },
                ),
            )
        } else {
            None
        };
        (FutureInterest { id }, ctl)
    }

    /// Concludes the addition of an interest with what the request that it made returned, where it
    /// made one. An interest whose request failed is not handed out, though it stays with the
    /// others.
    pub fn interest_added(
        &self,
        interest: FutureInterest,
        requested: Option<Result<(), Error>>,
    ) -> (outcome: Result<FutureInterest, Error>)
        ensures
            outcome == (match requested {
                Some(Err(error)) => Err::<FutureInterest, Error>(error),
                _ => Ok::<FutureInterest, Error>(interest),
            }),
    {
        match requested {
            Some(Err(error)) => Err(error),
            _ => Ok(interest),
        }
    }
}

/// Names an interest of a registration.
#[derive(Clone, Copy, PartialEq, Eq, Debug, Structural)]
pub struct FutureInterest {
    pub id: u64,
}

impl FutureInterest {
    /// Registers the task to be notified for this interest, in place of the one before. An interest
    /// that fired notifies nobody any more. Note that this need not be called immediately after
    /// `FuturesRegistration::add_interest`.
    pub fn register<T>(&self, inner: &mut FuturesRegistrationHandler<T>, task: T)
        requires
            old(inner).wf(),
        ensures
            final(inner).wf(),
            final(inner).issued() == old(inner).issued(),
            final(inner).interests() == retasked(old(inner).interests(), self.id, task),
    {
        let found = inner.position(self.id);
        if let Some(i) = found {
            inner.interests[i].task = task;
        }
        proof {
            assert(inner.interests() =~= retasked(old(inner).interests(), self.id, task));
            lemma_retasked_numbered(old(inner).interests(), self.id, task, inner.issued());
        }
    }

    /// Whether an event took the interest out.
    pub fn fired<T>(&self, inner: &FuturesRegistrationHandler<T>) -> (fired: bool)
        requires
            inner.wf(),
            self.id < inner.issued(),
        ensures
            fired == !inner.pending(self.id),
    {
        inner.position(self.id).is_none()
    }

    /// Asks whether the interest fired, and registers the task where it did not.
    pub fn poll<T>(&self, inner: &mut FuturesRegistrationHandler<T>, task: T) -> (ready: Async<()>)
        requires
            old(inner).wf(),
            self.id < old(inner).issued(),
        ensures
            final(inner).wf(),
            final(inner).issued() == old(inner).issued(),
            ready == (if old(inner).pending(self.id) {
                Async::NotReady::<()>
            } else {
                Async::Ready(())
            }),
            final(inner).interests() == (if old(inner).pending(self.id) {
                retasked(old(inner).interests(), self.id, task)
            } else {
                old(inner).interests()
            }),
    {
        if self.fired(inner) {
            Async::Ready(())
        } else {
            self.register(inner, task);
            Async::NotReady
        }
    }
}

/// Another task leaves the numbers as they are.
proof fn lemma_retasked_numbered<T>(interests: Seq<Interest<T>>, id: u64, task: T, issued: u64)
    requires
        numbered(interests, issued),
    ensures
        numbered(retasked(interests, id, task), issued),
{
    let other = retasked(interests, id, task);
    assert forall|i: int| 0 <= i < other.len() implies (#[trigger] other[i]).id == interests[i].id by {}
}

/// Taking an interest out leaves the numbers of the others apart.
proof fn lemma_swap_removed_numbered<T>(interests: Seq<Interest<T>>, i: int, issued: u64)
    requires
        numbered(interests, issued),
        0 <= i < interests.len(),
    ensures
        numbered(swap_removed(interests, i), issued),
{
    let left = swap_removed(interests, i);
    assert forall|k: int| 0 <= k < left.len() implies #[trigger] left[k] == interests[if k == i {
        interests.len() - 1
    } else {
        k
    }] by {}
}

/// An interest more adds its conditions to the union.
proof fn lemma_union_mask_push<T>(interests: Seq<Interest<T>>, interest: Interest<T>)
    ensures
        union_mask(interests.push(interest)) == union_mask(interests).spec_union(interest.mask),
{
    let pushed = interests.push(interest);
    assert(pushed[interests.len() as int] == interest);
    assert forall|i: int| 0 <= i < interests.len() implies #[trigger] pushed[i] == interests[i] by {}
    let a = union_mask(pushed);
    let b = union_mask(interests).spec_union(interest.mask);
    assert forall|i: int| 0 <= i < interests.len() implies pushed[i] == #[trigger] interests[i] by {}
    assert(a.read == b.read);
    assert(a.write == b.write);
    assert(a.read_hup == b.read_hup);
    assert(a.exceptional == b.exceptional);
    assert(a.error == b.error);
    assert(a.hup == b.hup);
}

/// Taking an interest out takes it, and nothing else, away.
proof fn lemma_swap_removed_multiset<T>(interests: Seq<Interest<T>>, i: int)
    requires
        0 <= i < interests.len(),
    ensures
        swap_removed(interests, i).to_multiset().insert(interests[i]) == interests.to_multiset(),
{
    broadcast use vstd::seq_lib::group_to_multiset_ensures;

    let last = interests.len() - 1;
    let left = swap_removed(interests, i);
    if i == last {
        assert(left.push(interests[i]) =~= interests);
    } else {
        let middle = interests.remove(last).remove(i);
        assert(left =~= middle.insert(i, interests[last]));
        assert(interests.remove(last) =~= middle.insert(i, interests[i]));
        assert(interests =~= interests.remove(last).push(interests[last]));
        assert(left.to_multiset().insert(interests[i]) =~= interests.to_multiset());
    }
}

/// Going through the interests from `i` on loses none and adds none; if those before `i` do not
/// fire, exactly those that fire are taken out.
proof fn lemma_sweep<T>(interests: Seq<Interest<T>>, i: int, events: EventMask)
    requires
        0 <= i <= interests.len(),
        forall|k: int| 0 <= k < i ==> !fires((#[trigger] interests[k]).mask, events),
    ensures
        ({
            let (kept, fired) = sweep(interests, i, events);
            &&& kept.to_multiset().add(fired.to_multiset()) == interests.to_multiset()
            &&& forall|k: int| 0 <= k < kept.len() ==> !fires((#[trigger] kept[k]).mask, events)
            &&& forall|k: int| 0 <= k < fired.len() ==> fires((#[trigger] fired[k]).mask, events)
        }),
    decreases interests.len() - i,
{
    broadcast use vstd::seq_lib::group_to_multiset_ensures;

    let (kept, fired) = sweep(interests, i, events);
    if i == interests.len() {
        assert(kept.to_multiset().add(fired.to_multiset()) =~= interests.to_multiset());
    } else if fires(interests[i].mask, events) {
        let left = swap_removed(interests, i);
        assert forall|k: int| 0 <= k < i implies !fires((#[trigger] left[k]).mask, events) by {
            assert(left[k] == interests[k]);
        }
        lemma_sweep(left, i, events);
        lemma_swap_removed_multiset(interests, i);
        let rest = sweep(left, i, events).1;
        assert(fired =~= rest.insert(0, interests[i]));
        assert(kept.to_multiset().add(fired.to_multiset()) =~= interests.to_multiset());
    } else {
        lemma_sweep(interests, i + 1, events);
    }
}

/// An event parts the interests: those that it wakes are taken out and notified, each once, and
/// all others stay, each once.
pub proof fn law_event_parts_interests<T>(interests: Seq<Interest<T>>, events: EventMask)
    ensures
        ({
            let (kept, fired) = sweep(interests, 0, events);
            &&& kept.to_multiset().add(fired.to_multiset()) == interests.to_multiset()
            &&& forall|k: int| 0 <= k < kept.len() ==> !fires((#[trigger] kept[k]).mask, events)
            &&& forall|k: int| 0 <= k < fired.len() ==> fires((#[trigger] fired[k]).mask, events)
        }),
{
    lemma_sweep(interests, 0, events);
}

/// An error or a hang-up wakes every task that waits.
pub proof fn law_error_and_hup_wake_all<T>(interests: Seq<Interest<T>>, events: EventMask)
    requires
        events.error || events.hup,
    ensures
        sweep(interests, 0, events).0 == Seq::<Interest<T>>::empty(),
        sweep(interests, 0, events).1.to_multiset() == interests.to_multiset(),
{
    broadcast use vstd::seq_lib::group_to_multiset_ensures;

    lemma_sweep(interests, 0, events);
    let (kept, fired) = sweep(interests, 0, events);
    if kept.len() > 0 {
        assert(!fires(kept[0].mask, events));
    }
    assert(kept =~= Seq::empty());
    assert(fired.to_multiset() =~= interests.to_multiset());
}

/// A task that waits for what an event reports is notified of it.
pub proof fn law_woken_task_is_notified<T>(
    interests: Seq<Interest<T>>,
    events: EventMask,
    i: int,
)
    requires
        0 <= i < interests.len(),
        fires(interests[i].mask, events),
    ensures
        tasks(sweep(interests, 0, events).1).contains(interests[i].task),
{
    broadcast use vstd::seq_lib::group_to_multiset_ensures;

    lemma_sweep(interests, 0, events);
    let (kept, fired) = sweep(interests, 0, events);
    assert(interests.to_multiset().count(interests[i]) > 0);
    if kept.to_multiset().count(interests[i]) > 0 {
        let k = choose|k: int| 0 <= k < kept.len() && kept[k] == interests[i];
        assert(!fires(kept[k].mask, events));
    }
    assert(fired.to_multiset().count(interests[i]) > 0);
    let k = choose|k: int| 0 <= k < fired.len() && fired[k] == interests[i];
    assert(tasks(fired)[k] == interests[i].task);
}

/// A task that is registered with an interest which has not fired takes the place of the one
/// before: it is notified of an event that wakes the interest.
pub proof fn law_registered_task_is_notified<T>(
    interests: Seq<Interest<T>>,
    i: int,
    task: T,
    events: EventMask,
)
    requires
        0 <= i < interests.len(),
        fires(interests[i].mask, events),
    ensures
        tasks(sweep(retasked(interests, interests[i].id, task), 0, events).1).contains(task),
{
    law_woken_task_is_notified(retasked(interests, interests[i].id, task), events, i);
}

/// A task that is registered with an interest which has fired already is registered in vain:
/// nothing notifies it.
pub proof fn law_fired_interest_notifies_nobody<T>(
    handler: FuturesRegistrationHandler<T>,
    id: u64,
    task: T,
)
    requires
        !handler.pending(id),
    ensures
        retasked(handler.interests(), id, task) == handler.interests(),
{
    assert(retasked(handler.interests(), id, task) =~= handler.interests());
}

/// An interest fires at most once: after an event, the interest with a given number waits if and
/// only if it waited before and the event does not wake it.
pub proof fn law_interest_waits_until_woken<T>(
    before: FuturesRegistrationHandler<T>,
    after: FuturesRegistrationHandler<T>,
    events: EventMask,
    id: u64,
)
    requires
        before.wf(),
        after.interests() == sweep(before.interests(), 0, events).0,
    ensures
        after.pending(id) <==> exists|i: int|
            0 <= i < before.interests().len() && (#[trigger] before.interests()[i]).id == id
                && !fires(before.interests()[i].mask, events),
{
    broadcast use vstd::seq_lib::group_to_multiset_ensures;

    let interests = before.interests();
    lemma_sweep(interests, 0, events);
    let (kept, fired) = sweep(interests, 0, events);
    if after.pending(id) {
        let k = choose|k: int| 0 <= k < kept.len() && (#[trigger] kept[k]).id == id;
        assert(kept.to_multiset().count(kept[k]) > 0);
        assert(interests.to_multiset().count(kept[k]) > 0);
        let i = choose|i: int| 0 <= i < interests.len() && interests[i] == kept[k];
        assert(interests[i].id == id && !fires(interests[i].mask, events));
    }
    if exists|i: int|
        0 <= i < interests.len() && (#[trigger] interests[i]).id == id && !fires(
            interests[i].mask,
            events,
        ) {
        let i = choose|i: int|
            0 <= i < interests.len() && (#[trigger] interests[i]).id == id && !fires(
                interests[i].mask,
                events,
            );
        assert(interests.to_multiset().count(interests[i]) > 0);
        if fired.to_multiset().count(interests[i]) > 0 {
            let k = choose|k: int| 0 <= k < fired.len() && fired[k] == interests[i];
            assert(fires(fired[k].mask, events));
        }
        assert(kept.to_multiset().count(interests[i]) > 0);
        let k = choose|k: int| 0 <= k < kept.len() && kept[k] == interests[i];
        assert(after.interests()[k].id == id);
    }
}

/// The conditions for which the kernel watches after a request, if one was made; `None` stands for
/// a registration that is disarmed, as it is after each event.
pub open spec fn armed_after(armed: Option<EventMask>, request: Option<Ctl>) -> Option<EventMask> {
    match request {
        Some(ctl) => Some(EventMask::spec_from_bits_truncate(ctl.events)),
        None => armed,
    }
}

/// While tasks wait for conditions, the kernel watches for exactly those.
pub open spec fn watched<T>(interests: Seq<Interest<T>>, armed: Option<EventMask>) -> bool {
    union_mask(interests) != EventMask::spec_empty() ==> armed == Some(union_mask(interests))
}

/// Adding an interest keeps the kernel watching for what is waited for, once the request that it
/// makes is carried out.
pub proof fn law_added_interest_is_watched<T>(
    registration: Registration,
    interests: Seq<Interest<T>>,
    interest: Interest<T>,
    armed: Option<EventMask>,
)
    requires
        watched(interests, armed),
    ensures
        watched(
            interests.push(interest),
            armed_after(armed, add_request(registration, interests, interest.mask)),
        ),
{
    lemma_union_mask_push(interests, interest);
    let union = union_mask(interests);
    if interest.mask@.subset_of(union@) {
        lemma_union_view(union, interest.mask);
        assert(union.spec_union(interest.mask)@ =~= union@);
        law_mask_is_its_conditions(union.spec_union(interest.mask), union);
    } else {
        law_interest_word_keeps_mask(
            union.spec_union(interest.mask),
            EventMode::spec_edge_one_shot(),
        );
    }
}

/// An event disarms the registration. Once the request that handling it makes is carried out, the
/// kernel watches for what the tasks that still wait are waiting for.
pub proof fn law_event_leaves_rest_watched<T>(
    registration: Registration,
    interests: Seq<Interest<T>>,
    events: EventMask,
)
    ensures
        watched(
            sweep(interests, 0, events).0,
            armed_after(None, rearm_request(registration, sweep(interests, 0, events).0)),
        ),
{
    let left = sweep(interests, 0, events).0;
    law_interest_word_keeps_mask(union_mask(left), EventMode::spec_edge_one_shot());
}

/// An event notifies the task of every interest that waits for all that the event reports, and on
/// an error or a hang-up the task of every interest, and such an interest does not wait any more.
/// Every other interest stays as it is. So each interest either is notified of once or still waits.
pub proof fn law_event_wakes_what_waits_for_it<T>(
    handler: &mut FuturesRegistrationHandler<T>,
    registration: Registration,
    events: EventMask,
    result: (Vec<T>, Option<Ctl>),
    i: int,
)
    requires
        old(handler).wf(),
        call_ensures(
            FuturesRegistrationHandler::<T>::handle_event,
            (handler, &registration, events),
            result,
        ),
        0 <= i < old(handler).interests().len(),
    ensures
        ({
            let interest = old(handler).interests()[i];
            let woken = {
                ||| forall|event: Event| #[trigger]
                    events@.contains(event) ==> interest.mask@.contains(event)
                ||| events@.contains(Event::Error)
                ||| events@.contains(Event::Hup)
            };
            &&& woken ==> {
                &&& result.0@.contains(interest.task)
                &&& !final(handler).pending(interest.id)
            }
            &&& !woken ==> {
                &&& final(handler).interests().contains(interest)
                &&& final(handler).pending(interest.id)
            }
        }),
        forall|k: int|
            0 <= k < final(handler).interests().len() ==> old(handler).interests().contains(
                #[trigger] final(handler).interests()[k],
            ),
        result.0@.len() + final(handler).interests().len() == old(handler).interests().len(),
        final(handler).issued() == old(handler).issued(),
        final(handler).wf(),
{
    broadcast use vstd::seq_lib::group_to_multiset_ensures;

    let before = old(handler).interests();
    let interest = before[i];
    let (kept, fired) = sweep(before, 0, events);
    law_mask_holds_flagged_conditions(events);
    lemma_sweep(before, 0, events);
    assert(kept.to_multiset().add(fired.to_multiset()).len() == before.to_multiset().len());
    assert forall|k: int| 0 <= k < kept.len() implies before.contains(#[trigger] kept[k]) by {
        assert(kept.to_multiset().count(kept[k]) > 0);
        assert(before.to_multiset().count(kept[k]) > 0);
    }
    law_interest_waits_until_woken(*old(handler), *final(handler), events, interest.id);
    assert(before.to_multiset().count(interest) > 0);
    if fires(interest.mask, events) {
        law_woken_task_is_notified(before, events, i);
    } else {
        if fired.to_multiset().count(interest) > 0 {
            let k = choose|k: int| 0 <= k < fired.len() && fired[k] == interest;
            assert(fires(fired[k].mask, events));
        }
        assert(kept.to_multiset().count(interest) > 0);
    }
}

/// When interests are left after an event, the registration is armed again, under its own file
/// descriptor and token, for exactly the conditions that they wait for, and to report one event on
/// an edge. When none is left, nothing is asked.
pub proof fn law_event_arms_for_those_left<T>(
    handler: &mut FuturesRegistrationHandler<T>,
    registration: Registration,
    events: EventMask,
    result: (Vec<T>, Option<Ctl>),
)
    requires
        old(handler).wf(),
        call_ensures(
            FuturesRegistrationHandler::<T>::handle_event,
            (handler, &registration, events),
            result,
        ),
    ensures
        result.1 is None <==> final(handler).interests().len() == 0,
        result.1 matches Some(ctl) ==> {
            let left = final(handler).interests();
            &&& ctl.op is Modify
            &&& ctl.fd == registration.fd
            &&& ctl.data == registration.token
            &&& (ctl.events & 0x0001 != 0) <==> exists|k: int|
                0 <= k < left.len() && (#[trigger] left[k]).mask.read
            &&& (ctl.events & 0x0002 != 0) <==> exists|k: int|
                0 <= k < left.len() && (#[trigger] left[k]).mask.exceptional
            &&& (ctl.events & 0x0004 != 0) <==> exists|k: int|
                0 <= k < left.len() && (#[trigger] left[k]).mask.write
            &&& (ctl.events & 0x0008 != 0) <==> exists|k: int|
                0 <= k < left.len() && (#[trigger] left[k]).mask.error
            &&& (ctl.events & 0x0010 != 0) <==> exists|k: int|
                0 <= k < left.len() && (#[trigger] left[k]).mask.hup
            &&& (ctl.events & 0x2000 != 0) <==> exists|k: int|
                0 <= k < left.len() && (#[trigger] left[k]).mask.read_hup
            &&& ctl.events & 0x8000_0000 != 0
            &&& ctl.events & 0x4000_0000 != 0
            &&& ctl.events & 0x3fff_dfe0 == 0
        },
{
    law_interest_word_names_conditions(
        union_mask(final(handler).interests()),
        EventMode::spec_edge_one_shot(),
    );
}

/// An interest that is added waits under a number that no other has, with its task and its
/// conditions, and those that were there stay. The kernel is asked for something only where no
/// interest was there for one of the conditions; it is then asked, for this registration, for the
/// conditions of all interests, one event on an edge.
pub proof fn law_added_interest_waits<T>(
    registration: FuturesRegistration,
    inner: &mut FuturesRegistrationHandler<T>,
    events: EventMask,
    task: T,
    result: (FutureInterest, Option<Ctl>),
)
    requires
        old(inner).wf(),
        old(inner).issued() < u64::MAX,
        call_ensures(
            FuturesRegistration::add_interest::<T>,
            (&registration, inner, events, task),
            result,
        ),
    ensures
        final(inner).wf(),
        final(inner).issued() == old(inner).issued() + 1,
        !old(inner).pending(result.0.id),
        final(inner).pending(result.0.id),
        final(inner).interests().len() == old(inner).interests().len() + 1,
        final(inner).interests().last() == (Interest { id: result.0.id, mask: events, task }),
        final(inner).interests().drop_last() == old(inner).interests(),
        result.1 is None <==> forall|event: Event| #[trigger]
            events@.contains(event) ==> exists|k: int|
                0 <= k < old(inner).interests().len() && (#[trigger] old(
                    inner,
                ).interests()[k]).mask@.contains(event),
        result.1 matches Some(ctl) ==> {
            let there = old(inner).interests();
            &&& ctl.op is Modify
            &&& ctl.fd == registration.registration.fd
            &&& ctl.data == registration.registration.token
            &&& (ctl.events & 0x0001 != 0) <==> events.read || exists|k: int|
                0 <= k < there.len() && (#[trigger] there[k]).mask.read
            &&& (ctl.events & 0x0002 != 0) <==> events.exceptional || exists|k: int|
                0 <= k < there.len() && (#[trigger] there[k]).mask.exceptional
            &&& (ctl.events & 0x0004 != 0) <==> events.write || exists|k: int|
                0 <= k < there.len() && (#[trigger] there[k]).mask.write
            &&& (ctl.events & 0x0008 != 0) <==> events.error || exists|k: int|
                0 <= k < there.len() && (#[trigger] there[k]).mask.error
            &&& (ctl.events & 0x0010 != 0) <==> events.hup || exists|k: int|
                0 <= k < there.len() && (#[trigger] there[k]).mask.hup
            &&& (ctl.events & 0x2000 != 0) <==> events.read_hup || exists|k: int|
                0 <= k < there.len() && (#[trigger] there[k]).mask.read_hup
            &&& ctl.events & 0x8000_0000 != 0
            &&& ctl.events & 0x4000_0000 != 0
            &&& ctl.events & 0x3fff_dfe0 == 0
        },
{
    let there = old(inner).interests();
    let union = union_mask(there);
    law_interest_word_names_conditions(union.spec_union(events), EventMode::spec_edge_one_shot());
    assert(final(inner).interests()[there.len() as int].id == result.0.id);
    assert(final(inner).interests().drop_last() =~= there);
    law_union_holds_all_conditions(there);
    if result.1 is None {
        assert forall|event: Event| #[trigger] events@.contains(event) implies exists|k: int|
            0 <= k < there.len() && (#[trigger] there[k]).mask@.contains(event) by {
            assert(union@.contains(event));
        }
    } else {
        let event = choose|event: Event| events@.contains(event) && !union@.contains(event);
        assert(events@.contains(event) && !union@.contains(event));
    }
}

/// A condition is in the union of interests exactly when one of them waits for it.
pub proof fn law_union_holds_all_conditions<T>(interests: Seq<Interest<T>>)
    ensures
        forall|event: Event| #[trigger]
            union_mask(interests)@.contains(event) <==> exists|k: int|
                0 <= k < interests.len() && (#[trigger] interests[k]).mask@.contains(event),
{
    let union = union_mask(interests);
    assert forall|event: Event| #[trigger] union@.contains(event) implies exists|k: int|
        0 <= k < interests.len() && (#[trigger] interests[k]).mask@.contains(event) by {
        let k = match event {
            Event::Read => choose|k: int| 0 <= k < interests.len() && interests[k].mask.read,
            Event::Write => choose|k: int| 0 <= k < interests.len() && interests[k].mask.write,
            Event::ReadHup => choose|k: int|
                0 <= k < interests.len() && interests[k].mask.read_hup,
            Event::Exceptional => choose|k: int|
                0 <= k < interests.len() && interests[k].mask.exceptional,
            Event::Error => choose|k: int| 0 <= k < interests.len() && interests[k].mask.error,
            Event::Hup => choose|k: int| 0 <= k < interests.len() && interests[k].mask.hup,
        };
        assert(interests[k].mask.has(event));
    }
    assert forall|event: Event|
        (exists|k: int| 0 <= k < interests.len() && (#[trigger] interests[k]).mask@.contains(event))
        implies #[trigger] union@.contains(event) by {
        let k = choose|k: int|
            0 <= k < interests.len() && (#[trigger] interests[k]).mask@.contains(event);
        assert(interests[k].mask.has(event));
    }
}

/// Registering a task puts it in the place of the one before, for the interest that it is
/// registered with, and changes nothing else: an event that wakes the interest notifies the new
/// one.
pub proof fn law_registration_replaces_task<T>(
    interest: FutureInterest,
    inner: &mut FuturesRegistrationHandler<T>,
    task: T,
    later: &mut FuturesRegistrationHandler<T>,
    registration: Registration,
    events: EventMask,
    result: (Vec<T>, Option<Ctl>),
    i: int,
)
    requires
        old(inner).wf(),
        call_ensures(FutureInterest::register::<T>, (&interest, inner, task), ()),
        *old(later) == *final(inner),
        call_ensures(
            FuturesRegistrationHandler::<T>::handle_event,
            (later, &registration, events),
            result,
        ),
        0 <= i < old(inner).interests().len(),
    ensures
        final(inner).wf(),
        final(inner).issued() == old(inner).issued(),
        final(inner).interests().len() == old(inner).interests().len(),
        final(inner).interests()[i].id == old(inner).interests()[i].id,
        final(inner).interests()[i].mask == old(inner).interests()[i].mask,
        final(inner).interests()[i].task == if old(inner).interests()[i].id == interest.id {
            task
        } else {
            old(inner).interests()[i].task
        },
        old(inner).interests()[i].id == interest.id && (forall|event: Event| #[trigger]
            events@.contains(event) ==> old(inner).interests()[i].mask@.contains(event))
            ==> result.0@.contains(task),
{
    law_event_wakes_what_waits_for_it(later, registration, events, result, i);
}

/// An interest counts as fired from the event that wakes it on, and not before: until then a poll
/// finds it not ready and registers the task that polls, and from then on it finds it ready and
/// registers nobody.
pub proof fn law_poll_tells_whether_interest_fired<T>(
    interest: FutureInterest,
    inner: &mut FuturesRegistrationHandler<T>,
    task: T,
    fired: bool,
    ready: Async<()>,
)
    requires
        old(inner).wf(),
        interest.id < old(inner).issued(),
        call_ensures(FutureInterest::fired::<T>, (&interest, &*old(inner)), fired),
        call_ensures(FutureInterest::poll::<T>, (&interest, inner, task), ready),
    ensures
        fired <==> forall|i: int|
            0 <= i < old(inner).interests().len() ==> (#[trigger] old(inner).interests()[i]).id
                != interest.id,
        ready is Ready <==> fired,
        fired ==> final(inner).interests() == old(inner).interests(),
        final(inner).wf(),
        final(inner).issued() == old(inner).issued(),
        final(inner).interests().len() == old(inner).interests().len(),
        forall|i: int|
            0 <= i < old(inner).interests().len() ==> {
                let before = old(inner).interests()[i];
                let after = #[trigger] final(inner).interests()[i];
                &&& after.id == before.id
                &&& after.mask == before.mask
                &&& after.task == if before.id == interest.id {
                    task
                } else {
                    before.task
                }
            },
{
}

/// An interest is refused exactly when the request that it made failed, with the error of that
/// request, and is handed out as it is otherwise.
pub proof fn law_interest_fails_with_its_request(
    registration: FuturesRegistration,
    interest: FutureInterest,
    requested: Option<Result<(), Error>>,
    outcome: Result<FutureInterest, Error>,
)
    requires
        call_ensures(
            FuturesRegistration::interest_added,
            (&registration, interest, requested),
            outcome,
        ),
    ensures
        outcome is Err <==> (requested is Some && requested->0 is Err),
        outcome matches Err(error) ==> requested == Some(Err::<(), Error>(error)),
        outcome matches Ok(added) ==> added == interest,
{
}

/// A file descriptor is registered without any condition, to report one event on an edge once it is
/// asked for, and its events reach the handler that it was registered with.
pub proof fn law_futures_registration_starts_without_conditions<H>(
    handle: Handle,
    epoll: &mut Epoll<H>,
    fd: i32,
    handler: H,
    result: (FuturesRegistration, Ctl),
    found: Option<&H>,
)
    requires
        old(epoll).wf(),
        old(epoll).fd() == handle.epoll_fd,
        old(epoll).next_token() < u64::MAX,
        call_ensures(FuturesRegistration::new::<H>, (&handle, epoll, fd, handler), result),
        call_ensures(
            Epoll::<H>::handler,
            (&*final(epoll), result.0.registration.token),
            found,
        ),
    ensures
        result.1.op is Add,
        result.1.fd == fd,
        result.0.registration.fd == fd,
        result.1.data == result.0.registration.token,
        result.1.events == 0xc000_0000,
        !old(epoll).registrations().contains_key(result.0.registration.token),
        found == Some(&handler),
{
    let mask = EventMask::spec_empty();
    law_interest_word_names_conditions(mask, EventMode::spec_edge_one_shot());
    let word = result.1.events;
    assert(word == 0xc000_0000) by (bit_vector)
        requires
            word & 0x0001 == 0,
            word & 0x0002 == 0,
            word & 0x0004 == 0,
            word & 0x0008 == 0,
            word & 0x0010 == 0,
            word & 0x2000 == 0,
            word & 0x8000_0000 != 0,
            word & 0x4000_0000 != 0,
            word & 0x3fff_dfe0 == 0,
    ;
}

/// Nobody is notified of an event but the tasks of interests that it wakes.
pub proof fn law_only_woken_tasks_are_notified<T>(
    handler: &mut FuturesRegistrationHandler<T>,
    registration: Registration,
    events: EventMask,
    result: (Vec<T>, Option<Ctl>),
    k: int,
)
    requires
        old(handler).wf(),
        call_ensures(
            FuturesRegistrationHandler::<T>::handle_event,
            (handler, &registration, events),
            result,
        ),
        0 <= k < result.0@.len(),
    ensures
        exists|i: int|
            0 <= i < old(handler).interests().len() && {
                let interest = #[trigger] old(handler).interests()[i];
                &&& interest.task == result.0@[k]
                &&& {
                    ||| forall|event: Event| #[trigger]
                        events@.contains(event) ==> interest.mask@.contains(event)
                    ||| events@.contains(Event::Error)
                    ||| events@.contains(Event::Hup)
                }
            },
{
    broadcast use vstd::seq_lib::group_to_multiset_ensures;

    let before = old(handler).interests();
    let (kept, fired) = sweep(before, 0, events);
    law_mask_holds_flagged_conditions(events);
    lemma_sweep(before, 0, events);
    assert(fires(fired[k].mask, events));
    assert(fired.to_multiset().count(fired[k]) > 0);
    assert(before.to_multiset().count(fired[k]) > 0);
    let i = choose|i: int| 0 <= i < before.len() && before[i] == fired[k];
    assert(before[i].task == result.0@[k]);
}

/// A registration starts without interests, and says truly whether it has a number for another one.
pub proof fn law_new_handler_has_no_interest<T>(
    made: FuturesRegistrationHandler<T>,
    handler: FuturesRegistrationHandler<T>,
    free: bool,
    id: u64,
)
    requires
        call_ensures(FuturesRegistrationHandler::<T>::new, (), made),
        call_ensures(FuturesRegistrationHandler::<T>::can_add, (&handler,), free),
    ensures
        made.wf(),
        !made.pending(id),
        made.issued() == 0,
        free <==> handler.issued() != u64::MAX,
{
}

} // verus!
