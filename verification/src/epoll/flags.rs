//! The flags by which `epoll` names conditions of a file descriptor and ways of reporting them.

use vstd::prelude::*;
use vstd::std_specs::ops::BitOrSpecImpl;

verus! {

/// The bit of `EPOLLIN`.
pub const READ_BIT: u32 = 0x0001;

/// The bit of `EPOLLPRI`.
pub const EXCEPTIONAL_BIT: u32 = 0x0002;

/// The bit of `EPOLLOUT`.
pub const WRITE_BIT: u32 = 0x0004;

/// The bit of `EPOLLERR`.
pub const ERROR_BIT: u32 = 0x0008;

/// The bit of `EPOLLHUP`.
pub const HUP_BIT: u32 = 0x0010;

/// The bit of `EPOLLRDHUP`.
pub const READ_HUP_BIT: u32 = 0x2000;

/// The bit of `EPOLLONESHOT`.
pub const ONE_SHOT_BIT: u32 = 0x4000_0000;

/// The bit of `EPOLLET`.
pub const EDGE_BIT: u32 = 0x8000_0000;

/// A condition of a file descriptor.
#[derive(Clone, Copy, PartialEq, Eq, Debug, Structural)]
pub enum Event {
    /// It can be read from.
    Read,
    /// It can be written to.
    Write,
    /// The peer closed its writing half.
    ReadHup,
    /// Out-of-band data is there.
    Exceptional,
    /// An error came up.
    Error,
    /// The connection is gone.
    Hup,
}

/// A set of conditions of a file descriptor.
#[derive(Clone, Copy, PartialEq, Eq, Debug, Structural)]
pub struct EventMask {
    pub read: bool,
    pub write: bool,
    pub read_hup: bool,
    pub exceptional: bool,
    pub error: bool,
    pub hup: bool,
}

/// How events are reported: the empty mode reports a condition for as long as it lasts.
#[derive(Clone, Copy, PartialEq, Eq, Debug, Structural)]
pub struct EventMode {
    /// Report a condition once, when it comes up.
    pub edge: bool,
    /// Report one event, and nothing more until the registration is modified.
    pub one_shot: bool,
}

/// `bit` where the flag is set, 0 where it is not.
pub open spec fn flag_bit(set: bool, bit: u32) -> u32 {
    if set {
        bit
    } else {
        0
    }
}

impl View for EventMask {
    type V = Set<Event>;

    open spec fn view(&self) -> Set<Event> {
        Set::new(|event: Event| self.has(event))
    }
}

impl EventMask {
    /// Whether a condition is in the set.
    pub open spec fn has(self, event: Event) -> bool {
        match event {
            Event::Read => self.read,
            Event::Write => self.write,
            Event::ReadHup => self.read_hup,
            Event::Exceptional => self.exceptional,
            Event::Error => self.error,
            Event::Hup => self.hup,
        }
    }

    /// The set of no condition.
    pub open spec fn spec_empty() -> EventMask {
        EventMask {
            read: false,
            write: false,
            read_hup: false,
            exceptional: false,
            error: false,
            hup: false,
        }
    }

    /// The set of a single condition.
    pub open spec fn spec_only(event: Event) -> EventMask {
        EventMask {
            read: event is Read,
            write: event is Write,
            read_hup: event is ReadHup,
            exceptional: event is Exceptional,
            error: event is Error,
            hup: event is Hup,
        }
    }

    /// The conditions that are in one of two sets.
    pub open spec fn spec_union(self, other: EventMask) -> EventMask {
        EventMask {
            read: self.read || other.read,
            write: self.write || other.write,
            read_hup: self.read_hup || other.read_hup,
            exceptional: self.exceptional || other.exceptional,
            error: self.error || other.error,
            hup: self.hup || other.hup,
        }
    }

    /// The word in which `epoll` writes the set.
    pub open spec fn spec_bits(self) -> u32 {
        flag_bit(self.read, READ_BIT) | flag_bit(self.write, WRITE_BIT) | flag_bit(
            self.read_hup,
            READ_HUP_BIT,
        ) | flag_bit(self.exceptional, EXCEPTIONAL_BIT) | flag_bit(self.error, ERROR_BIT)
            | flag_bit(self.hup, HUP_BIT)
    }

    /// The conditions that a word of `epoll` names.
    pub open spec fn spec_from_bits_truncate(bits: u32) -> EventMask {
        EventMask {
            read: bits & READ_BIT != 0,
            write: bits & WRITE_BIT != 0,
            read_hup: bits & READ_HUP_BIT != 0,
            exceptional: bits & EXCEPTIONAL_BIT != 0,
            error: bits & ERROR_BIT != 0,
            hup: bits & HUP_BIT != 0,
        }
    }

    /// The set of no condition.
    pub fn empty() -> (mask: EventMask)
        ensures
            mask == EventMask::spec_empty(),
            mask@ == Set::<Event>::empty(),
    {
        EventMask {
            read: false,
            write: false,
            read_hup: false,
            exceptional: false,
            error: false,
            hup: false,
        }
    }

    /// The set of a single condition.
    pub fn only(event: Event) -> (mask: EventMask)
        ensures
            mask == EventMask::spec_only(event),
            mask@ == set![event],
    {
        let mask = EventMask {
            read: matches!(event, Event::Read),
            write: matches!(event, Event::Write),
            read_hup: matches!(event, Event::ReadHup),
            exceptional: matches!(event, Event::Exceptional),
            error: matches!(event, Event::Error),
            hup: matches!(event, Event::Hup),
        };
        assert(mask@ =~= set![event]);
        mask
    }

    /// The word in which `epoll` writes the set.
    pub fn bits(&self) -> (bits: u32)
        ensures
            bits == self.spec_bits(),
    {
        pick(self.read, READ_BIT) | pick(self.write, WRITE_BIT) | pick(self.read_hup, READ_HUP_BIT)
            | pick(self.exceptional, EXCEPTIONAL_BIT) | pick(self.error, ERROR_BIT) | pick(
            self.hup,
            HUP_BIT,
        )
    }

    /// The conditions that a word of `epoll` names; other bits of the word are passed over.
    pub fn from_bits_truncate(bits: u32) -> (mask: EventMask)
        ensures
            mask == EventMask::spec_from_bits_truncate(bits),
    {
        EventMask {
            read: bits & READ_BIT != 0,
            write: bits & WRITE_BIT != 0,
            read_hup: bits & READ_HUP_BIT != 0,
            exceptional: bits & EXCEPTIONAL_BIT != 0,
            error: bits & ERROR_BIT != 0,
            hup: bits & HUP_BIT != 0,
        }
    }

    /// Whether every condition of `other` is in this set.
    pub fn contains(&self, other: EventMask) -> (contained: bool)
        ensures
            contained == other@.subset_of(self@),
    {
        let contained = (!other.read || self.read) && (!other.write || self.write) && (
        !other.read_hup || self.read_hup) && (!other.exceptional || self.exceptional) && (
        !other.error || self.error) && (!other.hup || self.hup);
        proof {
            if !contained {
                assert(exists|event: Event| #[trigger] other@.contains(event) && !self@.contains(event)) by {
                    assert(other.has(Event::Read) == other@.contains(Event::Read));
                    assert(other.has(Event::Write) == other@.contains(Event::Write));
                    assert(other.has(Event::ReadHup) == other@.contains(Event::ReadHup));
                    assert(other.has(Event::Exceptional) == other@.contains(Event::Exceptional));
                    assert(other.has(Event::Error) == other@.contains(Event::Error));
                    assert(other.has(Event::Hup) == other@.contains(Event::Hup));
                }
            }
        }
        contained
    }

    /// Whether this set and `other` have a condition in common.
    pub fn intersects(&self, other: EventMask) -> (shared: bool)
        ensures
            shared == !self@.disjoint(other@),
    {
        let shared = (self.read && other.read) || (self.write && other.write) || (self.read_hup
            && other.read_hup) || (self.exceptional && other.exceptional) || (self.error
            && other.error) || (self.hup && other.hup);
        proof {
            if shared {
                assert(self.has(Event::Read) == self@.contains(Event::Read));
                assert(self.has(Event::Write) == self@.contains(Event::Write));
                assert(self.has(Event::ReadHup) == self@.contains(Event::ReadHup));
                assert(self.has(Event::Exceptional) == self@.contains(Event::Exceptional));
                assert(self.has(Event::Error) == self@.contains(Event::Error));
                assert(self.has(Event::Hup) == self@.contains(Event::Hup));
            }
        }
        shared
    }

    /// Adds the conditions of `other` to this set.
    pub fn insert(&mut self, other: EventMask)
        ensures
            *final(self) == old(self).spec_union(other),
            final(self)@ == old(self)@.union(other@),
    {
        *self = *self | other;
        proof {
            lemma_union_view(*old(self), other);
        }
    }
}

impl core::ops::BitOr for EventMask {
    type Output = EventMask;

    fn bitor(self, other: EventMask) -> (mask: EventMask) {
        EventMask {
            read: self.read || other.read,
            write: self.write || other.write,
            read_hup: self.read_hup || other.read_hup,
            exceptional: self.exceptional || other.exceptional,
            error: self.error || other.error,
            hup: self.hup || other.hup,
        }
    }
}

impl BitOrSpecImpl for EventMask {
    open spec fn obeys_bitor_spec() -> bool {
        true
    }

    open spec fn bitor_req(self, other: EventMask) -> bool {
        true
    }

    open spec fn bitor_spec(self, other: EventMask) -> EventMask {
        self.spec_union(other)
    }
}

/// The union of two masks holds the conditions of both.
pub proof fn lemma_union_view(a: EventMask, b: EventMask)
    ensures
        a.spec_union(b)@ == a@.union(b@),
{
    assert(a.spec_union(b)@ =~= a@.union(b@));
}

/// `bit` where the flag is set, 0 where it is not.
fn pick(set: bool, bit: u32) -> (bits: u32)
    ensures
        bits == flag_bit(set, bit),
{
    if set {
        bit
    } else {
        0
    }
}

impl EventMode {
    /// Report once what comes up, and then nothing until the registration is modified.
    pub open spec fn spec_edge_one_shot() -> EventMode {
        EventMode { edge: true, one_shot: true }
    }

    /// Report one event for a condition that lasts.
    pub open spec fn spec_one_shot() -> EventMode {
        EventMode { edge: false, one_shot: true }
    }

    /// The word in which `epoll` writes the mode.
    pub open spec fn spec_bits(self) -> u32 {
        flag_bit(self.edge, EDGE_BIT) | flag_bit(self.one_shot, ONE_SHOT_BIT)
    }

    /// The word in which `epoll` writes the mode.
    pub fn bits(&self) -> (bits: u32)
        ensures
            bits == self.spec_bits(),
    {
        pick(self.edge, EDGE_BIT) | pick(self.one_shot, ONE_SHOT_BIT)
    }
}

/// The word that asks `epoll` for the conditions of `mask`, reported as `mode` says.
pub open spec fn interest_word(mask: EventMask, mode: EventMode) -> u32 {
    mask.spec_bits() | mode.spec_bits()
}

/// A mask can be read back from the word that asks for it, whatever the mode: the bits of the
/// conditions and of the modes are apart, and no two conditions share a bit.
pub proof fn law_interest_word_keeps_mask(mask: EventMask, mode: EventMode)
    ensures
        EventMask::spec_from_bits_truncate(interest_word(mask, mode)) == mask,
{
    let r = flag_bit(mask.read, READ_BIT);
    let w = flag_bit(mask.write, WRITE_BIT);
    let rh = flag_bit(mask.read_hup, READ_HUP_BIT);
    let ex = flag_bit(mask.exceptional, EXCEPTIONAL_BIT);
    let er = flag_bit(mask.error, ERROR_BIT);
    let h = flag_bit(mask.hup, HUP_BIT);
    let ed = flag_bit(mode.edge, EDGE_BIT);
    let os = flag_bit(mode.one_shot, ONE_SHOT_BIT);
    let word = (r | w | rh | ex | er | h) | (ed | os);
    assert({
        &&& (word & 0x0001 != 0) == (r != 0)
        &&& (word & 0x0004 != 0) == (w != 0)
        &&& (word & 0x2000 != 0) == (rh != 0)
        &&& (word & 0x0002 != 0) == (ex != 0)
        &&& (word & 0x0008 != 0) == (er != 0)
        &&& (word & 0x0010 != 0) == (h != 0)
    }) by (bit_vector)
        requires
            word == (r | w | rh | ex | er | h) | (ed | os),
            r == 0 || r == 0x0001,
            w == 0 || w == 0x0004,
            rh == 0 || rh == 0x2000,
            ex == 0 || ex == 0x0002,
            er == 0 || er == 0x0008,
            h == 0 || h == 0x0010,
            ed == 0 || ed == 0x8000_0000,
            os == 0 || os == 0x4000_0000,
    ;
}

/// Masks that name the same conditions are the same mask.
pub proof fn law_mask_is_its_conditions(a: EventMask, b: EventMask)
    requires
        a@ == b@,
    ensures
        a == b,
{
    assert forall|event: Event| a.has(event) == b.has(event) by {
        assert(a@.contains(event) == a.has(event));
        assert(b@.contains(event) == b.has(event));
    }
    assert(a.has(Event::Read) == b.has(Event::Read));
    assert(a.has(Event::Write) == b.has(Event::Write));
    assert(a.has(Event::ReadHup) == b.has(Event::ReadHup));
    assert(a.has(Event::Exceptional) == b.has(Event::Exceptional));
    assert(a.has(Event::Error) == b.has(Event::Error));
    assert(a.has(Event::Hup) == b.has(Event::Hup));
}

/// A mask holds the conditions whose flags are set.
pub proof fn law_mask_holds_flagged_conditions(mask: EventMask)
    ensures
        mask@.contains(Event::Read) == mask.read,
        mask@.contains(Event::Write) == mask.write,
        mask@.contains(Event::ReadHup) == mask.read_hup,
        mask@.contains(Event::Exceptional) == mask.exceptional,
        mask@.contains(Event::Error) == mask.error,
        mask@.contains(Event::Hup) == mask.hup,
{
}

/// The mask of one condition holds that one and no other, and its word is the bit by which the
/// system knows the condition.
pub proof fn law_condition_has_its_bit(event: Event, mask: EventMask, bits: u32)
    requires
        call_ensures(EventMask::only, (event,), mask),
        call_ensures(EventMask::bits, (&mask,), bits),
    ensures
        forall|other: Event| #[trigger] mask@.contains(other) <==> other == event,
        bits == match event {
            Event::Read => 0x0001u32,
            Event::Exceptional => 0x0002u32,
            Event::Write => 0x0004u32,
            Event::Error => 0x0008u32,
            Event::Hup => 0x0010u32,
            Event::ReadHup => 0x2000u32,
        },
{
    law_mask_holds_flagged_conditions(mask);
    assert(0u32 | 0 == 0 && 0x0001u32 | 0 == 0x0001 && 0u32 | 0x0002 == 0x0002 && 0x0002u32 | 0
        == 0x0002 && 0u32 | 0x0004 == 0x0004 && 0x0004u32 | 0 == 0x0004 && 0u32 | 0x0008 == 0x0008
        && 0x0008u32 | 0 == 0x0008 && 0u32 | 0x0010 == 0x0010 && 0u32 | 0x2000 == 0x2000
        && 0x2000u32 | 0 == 0x2000) by (bit_vector);
}

/// Reading a word and writing it again keeps the bits of conditions and drops all others, and
/// writing a mask and reading it again gives the same mask.
pub proof fn law_words_and_masks_agree(bits: u32, mask: EventMask, again: u32, same: EventMask)
    requires
        call_ensures(EventMask::from_bits_truncate, (bits,), mask),
        call_ensures(EventMask::bits, (&mask,), again),
        call_ensures(EventMask::from_bits_truncate, (again,), same),
    ensures
        again == bits & 0x201f,
        same == mask,
        mask.read == (bits & 0x0001 != 0),
        mask.exceptional == (bits & 0x0002 != 0),
        mask.write == (bits & 0x0004 != 0),
        mask.error == (bits & 0x0008 != 0),
        mask.hup == (bits & 0x0010 != 0),
        mask.read_hup == (bits & 0x2000 != 0),
{
    let r = flag_bit(mask.read, 0x0001);
    let w = flag_bit(mask.write, 0x0004);
    let rh = flag_bit(mask.read_hup, 0x2000);
    let ex = flag_bit(mask.exceptional, 0x0002);
    let er = flag_bit(mask.error, 0x0008);
    let h = flag_bit(mask.hup, 0x0010);
    let word = r | w | rh | ex | er | h;
    assert(word == bits & 0x201f) by (bit_vector)
        requires
            word == r | w | rh | ex | er | h,
            r == if bits & 0x0001 != 0 { 0x0001u32 } else { 0 },
            w == if bits & 0x0004 != 0 { 0x0004u32 } else { 0 },
            rh == if bits & 0x2000 != 0 { 0x2000u32 } else { 0 },
            ex == if bits & 0x0002 != 0 { 0x0002u32 } else { 0 },
            er == if bits & 0x0008 != 0 { 0x0008u32 } else { 0 },
            h == if bits & 0x0010 != 0 { 0x0010u32 } else { 0 },
    ;
    let kept = bits & 0x201f;
    assert({
        &&& kept & 0x0001 == bits & 0x0001
        &&& kept & 0x0004 == bits & 0x0004
        &&& kept & 0x2000 == bits & 0x2000
        &&& kept & 0x0002 == bits & 0x0002
        &&& kept & 0x0008 == bits & 0x0008
        &&& kept & 0x0010 == bits & 0x0010
    }) by (bit_vector)
        requires
            kept == bits & 0x201f,
    ;
}

/// The word of a mode has a bit for each of its flags, and no other.
pub proof fn law_mode_has_its_bits(mode: EventMode, bits: u32)
    requires
        call_ensures(EventMode::bits, (&mode,), bits),
    ensures
        (bits & 0x8000_0000 != 0) == mode.edge,
        (bits & 0x4000_0000 != 0) == mode.one_shot,
        bits & 0x3fff_ffff == 0,
{
    let ed = flag_bit(mode.edge, 0x8000_0000);
    let os = flag_bit(mode.one_shot, 0x4000_0000);
    let word = ed | os;
    assert((word & 0x8000_0000 != 0) == (ed != 0) && (word & 0x4000_0000 != 0) == (os != 0)
        && word & 0x3fff_ffff == 0) by (bit_vector)
        requires
            word == ed | os,
            ed == 0 || ed == 0x8000_0000,
            os == 0 || os == 0x4000_0000,
    ;
}

/// The word that asks for conditions names each of them, and says how to report them, by the bits
/// that the system knows them by; it has no other bits.
pub proof fn law_interest_word_names_conditions(mask: EventMask, mode: EventMode)
    ensures
        ({
            let word = interest_word(mask, mode);
            &&& (word & 0x0001 != 0) == mask.read
            &&& (word & 0x0002 != 0) == mask.exceptional
            &&& (word & 0x0004 != 0) == mask.write
            &&& (word & 0x0008 != 0) == mask.error
            &&& (word & 0x0010 != 0) == mask.hup
            &&& (word & 0x2000 != 0) == mask.read_hup
            &&& (word & 0x8000_0000 != 0) == mode.edge
            &&& (word & 0x4000_0000 != 0) == mode.one_shot
            &&& word & 0x3fff_dfe0 == 0
        }),
{
    let r = flag_bit(mask.read, 0x0001);
    let w = flag_bit(mask.write, 0x0004);
    let rh = flag_bit(mask.read_hup, 0x2000);
    let ex = flag_bit(mask.exceptional, 0x0002);
    let er = flag_bit(mask.error, 0x0008);
    let h = flag_bit(mask.hup, 0x0010);
    let ed = flag_bit(mode.edge, 0x8000_0000);
    let os = flag_bit(mode.one_shot, 0x4000_0000);
    let word = (r | w | rh | ex | er | h) | (ed | os);
    assert({
        &&& (word & 0x0001 != 0) == (r != 0)
        &&& (word & 0x0002 != 0) == (ex != 0)
        &&& (word & 0x0004 != 0) == (w != 0)
        &&& (word & 0x0008 != 0) == (er != 0)
        &&& (word & 0x0010 != 0) == (h != 0)
        &&& (word & 0x2000 != 0) == (rh != 0)
        &&& (word & 0x8000_0000 != 0) == (ed != 0)
        &&& (word & 0x4000_0000 != 0) == (os != 0)
        &&& word & 0x3fff_dfe0 == 0
    }) by (bit_vector)
        requires
            word == (r | w | rh | ex | er | h) | (ed | os),
            r == 0 || r == 0x0001,
            w == 0 || w == 0x0004,
            rh == 0 || rh == 0x2000,
            ex == 0 || ex == 0x0002,
            er == 0 || er == 0x0008,
            h == 0 || h == 0x0010,
            ed == 0 || ed == 0x8000_0000,
            os == 0 || os == 0x4000_0000,
    ;
}

/// Comparing and joining masks goes condition by condition: a mask contains another when it has
/// every condition of it, the two intersect when they share one, and after an insertion the mask
/// has the conditions of both.
pub proof fn law_masks_compare_by_condition(
    mask: &mut EventMask,
    other: EventMask,
    contained: bool,
    shared: bool,
)
    requires
        call_ensures(EventMask::contains, (&*old(mask), other), contained),
        call_ensures(EventMask::intersects, (&*old(mask), other), shared),
        call_ensures(EventMask::insert, (mask, other), ()),
    ensures
        contained <==> {
            &&& other.read ==> old(mask).read
            &&& other.write ==> old(mask).write
            &&& other.read_hup ==> old(mask).read_hup
            &&& other.exceptional ==> old(mask).exceptional
            &&& other.error ==> old(mask).error
            &&& other.hup ==> old(mask).hup
        },
        shared <==> {
            ||| other.read && old(mask).read
            ||| other.write && old(mask).write
            ||| other.read_hup && old(mask).read_hup
            ||| other.exceptional && old(mask).exceptional
            ||| other.error && old(mask).error
            ||| other.hup && old(mask).hup
        },
        contained <==> *final(mask) == *old(mask),
        final(mask).read == (old(mask).read || other.read),
        final(mask).write == (old(mask).write || other.write),
        final(mask).read_hup == (old(mask).read_hup || other.read_hup),
        final(mask).exceptional == (old(mask).exceptional || other.exceptional),
        final(mask).error == (old(mask).error || other.error),
        final(mask).hup == (old(mask).hup || other.hup),
{
    law_mask_holds_flagged_conditions(*old(mask));
    law_mask_holds_flagged_conditions(other);
    if contained {
        assert(forall|event: Event| other@.contains(event) ==> #[trigger] old(mask)@.contains(event));
    } else {
        assert(exists|event: Event| #[trigger] other@.contains(event) && !old(mask)@.contains(event));
    }
}

/// The empty mask has no condition, and its word no bit.
pub proof fn law_empty_mask_has_no_bit(mask: EventMask, bits: u32)
    requires
        call_ensures(EventMask::empty, (), mask),
        call_ensures(EventMask::bits, (&mask,), bits),
    ensures
        bits == 0,
        forall|event: Event| !#[trigger] mask@.contains(event),
{
    assert(0u32 | 0 == 0) by (bit_vector);
}

} // verus!
