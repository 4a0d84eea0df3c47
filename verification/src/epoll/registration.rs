//! Registrations of file descriptors, and the requests that make and change them.

use crate::epoll::flags::{
    interest_word, law_interest_word_names_conditions, EventMask, EventMode,
};
use vstd::prelude::*;

verus! {

/// What `epoll_ctl` is to do.
#[derive(Clone, Copy, PartialEq, Eq, Debug, Structural)]
pub enum CtlOp {
    /// Start watching a file descriptor.
    Add,
    /// Watch it for other conditions.
    Modify,
    /// Stop watching it.
    Delete,
}

/// A call of `epoll_ctl`.
#[derive(Clone, Copy, PartialEq, Eq, Debug, Structural)]
pub struct Ctl {
    pub op: CtlOp,
    /// The file descriptor to watch.
    pub fd: i32,
    /// The conditions to watch for, and how to report them.
    pub events: u32,
    /// The datum that comes back with every event.
    pub data: u64,
}

/// A file descriptor that an event queue watches.
#[derive(Clone, Copy, PartialEq, Eq, Debug, Structural)]
pub struct Registration {
    pub fd: i32,
    /// The datum by which the queue finds the registration again.
    pub token: u64,
}

impl Registration {
    /// The request that asks for other conditions.
    pub open spec fn spec_modify(self, event_mask: EventMask, mode: EventMode) -> Ctl {
        Ctl {
            op: CtlOp::Modify,
            fd: self.fd,
            events: interest_word(event_mask, mode),
            data: self.token,
        }
    }

    /// The request that starts watching.
    pub open spec fn spec_add(self, event_mask: EventMask, mode: EventMode) -> Ctl {
        Ctl {
            op: CtlOp::Add,
            fd: self.fd,
            events: interest_word(event_mask, mode),
            data: self.token,
        }
    }

    /// The request that stops watching.
    pub open spec fn spec_delete(self) -> Ctl {
        Ctl { op: CtlOp::Delete, fd: self.fd, events: 0, data: 0 }
    }

    /// Asks for other conditions, or for the same ones once more after a one-shot event.
    pub fn modify(&self, event_mask: EventMask, mode: EventMode) -> (ctl: Ctl)
        ensures
            ctl == self.spec_modify(event_mask, mode),
    {
        Ctl {
            op: CtlOp::Modify,
            fd: self.fd,
            events: event_mask.bits() | mode.bits(),
            data: self.token,
        }
    }

    /// Asks to start watching.
    pub(crate) fn add_request(&self, event_mask: EventMask, mode: EventMode) -> (ctl: Ctl)
        ensures
            ctl == self.spec_add(event_mask, mode),
    {
        Ctl { op: CtlOp::Add, fd: self.fd, events: event_mask.bits() | mode.bits(), data: self.token }
    }

    /// Asks to stop watching.
    pub(crate) fn delete_request(&self) -> (ctl: Ctl)
        ensures
            ctl == self.spec_delete(),
    {
        Ctl { op: CtlOp::Delete, fd: self.fd, events: 0, data: 0 }
    }
}

/// A request to modify a registration is about its own file descriptor, comes back with its own
/// token, and asks for the conditions and the way of reporting that were given.
pub proof fn law_modification_is_of_own_registration(
    registration: Registration,
    mask: EventMask,
    mode: EventMode,
    ctl: Ctl,
)
    requires
        call_ensures(Registration::modify, (&registration, mask, mode), ctl),
    ensures
        ctl.op is Modify,
        ctl.fd == registration.fd,
        ctl.data == registration.token,
        (ctl.events & 0x0001 != 0) == mask.read,
        (ctl.events & 0x0002 != 0) == mask.exceptional,
        (ctl.events & 0x0004 != 0) == mask.write,
        (ctl.events & 0x0008 != 0) == mask.error,
        (ctl.events & 0x0010 != 0) == mask.hup,
        (ctl.events & 0x2000 != 0) == mask.read_hup,
        (ctl.events & 0x8000_0000 != 0) == mode.edge,
        (ctl.events & 0x4000_0000 != 0) == mode.one_shot,
        ctl.events & 0x3fff_dfe0 == 0,
{
    law_interest_word_names_conditions(mask, mode);
}

} // verus!
