//! What the sockets of every backend share.

use vstd::prelude::*;

verus! {

/// The family of addresses that a socket is made for.
#[derive(Clone, Copy, PartialEq, Eq, Debug, Structural)]
pub enum Family {
    V4,
    V6,
}

impl Family {
    /// The family of the socket that connects to an address.
    pub fn of_addr(is_ipv4: bool) -> (family: Family)
        ensures
            family == (if is_ipv4 {
                Family::V4
            } else {
                Family::V6
            }),
    {
        if is_ipv4 {
            Family::V4
        } else {
            Family::V6
        }
    }
}

} // verus!
