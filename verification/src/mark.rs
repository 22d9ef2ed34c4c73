//! The firewall mark applied to sockets.

use vstd::prelude::*;

verus! {

/// The firewall mark applied to sockets created by this library, where `0` means no mark is set.
#[derive(Clone, Copy, Debug, PartialEq, Eq, Structural)]
pub struct SocketMark {
    value: u32,
}

impl SocketMark {
    /// The mark, where `0` means none.
    pub closed spec fn spec_value(self) -> u32 {
        self.value
    }

    /// The initial mark, which leaves sockets unmarked.
    pub fn new() -> (mark: SocketMark)
        ensures
            mark.spec_value() == 0,
    {
        SocketMark { value: 0 }
    }

    /// The mark to apply to a socket before it is used, if any.
    pub fn to_apply(&self) -> (mark: Option<u32>)
        ensures
            mark == (if self.spec_value() != 0 {
                Some(self.spec_value())
            } else {
                None
            }),
    {
        if self.value != 0 {
            Some(self.value)
        } else {
            None
        }
    }
}

/// Sets the firewall mark (`SO_MARK`) applied to all sockets created from now on.
/// Marks let routing and firewall rules classify this library's traffic, e.g. to route
/// requests toward the gateway around a VPN which would otherwise capture them.
/// A mark of `0`, the initial value, leaves sockets unmarked.
/// # Notes
/// Marks only exist on Linux and Android; the value is ignored elsewhere. Setting a mark
/// requires the `CAP_NET_ADMIN` capability, without which socket creation will fail rather
/// than send traffic without its mark.
pub fn set_fwmark(mark: &mut SocketMark, fwmark: u32)
    ensures
        final(mark).spec_value() == fwmark,
{
    mark.value = fwmark;
}

/// The firewall mark currently applied to sockets, where `0` means none.
#[must_use]
pub fn fwmark(mark: &SocketMark) -> (fwmark: u32)
    ensures
        fwmark == mark.spec_value(),
{
    mark.value
}

} // verus!
