//! Safety latch for loopback firewall exemptions.
//!
//! Granting an AppContainer a loopback exemption weakens its network
//! isolation, so the request must be acknowledged explicitly. The
//! acknowledgement is a single-use token: [`LoopbackAdd::confirm_debug_only`]
//! consumes the request and produces the only value the exemption call
//! accepts, so an unacknowledged request cannot reach the firewall at all,
//! and one acknowledgement cannot be replayed for a second request.

use vstd::prelude::*;

use crate::sid::AppContainerSid;

verus! {

/// A request to exempt one AppContainer from loopback isolation.
pub struct LoopbackAdd(pub AppContainerSid);

/// An acknowledged loopback-exemption request. Values of this type come
/// from [`LoopbackAdd::confirm_debug_only`] alone, and each is consumed by
/// a single exemption call.
pub struct ConfirmedLoopbackAdd {
    sid: AppContainerSid,
}

impl LoopbackAdd {
    /// Acknowledges that the caller intentionally weakens network isolation
    /// for this AppContainer, consuming the request.
    pub fn confirm_debug_only(self) -> (r: ConfirmedLoopbackAdd)
        ensures
            r@ == self.0@,
    {
        ConfirmedLoopbackAdd { sid: self.0 }
    }
}

impl View for ConfirmedLoopbackAdd {
    type V = Seq<char>;

    closed spec fn view(&self) -> Seq<char> {
        self.sid@
    }
}

impl ConfirmedLoopbackAdd {
    /// Surrenders the token, yielding the SID the exemption applies to.
    pub fn into_sid(self) -> (r: AppContainerSid)
        ensures
            r@ == self@,
    {
        self.sid
    }
}

} // verus!
