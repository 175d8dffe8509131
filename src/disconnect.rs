use crate::state::AppState;
use vstd::prelude::*;

verus! {

/// Holds the address of a connection that registered it, and gives the
/// address back to the registry when released. Release consumes the guard,
/// so it happens at most once.
pub struct DisconnectGuard {
    ip: String,
}

impl DisconnectGuard {
    /// The address this guard releases.
    pub closed spec fn ip_of(&self) -> Seq<char> {
        self.ip@
    }

    pub fn new(ip: String) -> (r: Self)
        ensures
            r.ip_of() == ip@,
    {
        DisconnectGuard { ip }
    }

    /// Removes the guarded address from the registry; nothing else changes.
    pub fn release(self, state: &mut AppState)
        requires
            old(state).wf(),
        ensures
            final(state).wf(),
            final(state).addrs() == old(state).addrs().remove(self.ip_of()),
            final(state).names() == old(state).names(),
    {
        state.unregister_ip(self.ip.as_str());
    }
}

} // verus!
