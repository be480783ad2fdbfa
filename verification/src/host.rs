//! The host handle a task is executed against.
//!
//! The simulated host itself (its state, memory and lock) is an external
//! collaborator; this module carries only what a task needs of it: the host's
//! identity and the raw address under which foreign code knows the host.

use vstd::prelude::*;

verus! {

/// Identity of a simulated host.
#[derive(Clone, Copy, Debug, Hash, PartialEq, Eq, Structural)]
pub struct HostId(pub u64);

/// Handle to the host a task is currently being executed against.
///
/// Holding a `Host` stands for the external precondition "this host's lock is
/// held by the calling thread": the layer that owns the real host constructs
/// one only after taking that lock.
pub struct Host {
    id: HostId,
    raw_addr: usize,
}

impl Host {
    /// The identity this handle was built for.
    pub closed spec fn spec_id(self) -> HostId {
        self.id
    }

    /// The foreign address this handle was built for.
    pub closed spec fn spec_raw_addr(self) -> usize {
        self.raw_addr
    }

    /// Binds a host identity to the raw address under which foreign code
    /// refers to the host (`0` when there is no foreign counterpart).
    pub fn new(id: HostId, raw_addr: usize) -> (h: Host)
        ensures
            h.spec_id() == id,
            h.spec_raw_addr() == raw_addr,
    {
        Host { id, raw_addr }
    }

    pub fn id(&self) -> (r: HostId)
        ensures
            r == self.spec_id(),
    {
        self.id
    }

    /// The raw address handed to foreign callbacks in place of this handle.
    pub fn raw_addr(&self) -> (r: usize)
        ensures
            r == self.spec_raw_addr(),
    {
        self.raw_addr
    }
}

} // verus!
