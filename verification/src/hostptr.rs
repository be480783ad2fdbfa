//! Host-scoped pointers: a raw address bound to the host that owns it.
//!
//! Dereferencing such an address is well-defined only while the calling
//! thread holds the owning host's lock and has that host as its active host.
//! Neither condition can be enforced here; instead the address is released
//! for dereference only through [`HostScopedPointer::addr_checked`], which
//! compares the bound host against the caller's active host and fails fast on
//! mismatch, or through the unchecked accessor whose precondition is purely
//! documented. The dereference itself happens outside this crate, in the
//! foreign code the address is handed to.

use vstd::prelude::*;

use crate::error::TaskError;
use crate::host::HostId;

verus! {

/// A raw address paired with the identity of the host whose memory it
/// points into. Construction never dereferences the address.
#[derive(Clone, Copy, Debug, PartialEq, Eq, Structural)]
pub struct HostScopedPointer {
    addr: usize,
    host: HostId,
}

impl HostScopedPointer {
    pub closed spec fn spec_addr(self) -> usize {
        self.addr
    }

    pub closed spec fn spec_host(self) -> HostId {
        self.host
    }

    /// Binds `addr` to the host that owns the memory it targets.
    pub fn new(host: HostId, addr: usize) -> (p: HostScopedPointer)
        ensures
            p.spec_addr() == addr,
            p.spec_host() == host,
    {
        HostScopedPointer { addr, host }
    }

    /// The host this pointer is scoped to.
    pub fn host(&self) -> (r: HostId)
        ensures
            r == self.spec_host(),
    {
        self.host
    }

    /// Releases the address for dereference after checking lock discipline:
    /// the caller's active host (as reported by the external worker registry)
    /// must be the host this pointer is bound to. On mismatch the address is
    /// withheld and the mismatched identities are reported.
    pub fn addr_checked(&self, active_host: Option<HostId>) -> (r: Result<usize, TaskError>)
        ensures
            active_host == Some(self.spec_host()) ==> r == Ok::<usize, TaskError>(self.spec_addr()),
            active_host is None ==> r == Err::<usize, TaskError>(TaskError::NoActiveHost),
            active_host is Some && active_host->0 != self.spec_host() ==> r == Err::<
                usize,
                TaskError,
            >(
                TaskError::LockDisciplineViolation {
                    bound_host: self.spec_host(),
                    active_host: active_host->0,
                },
            ),
    {
        match active_host {
            Some(a) => {
                if a == self.host {
                    Ok(self.addr)
                } else {
                    Err(TaskError::LockDisciplineViolation { bound_host: self.host, active_host: a })
                }
            },
            None => Err(TaskError::NoActiveHost),
        }
    }

    /// The bound address with no lock-discipline check, mirroring optimized
    /// builds where the check is skipped for performance.
    ///
    /// Documented precondition (not checkable here): the owning host's lock is
    /// held by the calling thread for as long as the address may be
    /// dereferenced.
    pub fn addr_unchecked(&self) -> (r: usize)
        ensures
            r == self.spec_addr(),
    {
        self.addr
    }
}

} // verus!
