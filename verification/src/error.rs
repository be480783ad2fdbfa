//! Contract-violation diagnostics.
//!
//! Every variant marks a defect in the caller or scheduler, not a recoverable
//! runtime condition: the caller is expected to fail fast on any of them.

use vstd::prelude::*;

use crate::host::HostId;

verus! {

/// A violated caller contract, surfaced as a value so the boundary layer can
/// terminate with a diagnostic instead of corrupting host state.
#[derive(Clone, Copy, Debug, PartialEq, Eq, Structural)]
pub enum TaskError {
    /// `execute` was invoked on a callable already mid-execution.
    ReentrancyViolation,
    /// A foreign-boundary call presented a handle whose identity tag does not
    /// match the expected per-kind constant.
    InvalidForeignHandle { found_tag: u64 },
    /// A null address was supplied where a handle is required.
    NullHandle,
    /// A host-scoped pointer was checked for dereference from a thread whose
    /// active host differs from the host the pointer is bound to.
    LockDisciplineViolation { bound_host: HostId, active_host: HostId },
    /// An operation that needs an active host ran on a thread with none.
    NoActiveHost,
}

} // verus!
