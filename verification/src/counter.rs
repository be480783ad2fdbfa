//! Live-object counting for leak auditing.
//!
//! Conceptually this is one process-wide record per object kind, adjusted by
//! every constructor and destructor of a tracked kind and only ever
//! inspected, never reset. Verified code holds no process-global state, so
//! the registry is an explicit value owned by the embedding layer and
//! threaded through the operations that adjust it.

use vstd::prelude::*;

verus! {

/// Registry of live-instance counts, one per tracked object kind.
///
/// The task core tracks a single kind: live task-reference handles.
pub struct CounterRegistry {
    task_ref_handles: u64,
}

impl CounterRegistry {
    /// Count of live task-reference handles.
    pub closed spec fn spec_task_refs(self) -> u64 {
        self.task_ref_handles
    }

    /// An empty registry: no live object of any kind.
    pub fn new() -> (r: CounterRegistry)
        ensures
            r.spec_task_refs() == 0,
    {
        CounterRegistry { task_ref_handles: 0 }
    }

    /// Count of live task-reference handles, for leak assertions such as
    /// "zero live handles at the end of a run".
    pub fn task_refs(&self) -> (r: u64)
        ensures
            r == self.spec_task_refs(),
    {
        self.task_ref_handles
    }

    /// Records construction of one task-reference handle.
    pub(crate) fn record_task_ref_created(&mut self)
        requires
            old(self).spec_task_refs() < u64::MAX,
        ensures
            final(self).spec_task_refs() == old(self).spec_task_refs() + 1,
    {
        self.task_ref_handles = self.task_ref_handles + 1;
    }

    /// Records destruction of one task-reference handle.
    pub(crate) fn record_task_ref_destroyed(&mut self)
        requires
            old(self).spec_task_refs() >= 1,
        ensures
            final(self).spec_task_refs() == old(self).spec_task_refs() - 1,
    {
        self.task_ref_handles = self.task_ref_handles - 1;
    }
}

} // verus!
