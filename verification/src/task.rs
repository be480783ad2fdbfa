//! The task reference: a shared, run-once-at-a-time handle to deferred work.
//!
//! A `TaskRef` owns one callable together with the bookkeeping that makes it
//! safe to share: an explicit count of outstanding handles, an exclusive-access
//! guard that rejects reentrant or concurrent execution instead of blocking,
//! and the identity tag checked at the foreign boundary. The embedding layer
//! that really shares the value across threads (behind its own cell) drives
//! these operations; every state transition is decided and verified here.

use vstd::prelude::*;

use crate::boundary::TASK_REF_TAG;
use crate::counter::CounterRegistry;
use crate::error::TaskError;
use crate::host::Host;

verus! {

/// A unit of work over a host, supplied by the embedding or by foreign code.
///
/// No contract is placed on either method: what a callable does to the host
/// it is given is the caller's business, not this crate's.
pub trait Callable {
    /// Performs the work against `host`. The caller must already hold the
    /// lock of `host`; the callable must not let any host-scoped address it
    /// uses escape the scope in which that lock is held.
    fn call(&mut self, host: &mut Host) -> Result<(), TaskError>;

    /// Releases whatever the callable owns. Invoked exactly once, when the
    /// task reference that wraps the callable loses its last handle.
    fn dispose(self);
}

/// Exclusive-access guard over the wrapped callable: `Executing` while one
/// execution is in progress, `Idle` otherwise.
#[derive(Clone, Copy, Debug, PartialEq, Eq, Structural)]
pub(crate) enum GuardState {
    Idle,
    Executing,
}

/// Shared ownership of one callable.
///
/// The handle count says how many co-owners exist; the callable is disposed of
/// exactly when the count returns to zero. While an execution is in progress
/// the callable is checked out of the slot, so a second execution attempt
/// finds the guard held and is rejected as a [`TaskError::ReentrancyViolation`].
pub struct TaskRef<T: Callable> {
    tag: u64,
    guard: GuardState,
    handles: u64,
    callable: Option<T>,
}

impl<T: Callable> TaskRef<T> {
    /// The identity tag stored for foreign-boundary validation.
    pub closed spec fn spec_tag(self) -> u64 {
        self.tag
    }

    /// Number of outstanding handles sharing this callable.
    pub closed spec fn spec_count(self) -> u64 {
        self.handles
    }

    /// Whether an execution is in progress (the callable is checked out).
    pub closed spec fn spec_is_executing(self) -> bool {
        self.guard == GuardState::Executing
    }

    /// The wrapped callable, `None` while checked out or after disposal.
    pub closed spec fn spec_callable(self) -> Option<T> {
        self.callable
    }

    /// At least one handle is outstanding.
    pub open spec fn spec_is_live(self) -> bool {
        self.spec_count() >= 1
    }

    /// The callable has been disposed of: no execution is in progress and the
    /// slot is empty for good.
    pub open spec fn spec_is_disposed(self) -> bool {
        !self.spec_is_executing() && self.spec_callable() is None
    }

    /// Structural invariant: the tag is the task-reference tag; the callable
    /// is absent exactly while checked out for execution or after the last
    /// handle released it.
    pub closed spec fn wf(self) -> bool {
        &&& self.tag == TASK_REF_TAG
        &&& (self.guard == GuardState::Executing ==> self.callable is None)
        &&& (self.guard == GuardState::Idle ==> (self.callable is Some <==> self.handles >= 1))
    }

    /// Wraps `callable` into a task with one handle, recording the new handle
    /// in the live-object registry. Never fails.
    pub fn new(callable: T, reg: &mut CounterRegistry) -> (t: TaskRef<T>)
        requires
            old(reg).spec_task_refs() < u64::MAX,
        ensures
            t.wf(),
            t.spec_count() == 1,
            !t.spec_is_executing(),
            t.spec_callable() == Some(callable),
            t.spec_tag() == TASK_REF_TAG,
            final(reg).spec_task_refs() == old(reg).spec_task_refs() + 1,
    {
        reg.record_task_ref_created();
        TaskRef { tag: TASK_REF_TAG, guard: GuardState::Idle, handles: 1, callable: Some(callable) }
    }

    /// Adds one co-owning handle in O(1), recording it in the registry.
    /// Never fails; the guard and the callable are untouched.
    pub fn clone_handle(&mut self, reg: &mut CounterRegistry)
        requires
            old(self).wf(),
            old(self).spec_is_live(),
            old(self).spec_count() < u64::MAX,
            old(reg).spec_task_refs() < u64::MAX,
        ensures
            final(self).wf(),
            final(self).spec_count() == old(self).spec_count() + 1,
            final(self).spec_is_executing() == old(self).spec_is_executing(),
            final(self).spec_callable() == old(self).spec_callable(),
            final(self).spec_tag() == old(self).spec_tag(),
            final(reg).spec_task_refs() == old(reg).spec_task_refs() + 1,
    {
        reg.record_task_ref_created();
        self.handles = self.handles + 1;
    }

    /// Releases one handle, recording it in the registry. When the last
    /// handle goes and no execution is in progress, the callable is disposed
    /// of on the spot; when the last handle goes mid-execution, disposal is
    /// deferred to [`TaskRef::end_execute`]. Returns whether the callable was
    /// disposed of by this call.
    pub fn release_handle(&mut self, reg: &mut CounterRegistry) -> (disposed: bool)
        requires
            old(self).wf(),
            old(self).spec_is_live(),
            old(reg).spec_task_refs() >= 1,
        ensures
            final(self).wf(),
            final(self).spec_count() == old(self).spec_count() - 1,
            final(self).spec_is_executing() == old(self).spec_is_executing(),
            final(self).spec_tag() == old(self).spec_tag(),
            final(reg).spec_task_refs() == old(reg).spec_task_refs() - 1,
            disposed == (old(self).spec_count() == 1 && !old(self).spec_is_executing()),
            disposed ==> final(self).spec_is_disposed(),
            !disposed ==> final(self).spec_callable() == old(self).spec_callable(),
    {
        reg.record_task_ref_destroyed();
        self.handles = self.handles - 1;
        if self.handles == 0 && self.guard == GuardState::Idle {
            let slot = self.callable.take();
            match slot {
                Some(c) => c.dispose(),
                None => {
                    proof {
                        // the guard was idle and a handle was outstanding,
                        // so the slot held the callable
                        assert(false);
                    }
                },
            }
            true
        } else {
            false
        }
    }

    /// Acquires the exclusive-access guard and checks the callable out. A
    /// call while the guard is already held is a reentrancy violation: the
    /// task is left untouched and the violation is reported, never queued.
    pub fn begin_execute(&mut self) -> (r: Result<T, TaskError>)
        requires
            old(self).wf(),
            old(self).spec_is_live() || old(self).spec_is_executing(),
        ensures
            final(self).wf(),
            old(self).spec_is_executing() ==> r == Err::<T, TaskError>(
                TaskError::ReentrancyViolation,
            ) && *final(self) == *old(self),
            !old(self).spec_is_executing() ==> {
                &&& r is Ok
                &&& old(self).spec_callable() == Some(r->Ok_0)
                &&& final(self).spec_is_executing()
                &&& final(self).spec_callable() is None
                &&& final(self).spec_count() == old(self).spec_count()
                &&& final(self).spec_tag() == old(self).spec_tag()
            },
    {
        if self.guard == GuardState::Executing {
            Err(TaskError::ReentrancyViolation)
        } else {
            let slot = self.callable.take();
            match slot {
                Some(c) => {
                    self.guard = GuardState::Executing;
                    Ok(c)
                },
                None => {
                    proof {
                        // the guard was idle and a handle was outstanding,
                        // so the slot held the callable
                        assert(false);
                    }
                    Err(TaskError::ReentrancyViolation)
                },
            }
        }
    }

    /// Releases the exclusive-access guard, checking the callable back in.
    /// If the last handle was released mid-execution, the callable is
    /// disposed of now instead of being stored back.
    pub fn end_execute(&mut self, callable: T)
        requires
            old(self).wf(),
            old(self).spec_is_executing(),
        ensures
            final(self).wf(),
            !final(self).spec_is_executing(),
            final(self).spec_count() == old(self).spec_count(),
            final(self).spec_tag() == old(self).spec_tag(),
            old(self).spec_is_live() ==> final(self).spec_callable() == Some(callable),
            !old(self).spec_is_live() ==> final(self).spec_is_disposed(),
    {
        self.guard = GuardState::Idle;
        if self.handles >= 1 {
            self.callable = Some(callable);
        } else {
            callable.dispose();
        }
    }

    /// Executes the task against `host`.
    ///
    /// Precondition of the surrounding system, not checkable here: the caller
    /// already holds the lock of `host`, and `host` is the host the callable
    /// expects. What is checked is the exclusive-access guard: a reentrant or
    /// concurrent attempt reports [`TaskError::ReentrancyViolation`] and
    /// leaves task and host untouched. Otherwise the callable runs and the
    /// guard is released again on every exit path, whether or not the
    /// callable itself reports a failure.
    pub fn execute(&mut self, host: &mut Host) -> (r: Result<(), TaskError>)
        requires
            old(self).wf(),
            old(self).spec_is_live() || old(self).spec_is_executing(),
        ensures
            final(self).wf(),
            final(self).spec_count() == old(self).spec_count(),
            final(self).spec_tag() == old(self).spec_tag(),
            old(self).spec_is_executing() ==> r == Err::<(), TaskError>(
                TaskError::ReentrancyViolation,
            ) && *final(self) == *old(self) && *final(host) == *old(host),
            !old(self).spec_is_executing() ==> !final(self).spec_is_executing()
                && final(self).spec_callable() is Some,
    {
        match self.begin_execute() {
            Err(e) => Err(e),
            Ok(mut callable) => {
                let r = callable.call(host);
                self.end_execute(callable);
                r
            },
        }
    }

    /// Law: for any number `n >= 1` of handles, wrapping a callable and
    /// cloning the handle until `n` exist, then releasing all but one, leaves
    /// the callable alive and the live-handle count strictly above its
    /// pre-creation value; releasing the final handle drives the count back
    /// exactly to that value. Returns the live-handle count observed between
    /// the two phases.
    pub fn handle_lifecycle_law(callable: T, n: u64, reg: &mut CounterRegistry) -> (observed: u64)
        requires
            n >= 1,
            old(reg).spec_task_refs() + n <= u64::MAX,
        ensures
            observed == old(reg).spec_task_refs() + 1,
            observed > old(reg).spec_task_refs(),
            final(reg).spec_task_refs() == old(reg).spec_task_refs(),
    {
        let ghost baseline: u64 = reg.spec_task_refs();
        let mut task = TaskRef::new(callable, reg);
        let mut made: u64 = 1;
        while made < n
            invariant
                1 <= made <= n,
                baseline + n <= u64::MAX,
                task.wf(),
                task.spec_is_live(),
                !task.spec_is_executing(),
                task.spec_count() == made,
                reg.spec_task_refs() == baseline + made,
            decreases n - made,
        {
            task.clone_handle(reg);
            made = made + 1;
        }
        let mut released: u64 = 0;
        while released < n - 1
            invariant
                0 <= released <= n - 1,
                baseline + n <= u64::MAX,
                task.wf(),
                !task.spec_is_executing(),
                task.spec_count() == n - released,
                reg.spec_task_refs() == baseline + n - released,
            decreases n - 1 - released,
        {
            task.release_handle(reg);
            released = released + 1;
        }
        let observed = reg.task_refs();
        assert(task.spec_is_live());
        let disposed = task.release_handle(reg);
        assert(disposed);
        assert(task.spec_is_disposed());
        observed
    }

    /// The identity tag, as read at the foreign boundary.
    pub fn tag(&self) -> (r: u64)
        ensures
            r == self.spec_tag(),
    {
        self.tag
    }

    /// Number of outstanding handles.
    pub fn handle_count(&self) -> (r: u64)
        ensures
            r == self.spec_count(),
    {
        self.handles
    }

    /// Whether at least one handle is outstanding.
    pub fn is_live(&self) -> (r: bool)
        ensures
            r == self.spec_is_live(),
    {
        self.handles >= 1
    }

    /// Whether an execution is in progress.
    pub fn is_executing(&self) -> (r: bool)
        ensures
            r == self.spec_is_executing(),
    {
        self.guard == GuardState::Executing
    }
}

} // verus!
