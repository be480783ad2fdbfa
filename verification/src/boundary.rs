//! Validation rules of the foreign boundary.
//!
//! The exported create/clone/drop/execute entry points live in the unverified
//! embedding, which receives raw handles from foreign code. The decisions
//! those entry points make — is the handle non-null, does its identity tag
//! match, which host does a creation without an explicit host bind to — are
//! taken here, on plain values.

use vstd::prelude::*;

use crate::error::TaskError;
use crate::host::HostId;

verus! {

/// Identity tag stored in every task reference that crosses the foreign
/// boundary; a handle presenting any other tag is stale, wrongly typed or
/// corrupted.
pub const TASK_REF_TAG: u64 = 0xe0408897;

/// Accepts a handle's identity tag iff it is the task-reference tag.
pub fn check_task_tag(found_tag: u64) -> (r: Result<(), TaskError>)
    ensures
        found_tag == TASK_REF_TAG ==> r == Ok::<(), TaskError>(()),
        found_tag != TASK_REF_TAG ==> r == Err::<(), TaskError>(
            TaskError::InvalidForeignHandle { found_tag },
        ),
{
    if found_tag == TASK_REF_TAG {
        Ok(())
    } else {
        Err(TaskError::InvalidForeignHandle { found_tag })
    }
}

/// Rejects the null address where a handle is required.
pub fn check_handle_addr(addr: usize) -> (r: Result<(), TaskError>)
    ensures
        addr != 0 ==> r == Ok::<(), TaskError>(()),
        addr == 0 ==> r == Err::<(), TaskError>(TaskError::NullHandle),
{
    if addr != 0 {
        Ok(())
    } else {
        Err(TaskError::NullHandle)
    }
}

/// Resolves the host a creation without an explicit host id is bound to: the
/// calling thread's active host, if it has one.
pub fn resolve_active_host(active_host: Option<HostId>) -> (r: Result<HostId, TaskError>)
    ensures
        active_host is Some ==> r == Ok::<HostId, TaskError>(active_host->0),
        active_host is None ==> r == Err::<HostId, TaskError>(TaskError::NoActiveHost),
{
    match active_host {
        Some(h) => Ok(h),
        None => Err(TaskError::NoActiveHost),
    }
}

} // verus!
