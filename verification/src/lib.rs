//! Host-scoped deferred-task references for a discrete-event host simulator.
//!
//! A task reference is a shareable, type-erased unit of work that a scheduler
//! executes later against a specific host's mutable state. Handles are
//! reference counted explicitly; a runtime exclusive-access guard rejects
//! reentrant execution; a compatibility adapter bridges a foreign calling
//! convention (callback plus two host-scoped payload pointers with optional
//! destructors) into a task, running each destructor exactly once.

pub mod boundary;
pub mod compat;
pub mod counter;
pub mod error;
pub mod host;
pub mod hostptr;
pub mod task;
