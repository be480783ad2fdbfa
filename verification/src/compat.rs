//! Compatibility adapter: a foreign calling convention bridged into a task.
//!
//! Foreign code describes work as a callback plus two payload descriptors
//! (`object` and `argument`), each a host-scoped pointer, with an optional
//! destructor per payload. The adapter carries the descriptors and the
//! destructor flags; the callback and destructors themselves live behind the
//! [`CompatCallbacks`] trait, implemented by the embedding that owns the real
//! function pointers. Destructors run exactly once, at adapter disposal, in
//! fixed order: object before argument — never as part of execution.

use vstd::prelude::*;

use crate::error::TaskError;
use crate::host::Host;
use crate::hostptr::HostScopedPointer;
use crate::task::Callable;

verus! {

/// The three foreign entry points an adapter may invoke: the work callback
/// and one destructor per payload. Implemented outside this crate by the
/// layer holding the actual function pointers; no contract is placed on them.
pub trait CompatCallbacks {
    /// The work callback, handed the host and the two payload addresses.
    /// Called only with addresses that passed the lock-discipline check.
    fn invoke(&mut self, host: &mut Host, object_addr: usize, argument_addr: usize);

    /// Destructor of the `object` payload. Called at most once, and only when
    /// the adapter was created with an object destructor registered.
    fn free_object(&mut self, object_addr: usize);

    /// Destructor of the `argument` payload. Called at most once, and only
    /// when the adapter was created with an argument destructor registered.
    fn free_argument(&mut self, argument_addr: usize);
}

/// Which payload a destruction step frees.
#[derive(Clone, Copy, Debug, PartialEq, Eq, Structural)]
pub enum PayloadSlot {
    Object,
    Argument,
}

/// The destruction steps an adapter performs when disposed of: each
/// registered destructor once, object strictly before argument.
pub open spec fn destruction_plan(has_object_free: bool, has_argument_free: bool) -> Seq<
    PayloadSlot,
> {
    let object_part: Seq<PayloadSlot> = if has_object_free {
        seq![PayloadSlot::Object]
    } else {
        Seq::empty()
    };
    let argument_part: Seq<PayloadSlot> = if has_argument_free {
        seq![PayloadSlot::Argument]
    } else {
        Seq::empty()
    };
    object_part + argument_part
}

/// Law: whatever destructors an adapter was created with, its destruction
/// plan names each registered destructor exactly once, names no unregistered
/// one, and places the object destructor strictly before the argument
/// destructor.
pub proof fn lemma_destruction_plan_exactly_once(has_object_free: bool, has_argument_free: bool)
    ensures
        destruction_plan(has_object_free, has_argument_free).contains(PayloadSlot::Object)
            <==> has_object_free,
        destruction_plan(has_object_free, has_argument_free).contains(PayloadSlot::Argument)
            <==> has_argument_free,
        forall|i: int, j: int|
            0 <= i < destruction_plan(has_object_free, has_argument_free).len() && 0 <= j
                < destruction_plan(has_object_free, has_argument_free).len() && i != j
                ==> destruction_plan(has_object_free, has_argument_free)[i] != destruction_plan(
                has_object_free,
                has_argument_free,
            )[j],
        forall|i: int, j: int|
            0 <= i < destruction_plan(has_object_free, has_argument_free).len() && 0 <= j
                < destruction_plan(has_object_free, has_argument_free).len() && destruction_plan(
                has_object_free,
                has_argument_free,
            )[i] == PayloadSlot::Object && destruction_plan(has_object_free, has_argument_free)[j]
                == PayloadSlot::Argument ==> i < j,
{
    let plan = destruction_plan(has_object_free, has_argument_free);
    if has_object_free {
        assert(plan.contains(PayloadSlot::Object)) by {
            assert(plan[0] == PayloadSlot::Object);
        }
    }
    if has_argument_free {
        assert(plan.contains(PayloadSlot::Argument)) by {
            assert(plan[plan.len() - 1] == PayloadSlot::Argument);
        }
    }
}

/// The executable destruction plan, used by adapter disposal.
pub fn destructor_plan(has_object_free: bool, has_argument_free: bool) -> (plan: Vec<PayloadSlot>)
    ensures
        plan@ == destruction_plan(has_object_free, has_argument_free),
{
    let mut plan: Vec<PayloadSlot> = Vec::new();
    if has_object_free {
        plan.push(PayloadSlot::Object);
    }
    if has_argument_free {
        plan.push(PayloadSlot::Argument);
    }
    proof {
        assert(plan@ =~= destruction_plan(has_object_free, has_argument_free));
    }
    plan
}

/// Adapter from the foreign calling convention to a [`Callable`].
pub struct CompatTask<C: CompatCallbacks> {
    callbacks: C,
    object: HostScopedPointer,
    argument: HostScopedPointer,
    has_object_free: bool,
    has_argument_free: bool,
}

impl<C: CompatCallbacks> CompatTask<C> {
    pub closed spec fn spec_callbacks(self) -> C {
        self.callbacks
    }

    pub closed spec fn spec_object(self) -> HostScopedPointer {
        self.object
    }

    pub closed spec fn spec_argument(self) -> HostScopedPointer {
        self.argument
    }

    pub closed spec fn spec_has_object_free(self) -> bool {
        self.has_object_free
    }

    pub closed spec fn spec_has_argument_free(self) -> bool {
        self.has_argument_free
    }

    /// Binds the callbacks to the two payload descriptors and the destructor
    /// flags. Never dereferences either address and never fails; the caller
    /// is responsible for the addresses being null or valid and host-scoped
    /// as stated.
    pub fn new(
        callbacks: C,
        object: HostScopedPointer,
        argument: HostScopedPointer,
        has_object_free: bool,
        has_argument_free: bool,
    ) -> (t: CompatTask<C>)
        ensures
            t.spec_callbacks() == callbacks,
            t.spec_object() == object,
            t.spec_argument() == argument,
            t.spec_has_object_free() == has_object_free,
            t.spec_has_argument_free() == has_argument_free,
    {
        CompatTask { callbacks, object, argument, has_object_free, has_argument_free }
    }
}

impl<C: CompatCallbacks> Callable for CompatTask<C> {
    /// Invokes the foreign callback with the host and both payload addresses.
    /// Each address is released only through the lock-discipline check
    /// against the host being executed — object first, then argument; a
    /// mismatch withholds the callback and reports the violation naming both
    /// identities. Succeeds exactly when both payloads are scoped to the
    /// executed host; the descriptors and destructor flags are untouched
    /// either way.
    fn call(&mut self, host: &mut Host) -> (r: Result<(), TaskError>)
        ensures
            final(self).spec_object() == old(self).spec_object(),
            final(self).spec_argument() == old(self).spec_argument(),
            final(self).spec_has_object_free() == old(self).spec_has_object_free(),
            final(self).spec_has_argument_free() == old(self).spec_has_argument_free(),
            r is Ok <==> (old(host).spec_id() == old(self).spec_object().spec_host() && old(
                host,
            ).spec_id() == old(self).spec_argument().spec_host()),
            old(host).spec_id() != old(self).spec_object().spec_host() ==> r == Err::<
                (),
                TaskError,
            >(
                TaskError::LockDisciplineViolation {
                    bound_host: old(self).spec_object().spec_host(),
                    active_host: old(host).spec_id(),
                },
            ),
            old(host).spec_id() == old(self).spec_object().spec_host() && old(host).spec_id()
                != old(self).spec_argument().spec_host() ==> r == Err::<(), TaskError>(
                TaskError::LockDisciplineViolation {
                    bound_host: old(self).spec_argument().spec_host(),
                    active_host: old(host).spec_id(),
                },
            ),
            r is Err ==> *final(host) == *old(host),
    {
        let host_id = host.id();
        let object_addr = match self.object.addr_checked(Some(host_id)) {
            Ok(a) => a,
            Err(e) => {
                return Err(e);
            },
        };
        let argument_addr = match self.argument.addr_checked(Some(host_id)) {
            Ok(a) => a,
            Err(e) => {
                return Err(e);
            },
        };
        self.callbacks.invoke(host, object_addr, argument_addr);
        Ok(())
    }

    /// Runs the registered destructors following the destruction plan:
    /// each exactly once, object before argument.
    ///
    /// The exactly-once and ordering guarantee is verified as a statement
    /// about the plan ([`destructor_plan`] and
    /// [`lemma_destruction_plan_exactly_once`]), not about this body: the
    /// destructors are contract-free trait methods, so no `ensures` can
    /// speak of their invocation. This body performs exactly one call per
    /// plan entry, in plan order.
    fn dispose(self) {
        let CompatTask { mut callbacks, object, argument, has_object_free, has_argument_free } =
            self;
        let plan = destructor_plan(has_object_free, has_argument_free);
        let mut i: usize = 0;
        while i < plan.len()
            invariant
                i <= plan@.len(),
            decreases plan@.len() - i,
        {
            match plan[i] {
                PayloadSlot::Object => callbacks.free_object(object.addr_unchecked()),
                PayloadSlot::Argument => callbacks.free_argument(argument.addr_unchecked()),
            }
            i = i + 1;
        }
    }
}

} // verus!
