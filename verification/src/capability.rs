//! Capabilities: the handles through which bound values are reached.

use vstd::prelude::*;
use std::marker::PhantomData;
use crate::identity::ThreadId;
use crate::registry::{NodeId, TBList};

verus! {

/// Why an access was refused. Both are misuse by the caller, not conditions
/// to recover from.
#[derive(Clone, Copy, Debug, PartialEq, Eq, Structural)]
pub enum AccessFault {
    /// The capability was used on a thread other than its owner.
    WrongThread,
    /// The capability was used after its registry had begun teardown.
    TornDown,
}

/// What became of a value when its capability was released.
#[derive(Clone, Copy, Debug, PartialEq, Eq, Structural)]
pub enum Disposal {
    /// The value was unlinked and destroyed before the release returned.
    Destroyed,
    /// Nothing was touched: a value that is still bound stays bound until
    /// its registry is torn down.
    Deferred,
}

/// The first half of the access guard: only the owner may pass.
pub open spec fn thread_guard(owner: ThreadId, here: ThreadId) -> Result<(), AccessFault> {
    if owner != here {
        Err(AccessFault::WrongThread)
    } else {
        Ok(())
    }
}

/// The access guard: the owner-thread check first, then the teardown check.
pub open spec fn access_guard(owner: ThreadId, destroying: bool, here: ThreadId) -> Result<
    (),
    AccessFault,
> {
    if owner != here {
        Err(AccessFault::WrongThread)
    } else if destroying {
        Err(AccessFault::TornDown)
    } else {
        Ok(())
    }
}

impl AccessFault {
    /// The text of the fault.
    pub open spec fn text(self) -> Seq<char> {
        match self {
            AccessFault::WrongThread => "Attempt to access ThreadBound from incorrect thread"@,
            AccessFault::TornDown => "Attempt to access ThreadBound during TLS destruction phase"@,
        }
    }

    /// The message with which an access that meets this fault is aborted.
    pub fn message(&self) -> (s: &'static str)
        ensures
            s@ == self.text(),
    {
        match self {
            AccessFault::WrongThread => "Attempt to access ThreadBound from incorrect thread",
            AccessFault::TornDown => "Attempt to access ThreadBound during TLS destruction phase",
        }
    }
}

/// A handle to a value of type `T` which is owned by a specific thread. Code
/// running on that thread can freely manipulate the value; attempts to do so
/// from other threads are refused.
///
/// The handle holds no value: the value lives in the registry that issued the
/// handle, and every operation is given that registry and the identity of
/// the calling thread. Releasing the handle destroys the value at once only
/// on the owning thread; released elsewhere, the value stays in the registry
/// until the registry is torn down.
pub struct ThreadBound<T> {
    owner: ThreadId,
    node: NodeId,
    marker: PhantomData<T>,
}

impl<T> ThreadBound<T> {
    /// The thread on which the value was bound.
    pub closed spec fn spec_owner(&self) -> ThreadId {
        self.owner
    }

    /// The name of the binding in its registry.
    pub closed spec fn spec_node(&self) -> NodeId {
        self.node
    }

    /// What the access guard says of a use of this capability on the thread
    /// `here`, with `list` as its registry.
    pub open spec fn guard(&self, list: &TBList<T>, here: ThreadId) -> Result<(), AccessFault> {
        access_guard(self.spec_owner(), list.destroying(), here)
    }

    /// Whether `list` is the registry of this capability and still holds its
    /// value.
    pub open spec fn bound_in(&self, list: &TBList<T>) -> bool {
        list.spec_owner() == self.spec_owner() && list@.contains_key(self.spec_node())
    }

    /// What releasing this capability on the thread `here` does to its
    /// registry. Where the guard lets the thread in and the value is bound,
    /// the value leaves the registry and is destroyed; in every other case
    /// the registry stays exactly as it was.
    pub open spec fn releases(&self, pre: TBList<T>, here: ThreadId, post: TBList<T>, done: Disposal) -> bool {
        if self.guard(&pre, here) is Ok && self.bound_in(&pre) {
            &&& done == Disposal::Destroyed
            &&& TBList::unlinks(pre, self.spec_node(), post, pre@[self.spec_node()])
        } else {
            &&& done == Disposal::Deferred
            &&& post == pre
        }
    }

    /// The capability for the binding `node` of a registry owned by `owner`.
    pub(crate) fn granted(owner: ThreadId, node: NodeId) -> (cap: Self)
        ensures
            cap.spec_owner() == owner,
            cap.spec_node() == node,
    {
        ThreadBound { owner, node, marker: PhantomData }
    }

    /// The thread on which the value was bound.
    #[verifier::when_used_as_spec(spec_owner)]
    pub fn owner(&self) -> (id: ThreadId)
        ensures
            id == self.spec_owner(),
    {
        self.owner
    }

    /// The name of the binding in its registry.
    #[verifier::when_used_as_spec(spec_node)]
    pub fn node(&self) -> (node: NodeId)
        ensures
            node == self.spec_node(),
    {
        self.node
    }

    /// Wraps a value of type `T` in a capability bound to the thread that
    /// owns `local`, the registry that the thread keeps for itself.
    pub fn new(local: &mut TBList<T>, inner: T) -> (cap: Self)
        requires
            old(local).wf(),
            !old(local).destroying(),
        ensures
            TBList::binds(*old(local), inner, *final(local), cap.node()),
            cap.owner() == old(local).spec_owner(),
    {
        local.bind(inner)
    }

    /// Whether this capability is still backed by a value in `list`.
    pub fn is_bound_in(&self, list: &TBList<T>) -> (r: bool)
        ensures
            r == self.bound_in(list),
    {
        list.owner() == self.owner && list.contains(self.node)
    }

    /// The owner-thread check alone, which needs no registry: a thread that
    /// fails it must not touch the registry at all.
    pub fn check_thread(&self, here: &ThreadId) -> (r: Result<(), AccessFault>)
        ensures
            r == thread_guard(self.spec_owner(), *here),
    {
        if self.owner != *here {
            Err(AccessFault::WrongThread)
        } else {
            Ok(())
        }
    }

    /// Returns true if this capability can be used on the thread `here`
    /// without a fault. This stays true on the owning thread for as long as
    /// the registry has not begun teardown.
    pub fn accessible(&self, list: &TBList<T>, here: &ThreadId) -> (r: bool)
        ensures
            r == (self.guard(list, *here) is Ok),
    {
        self.owner == *here && !list.is_destroying()
    }

    /// Evaluates the access guard for a use on the thread `here`.
    pub fn check_access(&self, list: &TBList<T>, here: &ThreadId) -> (r: Result<(), AccessFault>)
        ensures
            r == self.guard(list, *here),
    {
        match self.check_thread(here) {
            Err(fault) => Err(fault),
            Ok(()) => {
                if list.is_destroying() {
                    Err(AccessFault::TornDown)
                } else {
                    Ok(())
                }
            },
        }
    }

    /// Consumes this capability to regain ownership of the underlying value.
    /// The value is unlinked from the registry and is not destroyed.
    pub fn into_inner(self, list: &mut TBList<T>, here: &ThreadId) -> (value: T)
        requires
            old(list).wf(),
            self.guard(old(list), *here) is Ok,
            self.bound_in(old(list)),
        ensures
            TBList::unlinks(*old(list), self.node(), *final(list), value),
    {
        list.unlink_var(self.node)
    }

    /// Temporarily acquires shared access to the guarded value. The borrow
    /// lasts exactly as long as the call of `fun`; no reference is handed
    /// out that could outlive the check that allowed it.
    pub fn with<F, R>(&self, list: &TBList<T>, here: &ThreadId, fun: F) -> (r: R) where
        F: FnOnce(&T) -> R,

        requires
            list.wf(),
            self.guard(list, *here) is Ok,
            self.bound_in(list),
            call_requires(fun, (&list@[self.node()],)),
        ensures
            call_ensures(fun, (&list@[self.node()],), r),
    {
        fun(list.peek(self.node))
    }

    /// Temporarily acquires exclusive access to the guarded value.
    pub fn with_mut<F, R>(&mut self, list: &mut TBList<T>, here: &ThreadId, fun: F) -> (r: R) where
        F: FnOnce(&mut T) -> R,

        requires
            old(list).wf(),
            old(self).guard(old(list), *here) is Ok,
            old(self).bound_in(old(list)),
            forall|v: &mut T| *v == old(list)@[old(self).node()] ==> call_requires(fun, (v,)),
        ensures
            *final(self) == *old(self),
            exists|v: &mut T|
                *v == old(list)@[old(self).node()] && #[trigger] call_ensures(fun, (v,), r)
                    && TBList::rewrites(*old(list), old(self).node(), *final(list), *final(v)),
    {
        list.visit_mut(self.node, fun)
    }

    /// Gives the capability up. On the owning thread, before teardown, the
    /// value is unlinked and destroyed before this returns. Anywhere else
    /// nothing is touched, and the value waits for the teardown of its
    /// registry.
    pub fn release(self, list: &mut TBList<T>, here: &ThreadId) -> (done: Disposal)
        requires
            old(list).wf(),
        ensures
            self.releases(*old(list), *here, *final(list), done),
    {
        if self.accessible(list, here) && self.is_bound_in(list) {
            list.destroy_var(self.node);
            Disposal::Destroyed
        } else {
            Disposal::Deferred
        }
    }
}

} // verus!
