//! What holds of a capability over its life: from the binding, through
//! accesses at home and refusals elsewhere, to the one way in which it ends.
//!
//! A capability ends in exactly one of three ways. It is consumed, and the
//! value returns to the caller. It is released on the owning thread before
//! teardown, and the value is destroyed on the spot. Or it is released where
//! the guard does not let the caller in; then the value stays bound until the
//! registry is torn down and the sweep destroys it.

use vstd::prelude::*;
use crate::capability::{access_guard, thread_guard, AccessFault, Disposal, ThreadBound};
use crate::identity::ThreadId;
use crate::registry::{NodeId, TBList};

verus! {

/// One step of a registry: a binding, a removal, a visit to one value, a
/// teardown, or nothing at all.
pub open spec fn steps<T>(pre: TBList<T>, post: TBList<T>) -> bool {
    ||| post == pre
    ||| exists|value: T, node: NodeId| TBList::binds(pre, value, post, node)
    ||| exists|value: T, node: NodeId| TBList::unlinks(pre, node, post, value)
    ||| exists|value: T, node: NodeId| TBList::rewrites(pre, node, post, value)
    ||| TBList::tears_down(pre, post)
}

/// Right after a binding the capability is accessible on the owning thread,
/// and what it reaches is the value that was bound.
pub proof fn lemma_accessible_after_bind<T>(
    pre: TBList<T>,
    value: T,
    post: TBList<T>,
    cap: ThreadBound<T>,
)
    requires
        !pre.destroying(),
        TBList::binds(pre, value, post, cap.node()),
        cap.owner() == pre.owner(),
    ensures
        cap.guard(&post, pre.owner()) is Ok,
        cap.bound_in(&post),
        post@[cap.node()] == value,
{
}

/// Seen from any thread but its owner a capability is not accessible, and a
/// use there meets the wrong-thread fault: whatever the state of the
/// registry, whether or not teardown has begun, and whether or not the value
/// is still bound.
pub proof fn lemma_wrong_thread_always_faults<T>(
    cap: ThreadBound<T>,
    list: TBList<T>,
    here: ThreadId,
)
    requires
        here != cap.owner(),
    ensures
        cap.guard(&list, here) == Err::<(), AccessFault>(AccessFault::WrongThread),
{
}

/// After teardown no thread can access the capability: the owner meets the
/// torn-down fault, every other thread the wrong-thread fault. The value is
/// no longer bound.
pub proof fn lemma_inaccessible_after_teardown<T>(
    cap: ThreadBound<T>,
    pre: TBList<T>,
    post: TBList<T>,
    here: ThreadId,
)
    requires
        TBList::tears_down(pre, post),
    ensures
        !(cap.guard(&post, here) is Ok),
        here == cap.owner() ==> cap.guard(&post, here) == Err::<(), AccessFault>(
            AccessFault::TornDown,
        ),
        !cap.bound_in(&post),
{
}

/// The guard lets a thread in exactly when it is the owner and teardown has
/// not begun.
pub proof fn lemma_guard_opens_only_at_home(owner: ThreadId, destroying: bool, here: ThreadId)
    ensures
        access_guard(owner, destroying, here) is Ok <==> (here == owner && !destroying),
        access_guard(owner, destroying, here) == Err::<(), AccessFault>(AccessFault::WrongThread)
            <==> here != owner,
        access_guard(owner, destroying, here) == Err::<(), AccessFault>(AccessFault::TornDown)
            <==> (here == owner && destroying),
{
}

/// A thread that fails the owner-thread check fails the whole guard in the
/// same way, whatever the registry holds; one that passes it is stopped only
/// by teardown.
pub proof fn lemma_thread_check_decides_first(owner: ThreadId, destroying: bool, here: ThreadId)
    ensures
        thread_guard(owner, here) is Err ==> access_guard(owner, destroying, here) == thread_guard(
            owner,
            here,
        ),
        thread_guard(owner, here) is Ok ==> (access_guard(owner, destroying, here) is Ok
            <==> !destroying),
{
}

/// Binding a value and consuming the capability gives the value back, and
/// leaves the registry with the bindings it had before, in the order they
/// had.
pub proof fn lemma_round_trip<T>(
    pre: TBList<T>,
    value: T,
    mid: TBList<T>,
    node: NodeId,
    post: TBList<T>,
    out: T,
)
    requires
        pre.wf(),
        TBList::binds(pre, value, mid, node),
        TBList::unlinks(mid, node, post, out),
    ensures
        out == value,
        post@ == pre@,
        post.order() == pre.order(),
{
    assert(post@ =~= pre@);
    pre.lemma_order_lists_bindings();
    mid.lemma_order_lists_bindings();
    let n = pre.order().len() as int;
    assert(mid.order()[n] == node);
    assert(mid.order().index_of(node) == n);
    assert(post.order() =~= pre.order());
}

/// Released on the owning thread before teardown, a bound value is destroyed
/// before the release returns: it has left the registry, its name has
/// expired, and every other binding is as it was.
pub proof fn lemma_release_at_home_destroys<T>(
    cap: ThreadBound<T>,
    pre: TBList<T>,
    post: TBList<T>,
    done: Disposal,
)
    requires
        cap.bound_in(&pre),
        !pre.destroying(),
        cap.releases(pre, cap.owner(), post, done),
    ensures
        done == Disposal::Destroyed,
        !post@.contains_key(cap.node()),
        post.expired(cap.node()),
        forall|other: NodeId|
            other != cap.node() && pre@.contains_key(other) ==> post@.contains_key(other)
                && post@[other] == pre@[other],
{
}

/// Released on a foreign thread, a value is not destroyed: the registry is
/// untouched and the value stays bound. Only the teardown of the registry
/// ends it.
pub proof fn lemma_release_elsewhere_defers<T>(
    cap: ThreadBound<T>,
    pre: TBList<T>,
    here: ThreadId,
    post: TBList<T>,
    done: Disposal,
    end: TBList<T>,
)
    requires
        cap.bound_in(&pre),
        here != cap.owner(),
        cap.releases(pre, here, post, done),
        TBList::tears_down(post, end),
    ensures
        done == Disposal::Deferred,
        post == pre,
        cap.bound_in(&post),
        post@[cap.node()] == pre@[cap.node()],
        !end@.contains_key(cap.node()),
        end.expired(cap.node()),
{
}

/// Released on the owning thread once teardown has begun, nothing is touched
/// either.
pub proof fn lemma_release_during_teardown_defers<T>(
    cap: ThreadBound<T>,
    pre: TBList<T>,
    here: ThreadId,
    post: TBList<T>,
    done: Disposal,
)
    requires
        pre.destroying(),
        cap.releases(pre, here, post, done),
    ensures
        done == Disposal::Deferred,
        post == pre,
{
}

/// Removing one binding leaves every other binding bound to the value it
/// had.
pub proof fn lemma_unlink_spares_the_others<T>(
    pre: TBList<T>,
    node: NodeId,
    post: TBList<T>,
    value: T,
    other: NodeId,
)
    requires
        TBList::unlinks(pre, node, post, value),
        other != node,
    ensures
        post@.contains_key(other) == pre@.contains_key(other),
        pre@.contains_key(other) ==> post@[other] == pre@[other],
{
}

/// No step takes the owner away, lowers the teardown flag, or revives a name
/// that has expired: a capability that was consumed or destroyed stays
/// unbound for good.
pub proof fn lemma_steps_never_go_back<T>(pre: TBList<T>, post: TBList<T>, node: NodeId)
    requires
        steps(pre, post),
    ensures
        post.owner() == pre.owner(),
        pre.destroying() ==> post.destroying(),
        pre.expired(node) ==> post.expired(node) && !post@.contains_key(node),
{
    if pre.expired(node) {
        assert(post.expired(node));
        post.lemma_expired_is_unbound(node);
    }
}

} // verus!
