//! The per-thread registry: every value that a thread has bound and that has
//! not yet been consumed or destroyed.
//!
//! The registry is a circular doubly linked list threaded through an arena.
//! Slot 0 of the arena is the list head, which holds no value and is never
//! removed; every other slot is either linked into the list and holds a
//! value, or waits on a chain of spare slots to be used again. Links are
//! slot indices, so a node never moves and removal is a matter of repointing
//! two neighbours.

use vstd::prelude::*;
use crate::capability::ThreadBound;
use crate::identity::ThreadId;

verus! {

/// Names one binding of one registry: the slot that holds the value, and the
/// generation of that slot at the time of the binding. A slot is used again
/// only under a later generation, so a name is never given twice.
#[derive(Clone, Copy, Debug, PartialEq, Eq, Structural)]
pub struct NodeId {
    slot: usize,
    generation: u64,
}

/// The links of one node.
struct TBHeader {
    next: usize,
    prev: usize,
}

/// One slot of the arena: a bound value together with its links.
struct TBVar<T> {
    header: TBHeader,
    generation: u64,
    value: Option<T>,
}

/// A container for values which must be accessed within a particular scope in
/// a particular thread. Values are added with `bind`, which returns a
/// capability; the capability may move freely between threads, but can only
/// be used on the thread of the binding. A bound value is destroyed when its
/// capability is released on that thread; otherwise it is destroyed when the
/// registry is torn down.
pub struct TBList<T> {
    owner: ThreadId,
    destroying: bool,
    vars: Vec<TBVar<T>>,
    spare: usize,
    linked: Ghost<Seq<usize>>,
    unused: Ghost<Seq<usize>>,
}

/// The slot at position `i` of a chain, or the list head where the chain has
/// no such position.
spec fn at(chain: Seq<usize>, i: int) -> usize {
    if 0 <= i < chain.len() {
        chain[i]
    } else {
        0
    }
}

impl<T> TBList<T> {
    /// The thread that owns this registry.
    pub closed spec fn spec_owner(&self) -> ThreadId {
        self.owner
    }

    /// The thread that owns this registry.
    #[verifier::when_used_as_spec(spec_owner)]
    pub fn owner(&self) -> (id: ThreadId)
        ensures
            id == self.spec_owner(),
    {
        self.owner
    }

    /// Whether teardown has begun. Once true it stays true.
    pub closed spec fn destroying(&self) -> bool {
        self.destroying
    }

    /// The bound values, each under the name of its binding.
    pub closed spec fn view(&self) -> Map<NodeId, T> {
        Map::new(|node: NodeId| self.live(node), |node: NodeId| self.vars[node.slot as int].value->0)
    }

    /// The bindings in list order: the oldest first, the latest last.
    pub closed spec fn order(&self) -> Seq<NodeId> {
        Seq::new(self.linked@.len(), |i: int| self.name_of(self.linked@[i]))
    }

    /// Whether `node` names a binding that is over, or one that this registry
    /// can never make: such a name will never be bound again.
    pub closed spec fn expired(&self, node: NodeId) -> bool {
        let s = node.slot as int;
        &&& 0 < s < self.vars.len()
        &&& node.generation < self.vars[s].generation || (node.generation
            == self.vars[s].generation && self.vars[s].value is None)
    }

    /// Where the forward link of `node` leads. On either side `None` stands
    /// for the list head.
    pub closed spec fn next(&self, node: Option<NodeId>) -> Option<NodeId> {
        match node {
            None => self.stop(self.vars[0].header.next),
            Some(node) => self.stop(self.vars[node.slot as int].header.next),
        }
    }

    /// Where the backward link of `node` leads. On either side `None` stands
    /// for the list head.
    pub closed spec fn prev(&self, node: Option<NodeId>) -> Option<NodeId> {
        match node {
            None => self.stop(self.vars[0].header.prev),
            Some(node) => self.stop(self.vars[node.slot as int].header.prev),
        }
    }

    /// The binding at position `i` of the list order, or the list head where
    /// the order has no such position.
    pub open spec fn nth(&self, i: int) -> Option<NodeId> {
        if 0 <= i < self.order().len() {
            Some(self.order()[i])
        } else {
            None
        }
    }

    /// The registry's invariant: the links form one ring through the head,
    /// the ring holds exactly the slots that carry a value, and the spare
    /// chain holds only empty slots.
    pub closed spec fn wf(&self) -> bool {
        &&& self.vars.len() >= 1
        &&& self.vars[0].value is None
        &&& self.vars[0].header.next == at(self.linked@, 0)
        &&& self.vars[0].header.prev == at(self.linked@, self.linked@.len() - 1)
        &&& self.linked@.no_duplicates()
        &&& forall|i: int| 0 <= i < self.linked@.len() ==> #[trigger] self.link_ok(i)
        &&& forall|s: int| #[trigger]
            self.occupied(s) ==> self.linked@.contains(s as usize)
        &&& self.spare == at(self.unused@, 0)
        &&& self.unused@.no_duplicates()
        &&& forall|j: int| 0 <= j < self.unused@.len() ==> #[trigger] self.spare_ok(j)
    }
}

// What each operation does to a registry, as a relation between the state
// before and the state after.
impl<T> TBList<T> {
    /// The registry that `scope` hands to its closure: empty, not torn down,
    /// owned by `owner`.
    pub open spec fn fresh(&self, owner: ThreadId) -> bool {
        &&& self.wf()
        &&& self.spec_owner() == owner
        &&& !self.destroying()
        &&& self@ == Map::<NodeId, T>::empty()
        &&& self.order() == Seq::<NodeId>::empty()
    }

    /// What one binding does to a registry: the value enters under a name
    /// that was neither bound nor expired, at the tail of the list, and
    /// nothing else changes.
    pub open spec fn binds(pre: Self, value: T, post: Self, node: NodeId) -> bool {
        &&& post.wf()
        &&& post.spec_owner() == pre.spec_owner()
        &&& post.destroying() == pre.destroying()
        &&& !pre@.contains_key(node)
        &&& !pre.expired(node)
        &&& post@ == pre@.insert(node, value)
        &&& post.order() == pre.order().push(node)
        &&& forall|k: NodeId| pre.expired(k) ==> post.expired(k)
    }

    /// What removing one binding does to a registry: the value leaves, its
    /// name expires, the other bindings keep their values and their order.
    pub open spec fn unlinks(pre: Self, node: NodeId, post: Self, value: T) -> bool {
        &&& post.wf()
        &&& post.spec_owner() == pre.spec_owner()
        &&& post.destroying() == pre.destroying()
        &&& pre@.contains_key(node)
        &&& value == pre@[node]
        &&& post@ == pre@.remove(node)
        &&& post.order() == pre.order().remove(pre.order().index_of(node))
        &&& post.expired(node)
        &&& forall|k: NodeId| pre.expired(k) ==> post.expired(k)
    }

    /// What a visit that may change one value does to a registry: the value
    /// under `node` becomes `value`, and nothing else changes.
    pub open spec fn rewrites(pre: Self, node: NodeId, post: Self, value: T) -> bool {
        &&& post.wf()
        &&& post.spec_owner() == pre.spec_owner()
        &&& post.destroying() == pre.destroying()
        &&& pre@.contains_key(node)
        &&& post@ == pre@.insert(node, value)
        &&& post.order() == pre.order()
        &&& forall|k: NodeId| pre.expired(k) == post.expired(k)
    }

    /// What teardown does to a registry: the flag is raised, every binding
    /// is gone and its name expired.
    pub open spec fn tears_down(pre: Self, post: Self) -> bool {
        &&& post.wf()
        &&& post.spec_owner() == pre.spec_owner()
        &&& post.destroying()
        &&& post@ == Map::<NodeId, T>::empty()
        &&& post.order() == Seq::<NodeId>::empty()
        &&& forall|k: NodeId| pre@.contains_key(k) ==> post.expired(k)
        &&& forall|k: NodeId| pre.expired(k) ==> post.expired(k)
    }
}

impl<T> TBList<T> {
    /// The list order names exactly the bound values, each once.
    pub proof fn lemma_order_lists_bindings(&self)
        requires
            self.wf(),
        ensures
            self.order().no_duplicates(),
            forall|node: NodeId| self.order().contains(node) <==> self@.contains_key(node),
    {
        assert forall|i: int, j: int|
            0 <= i < self.order().len() && 0 <= j < self.order().len() && i
                != j implies self.order()[i] != self.order()[j] by {
            assert(self.linked@[i] != self.linked@[j]);
        }
        assert forall|node: NodeId| self.order().contains(node) implies self@.contains_key(
            node,
        ) by {
            let i = self.order().index_of(node);
            assert(self.link_ok(i));
        }
        assert forall|node: NodeId| self@.contains_key(node) implies self.order().contains(
            node,
        ) by {
            assert(self.occupied(node.slot as int));
            let i = self.linked@.index_of(node.slot);
            assert(self.order()[i] == node);
        }
    }

    /// The links form one ring through the list head. Forward from the head
    /// they run through the bindings in list order and back to the head;
    /// backward they run the same way in reverse. With nothing bound, both
    /// links of the head lead to the head itself.
    pub proof fn lemma_links_form_a_ring(&self)
        requires
            self.wf(),
        ensures
            self.next(None) == self.nth(0),
            self.prev(None) == self.nth(self.order().len() - 1),
            forall|i: int|
                0 <= i < self.order().len() ==> self.next(#[trigger] self.nth(i)) == self.nth(i + 1)
                    && self.prev(self.nth(i)) == self.nth(i - 1),
    {
        let n = self.linked@.len() as int;
        assert forall|i: int| 0 <= i < n implies self.linked@[i] != 0 && self.stop(
            self.linked@[i],
        ) == self.nth(i) by {
            assert(self.link_ok(i));
        }
        assert forall|i: int| 0 <= i < self.order().len() implies self.next(
            #[trigger] self.nth(i),
        ) == self.nth(i + 1) && self.prev(self.nth(i)) == self.nth(i - 1) by {
            assert(self.link_ok(i));
        }
    }

    /// A name that has expired is not bound.
    pub proof fn lemma_expired_is_unbound(&self, node: NodeId)
        requires
            self.expired(node),
        ensures
            !self@.contains_key(node),
    {
    }
}

impl<T> TBList<T> {
    /// Creates an empty registry owned by the thread `owner`.
    pub fn new(owner: ThreadId) -> (list: Self)
        ensures
            list.wf(),
            list.spec_owner() == owner,
            !list.destroying(),
            list@ == Map::<NodeId, T>::empty(),
            list.order() == Seq::<NodeId>::empty(),
    {
        let mut vars: Vec<TBVar<T>> = Vec::new();
        vars.push(TBVar { header: TBHeader { next: 0, prev: 0 }, generation: 0, value: None });
        let list = TBList {
            owner,
            destroying: false,
            vars,
            spare: 0,
            linked: Ghost(Seq::empty()),
            unused: Ghost(Seq::empty()),
        };
        proof {
            assert(list@ =~= Map::<NodeId, T>::empty());
            assert(list.order() =~= Seq::<NodeId>::empty());
        }
        list
    }

    /// Whether teardown has begun.
    pub fn is_destroying(&self) -> (r: bool)
        ensures
            r == self.destroying(),
    {
        self.destroying
    }

    /// Whether `node` names a value that is bound here now.
    pub fn contains(&self, node: NodeId) -> (r: bool)
        ensures
            r == self@.contains_key(node),
    {
        node.slot != 0 && node.slot < self.vars.len() && self.vars[node.slot].value.is_some()
            && self.vars[node.slot].generation == node.generation
    }

    /// Whether no value is bound here.
    pub fn is_empty(&self) -> (r: bool)
        requires
            self.wf(),
        ensures
            r == (self.order().len() == 0),
    {
        proof {
            if self.linked@.len() > 0 {
                assert(self.link_ok(0));
            }
        }
        self.vars[0].header.next == 0
    }

    /// Transfers ownership of a value into the registry, and returns a
    /// capability which can be used to access that value, but only on the
    /// owning thread and only until teardown begins.
    pub fn bind(&mut self, value: T) -> (cap: ThreadBound<T>)
        requires
            old(self).wf(),
            !old(self).destroying(),
        ensures
            Self::binds(*old(self), value, *final(self), cap.node()),
            cap.owner() == old(self).spec_owner(),
    {
        let node = self.link_var(value);
        ThreadBound::granted(self.owner, node)
    }

    /// Creates a new scope for value bindings on the thread `here`: runs `f`
    /// on a fresh registry, tears the registry down when `f` returns, and
    /// hands back what `f` returned together with the torn-down registry,
    /// against which capabilities that left the scope can still be checked.
    pub fn scope<F, R>(here: ThreadId, f: F) -> (out: (R, Self)) where F: FnOnce(&mut Self) -> R
        requires
            forall|list: &mut Self| (*list).fresh(here) ==> #[trigger] call_requires(f, (list,)),
            forall|list: &mut Self, r: R|
                (*list).fresh(here) && #[trigger] call_ensures(f, (list,), r) ==> final(list).wf(),
        ensures
            exists|list: &mut Self|
                (*list).fresh(here) && #[trigger] call_ensures(f, (list,), out.0) && Self::tears_down(
                    *final(list),
                    out.1,
                ),
    {
        let mut list = Self::new(here);
        let r = f(&mut list);
        let ghost lent = choose|l: &mut Self|
            (*l).fresh(here) && #[trigger] call_ensures(f, (l,), r) && *final(l) == list;
        list.teardown();
        let out = (r, list);
        assert(call_ensures(f, (lent,), out.0) && Self::tears_down(*final(lent), out.1));
        out
    }

    /// Tears the registry down: raises the teardown flag first, then unlinks
    /// and destroys the remaining values one by one until the list is empty.
    /// From the moment the flag is up the access guard lets nobody in, so no
    /// access can meet a list that is half swept.
    pub fn teardown(&mut self)
        requires
            old(self).wf(),
        ensures
            Self::tears_down(*old(self), *final(self)),
    {
        self.raise_flag();
        self.sweep();
    }
}

// The list mechanics. They know nothing of threads: the access guard stands
// in front of them.
impl<T> TBList<T> {
    /// Links `value` into the list immediately before the head, that is at
    /// the tail, and returns the name of the new binding.
    pub(crate) fn link_var(&mut self, value: T) -> (node: NodeId)
        requires
            old(self).wf(),
        ensures
            Self::binds(*old(self), value, *final(self), node),
    {
        let tail: usize = self.vars[0].header.prev;
        let ghost n = self.linked@.len() as int;
        proof {
            if n > 0 {
                assert(self.link_ok(n - 1));
            }
        }
        let slot: usize;
        if self.spare != 0 {
            proof {
                assert(self.spare_ok(0));
            }
            slot = self.spare;
            self.spare = self.vars[slot].header.next;
            self.vars[slot].generation = self.vars[slot].generation + 1;
            self.vars[slot].value = Some(value);
            self.vars[slot].header.next = 0;
            self.vars[slot].header.prev = tail;
            proof {
                self.unused = Ghost(self.unused@.drop_first());
            }
        } else {
            slot = self.vars.len();
            self.vars.push(
                TBVar { header: TBHeader { next: 0, prev: tail }, generation: 0, value: Some(value) },
            );
        }
        self.vars[tail].header.next = slot;
        self.vars[0].header.prev = slot;
        proof {
            self.linked = Ghost(self.linked@.push(slot));
        }
        let node = NodeId { slot, generation: self.vars[slot].generation };
        proof {
            let pre = *old(self);
            let post = *self;
            assert(!pre.occupied(slot as int));
            assert(!pre.linked@.contains(slot)) by {
                if pre.linked@.contains(slot) {
                    let i = pre.linked@.index_of(slot);
                    assert(pre.link_ok(i));
                }
            }
            assert(post.linked@.no_duplicates());
            assert forall|i: int| 0 <= i < post.linked@.len() implies #[trigger] post.link_ok(i) by {
                if i < n {
                    assert(pre.link_ok(i));
                }
            }
            assert forall|s: int| #[trigger] post.occupied(s) implies post.linked@.contains(
                s as usize,
            ) by {
                if s == slot {
                    assert(post.linked@[n] == slot);
                } else {
                    assert(pre.occupied(s));
                    let i = pre.linked@.index_of(s as usize);
                    assert(post.linked@[i] == s as usize);
                }
            }
            assert(post.unused@.no_duplicates());
            assert forall|j: int| 0 <= j < post.unused@.len() implies #[trigger] post.spare_ok(
                j,
            ) by {
                if pre.spare != 0 {
                    assert(pre.spare_ok(j + 1));
                    assert(pre.unused@[j + 1] != pre.unused@[0]);
                } else {
                    assert(pre.spare_ok(j));
                }
            }
            assert(post.spare == at(post.unused@, 0)) by {
                if pre.spare != 0 {
                    assert(pre.spare_ok(0));
                    if pre.unused@.len() > 1 {
                        assert(pre.spare_ok(1));
                    }
                }
            }
            assert(post.wf());
            assert(post@ =~= pre@.insert(node, value));
            assert(post.order() =~= pre.order().push(node)) by {
                assert forall|i: int| 0 <= i < n implies post.order()[i] == pre.order()[i] by {
                    assert(pre.link_ok(i));
                }
            }
        }
        node
    }

    /// Removes the node `node` from the list by repointing its neighbours to
    /// each other, and hands its value to the caller. Nothing is destroyed.
    pub(crate) fn unlink_var(&mut self, node: NodeId) -> (value: T)
        requires
            old(self).wf(),
            old(self)@.contains_key(node),
        ensures
            Self::unlinks(*old(self), node, *final(self), value),
    {
        let slot: usize = node.slot;
        let ghost k = self.linked@.index_of(slot);
        let ghost n = self.linked@.len() as int;
        proof {
            assert(self.occupied(slot as int));
            assert(self.linked@.contains(slot));
            assert(self.link_ok(k));
            if k > 0 {
                assert(self.link_ok(k - 1));
            }
            if k + 1 < n {
                assert(self.link_ok(k + 1));
            }
        }
        let prev: usize = self.vars[slot].header.prev;
        let next: usize = self.vars[slot].header.next;
        self.vars[next].header.prev = prev;
        self.vars[prev].header.next = next;
        let value = self.vars[slot].value.take().unwrap();
        if self.vars[slot].generation < u64::MAX {
            self.vars[slot].header.next = self.spare;
            self.spare = slot;
            proof {
                self.unused = Ghost(seq![slot] + self.unused@);
            }
        }
        proof {
            self.linked = Ghost(self.linked@.remove(k));
            Self::lemma_unlink_keeps_ring(*old(self), *self, k);
            Self::lemma_unlink_keeps_spares(*old(self), *self, k);
            Self::lemma_unlink_view(*old(self), *self, k);
        }
        value
    }

    /// Removes the node `node` from the list and destroys its value on the
    /// spot.
    pub(crate) fn destroy_var(&mut self, node: NodeId)
        requires
            old(self).wf(),
            old(self)@.contains_key(node),
        ensures
            Self::unlinks(*old(self), node, *final(self), old(self)@[node]),
    {
        let _value = self.unlink_var(node);
    }

    /// Raises the teardown flag and touches nothing else.
    fn raise_flag(&mut self)
        requires
            old(self).wf(),
        ensures
            final(self).wf(),
            final(self).destroying(),
            final(self).spec_owner() == old(self).spec_owner(),
            final(self)@ == old(self)@,
            final(self).order() == old(self).order(),
            forall|k: NodeId| old(self).expired(k) == final(self).expired(k),
    {
        self.destroying = true;
        proof {
            assert forall|i: int| 0 <= i < self.linked@.len() implies #[trigger] self.link_ok(
                i,
            ) by {
                assert(old(self).link_ok(i));
            }
            assert forall|s: int| #[trigger] self.occupied(s) implies self.linked@.contains(
                s as usize,
            ) by {
                assert(old(self).occupied(s));
            }
            assert forall|j: int| 0 <= j < self.unused@.len() implies #[trigger] self.spare_ok(
                j,
            ) by {
                assert(old(self).spare_ok(j));
            }
            assert(self@ =~= old(self)@);
            assert(self.order() =~= old(self).order());
        }
    }

    /// The sweep: unlinks and destroys the node after the head, again and
    /// again, until the head's forward link leads back to the head. It runs
    /// only under a raised flag.
    fn sweep(&mut self)
        requires
            old(self).wf(),
            old(self).destroying(),
        ensures
            Self::tears_down(*old(self), *final(self)),
    {
        while self.vars[0].header.next != 0
            invariant
                self.wf(),
                self.destroying(),
                self.spec_owner() == old(self).spec_owner(),
                forall|k: NodeId|
                    old(self)@.contains_key(k) ==> self@.contains_key(k) || self.expired(k),
                forall|k: NodeId| old(self).expired(k) ==> self.expired(k),
            decreases self.order().len(),
        {
            let slot: usize = self.vars[0].header.next;
            proof {
                assert(self.linked@.len() > 0);
                assert(self.link_ok(0));
            }
            let node = NodeId { slot, generation: self.vars[slot].generation };
            let ghost before = *self;
            self.destroy_var(node);
            proof {
                before.lemma_order_lists_bindings();
                assert(before.order().contains(node));
                assert forall|k: NodeId| old(self)@.contains_key(k) implies self@.contains_key(k)
                    || self.expired(k) by {
                    if before@.contains_key(k) && k != node {
                        assert(self@.contains_key(k));
                    }
                }
            }
        }
        proof {
            if self.linked@.len() > 0 {
                assert(self.link_ok(0));
            }
            assert(self@ =~= Map::<NodeId, T>::empty()) by {
                assert forall|k: NodeId| !self@.contains_key(k) by {
                    if self@.contains_key(k) {
                        assert(self.occupied(k.slot as int));
                    }
                }
            }
            assert(self.order() =~= Seq::<NodeId>::empty());
        }
    }

    /// Lends the value bound under `node`.
    pub(crate) fn peek(&self, node: NodeId) -> (value: &T)
        requires
            self.wf(),
            self@.contains_key(node),
        ensures
            *value == self@[node],
    {
        self.vars[node.slot].value.as_ref().unwrap()
    }

    /// Runs `fun` on the value bound under `node`, which it may change.
    pub(crate) fn visit_mut<F, R>(&mut self, node: NodeId, fun: F) -> (r: R) where
        F: FnOnce(&mut T) -> R,

        requires
            old(self).wf(),
            old(self)@.contains_key(node),
            forall|v: &mut T| *v == old(self)@[node] ==> call_requires(fun, (v,)),
        ensures
            exists|v: &mut T|
                *v == old(self)@[node] && #[trigger] call_ensures(fun, (v,), r) && Self::rewrites(
                    *old(self),
                    node,
                    *final(self),
                    *final(v),
                ),
    {
        let value = self.vars[node.slot].value.as_mut().unwrap();
        let r = fun(value);
        proof {
            let pre = *old(self);
            let post = *self;
            let s = node.slot as int;
            assert(post.vars.len() == pre.vars.len());
            assert(post.vars[s].value is Some);
            assert forall|i: int| 0 <= i < post.linked@.len() implies #[trigger] post.link_ok(i) by {
                assert(pre.link_ok(i));
            }
            assert forall|t: int| #[trigger] post.occupied(t) implies post.linked@.contains(
                t as usize,
            ) by {
                assert(pre.occupied(t));
            }
            assert forall|j: int| 0 <= j < post.unused@.len() implies #[trigger] post.spare_ok(j) by {
                assert(pre.spare_ok(j));
            }
            assert(post.wf());
            assert(post@ =~= pre@.insert(node, post.vars[s].value->0));
            assert(post.order() =~= pre.order()) by {
                assert forall|i: int| 0 <= i < post.linked@.len() implies post.order()[i]
                    == pre.order()[i] by {
                    assert(pre.link_ok(i));
                }
            }
            assert(Self::rewrites(pre, node, post, post.vars[s].value->0));
        }
        r
    }
}

// The shape of the arena, and why unlinking keeps it.
impl<T> TBList<T> {
    spec fn occupied(&self, s: int) -> bool {
        0 < s < self.vars.len() && self.vars[s].value is Some
    }

    spec fn live(&self, node: NodeId) -> bool {
        self.occupied(node.slot as int) && self.vars[node.slot as int].generation
            == node.generation
    }

    spec fn name_of(&self, s: usize) -> NodeId {
        NodeId { slot: s, generation: self.vars[s as int].generation }
    }

    /// The name that stands at slot `s`, where `None` is the list head.
    spec fn stop(&self, s: usize) -> Option<NodeId> {
        if s == 0 {
            None
        } else {
            Some(self.name_of(s))
        }
    }

    spec fn link_ok(&self, i: int) -> bool {
        let s = self.linked@[i] as int;
        &&& self.occupied(s)
        &&& self.vars[s].header.next == at(self.linked@, i + 1)
        &&& self.vars[s].header.prev == at(self.linked@, i - 1)
    }

    spec fn spare_ok(&self, j: int) -> bool {
        let s = self.unused@[j] as int;
        &&& 0 < s < self.vars.len()
        &&& self.vars[s].value is None
        &&& self.vars[s].generation < u64::MAX
        &&& self.vars[s].header.next == at(self.unused@, j + 1)
    }

    /// How the slots of `post` come from those of `pre` when the node at
    /// position `k` of the list leaves it: the two neighbours point to each
    /// other, the slot gives up its value, and nothing else is touched but
    /// the slot's own forward link.
    spec fn unlinked_at(pre: Self, post: Self, k: int) -> bool {
        let slot = pre.linked@[k] as int;
        let prev = pre.vars[slot].header.prev as int;
        let next = pre.vars[slot].header.next as int;
        &&& 0 <= k < pre.linked@.len()
        &&& post.owner == pre.owner
        &&& post.destroying == pre.destroying
        &&& post.vars.len() == pre.vars.len()
        &&& post.linked@ == pre.linked@.remove(k)
        &&& post.vars[slot].value is None
        &&& forall|s: int|
            0 <= s < pre.vars.len() ==> (#[trigger] post.vars[s]).generation
                == pre.vars[s].generation
        &&& forall|s: int|
            0 <= s < pre.vars.len() && s != slot ==> (#[trigger] post.vars[s]).value
                == pre.vars[s].value
        &&& forall|s: int|
            0 <= s < pre.vars.len() && s != slot ==> (#[trigger] post.vars[s]).header.next == (if s
                == prev {
                next as usize
            } else {
                pre.vars[s].header.next
            })
        &&& forall|s: int|
            0 <= s < pre.vars.len() && s != slot ==> (#[trigger] post.vars[s]).header.prev == (if s
                == next {
                prev as usize
            } else {
                pre.vars[s].header.prev
            })
        &&& if pre.vars[slot].generation < u64::MAX {
            &&& post.spare == slot
            &&& post.unused@ == seq![slot as usize] + pre.unused@
            &&& post.vars[slot].header.next == pre.spare
        } else {
            &&& post.spare == pre.spare
            &&& post.unused@ == pre.unused@
        }
    }

    proof fn lemma_unlink_keeps_ring(pre: Self, post: Self, k: int)
        requires
            pre.wf(),
            Self::unlinked_at(pre, post, k),
        ensures
            post.vars[0].value is None,
            post.vars[0].header.next == at(post.linked@, 0),
            post.vars[0].header.prev == at(post.linked@, post.linked@.len() - 1),
            post.linked@.no_duplicates(),
            forall|i: int| 0 <= i < post.linked@.len() ==> #[trigger] post.link_ok(i),
            forall|s: int| #[trigger] post.occupied(s) ==> post.linked@.contains(s as usize),
    {
        let slot = pre.linked@[k];
        let n = pre.linked@.len() as int;
        assert(pre.link_ok(k));
        if k > 0 {
            assert(pre.link_ok(k - 1));
        }
        if k + 1 < n {
            assert(pre.link_ok(k + 1));
        }
        assert forall|i: int, j: int|
            0 <= i < post.linked@.len() && 0 <= j < post.linked@.len() && i
                != j implies post.linked@[i] != post.linked@[j] by {
            let pi = if i < k { i } else { i + 1 };
            let pj = if j < k { j } else { j + 1 };
            assert(pre.linked@[pi] != pre.linked@[pj]);
        }
        assert forall|i: int| 0 <= i < post.linked@.len() implies #[trigger] post.link_ok(i) by {
            let pi = if i < k { i } else { i + 1 };
            let s = pre.linked@[pi] as int;
            assert(pre.link_ok(pi));
            assert(post.linked@[i] == pre.linked@[pi]);
            assert(s != slot);
            assert(post.vars[s].value == pre.vars[s].value);
            assert(at(post.linked@, i + 1) == (if pi + 1 == k {
                at(pre.linked@, k + 1)
            } else {
                at(pre.linked@, pi + 1)
            }));
            assert(at(post.linked@, i - 1) == (if pi - 1 == k {
                at(pre.linked@, k - 1)
            } else {
                at(pre.linked@, pi - 1)
            }));
            if pi + 1 < n {
                assert(pre.link_ok(pi + 1));
            }
            if pi > 0 {
                assert(pre.link_ok(pi - 1));
            }
        }
        assert forall|s: int| #[trigger] post.occupied(s) implies post.linked@.contains(
            s as usize,
        ) by {
            assert(post.vars[s].value == pre.vars[s].value);
            assert(pre.occupied(s));
            let pi = pre.linked@.index_of(s as usize);
            let i = if pi < k { pi } else { pi - 1 };
            assert(post.linked@[i] == s as usize);
        }
    }

    proof fn lemma_unlink_keeps_spares(pre: Self, post: Self, k: int)
        requires
            pre.wf(),
            Self::unlinked_at(pre, post, k),
        ensures
            post.spare == at(post.unused@, 0),
            post.unused@.no_duplicates(),
            forall|j: int| 0 <= j < post.unused@.len() ==> #[trigger] post.spare_ok(j),
    {
        let slot = pre.linked@[k];
        let prev = pre.vars[slot as int].header.prev;
        assert(pre.link_ok(k));
        if k > 0 {
            assert(pre.link_ok(k - 1));
        }
        assert forall|j: int| 0 <= j < pre.unused@.len() implies pre.unused@[j] != slot
            && pre.unused@[j] != prev by {
            assert(pre.spare_ok(j));
        }
        assert forall|j: int| 0 <= j < post.unused@.len() implies #[trigger] post.spare_ok(j) by {
            if pre.vars[slot as int].generation < u64::MAX {
                if j > 0 {
                    assert(pre.spare_ok(j - 1));
                    assert(post.unused@[j] == pre.unused@[j - 1]);
                    assert(at(post.unused@, j + 1) == at(pre.unused@, j));
                } else {
                    assert(at(post.unused@, 1) == at(pre.unused@, 0));
                }
            } else {
                assert(pre.spare_ok(j));
            }
        }
    }

    proof fn lemma_unlink_view(pre: Self, post: Self, k: int)
        requires
            pre.wf(),
            post.wf(),
            Self::unlinked_at(pre, post, k),
        ensures
            Self::unlinks(
                pre,
                pre.name_of(pre.linked@[k]),
                post,
                pre.vars[pre.linked@[k] as int].value->0,
            ),
    {
        let slot = pre.linked@[k];
        let node = pre.name_of(slot);
        assert(pre.link_ok(k));
        assert(post@ =~= pre@.remove(node)) by {
            assert forall|key: NodeId| post@.contains_key(key) <==> pre@.remove(node).contains_key(
                key,
            ) by {
                let s = key.slot as int;
                if 0 < s < pre.vars.len() {
                    assert(post.vars[s].generation == pre.vars[s].generation);
                    if s != slot {
                        assert(post.vars[s].value == pre.vars[s].value);
                    }
                }
            }
            assert forall|key: NodeId| post@.contains_key(key) implies post@[key] == pre@.remove(
                node,
            )[key] by {
                let s = key.slot as int;
                assert(post.vars[s].value == pre.vars[s].value);
            }
        }
        pre.lemma_order_lists_bindings();
        assert(pre.order()[k] == node);
        assert(pre.order().index_of(node) == k);
        assert(post.order() =~= pre.order().remove(k)) by {
            assert forall|i: int| 0 <= i < post.linked@.len() implies post.order()[i]
                == pre.order().remove(k)[i] by {
                let pi = if i < k { i } else { i + 1 };
                assert(pre.link_ok(pi));
                assert(post.vars[pre.linked@[pi] as int].generation == pre.vars[pre.linked@[pi] as int].generation);
            }
        }
        assert(post.vars[slot as int].generation == pre.vars[slot as int].generation);
        assert forall|key: NodeId| pre.expired(key) implies post.expired(key) by {
            let s = key.slot as int;
            assert(post.vars[s].generation == pre.vars[s].generation);
            if s != slot {
                assert(post.vars[s].value == pre.vars[s].value);
            }
        }
    }
}

} // verus!
