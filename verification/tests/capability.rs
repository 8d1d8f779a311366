use std::cell::Cell;
use std::rc::Rc;
use thread_bound::{
    current_thread_id, AccessFault, Disposal, NonceSource, TBList, ThreadBound, ThreadId,
    ThreadNonce,
};

/// Two threads that share one source of identities.
fn two_threads() -> (ThreadId, ThreadId) {
    let mut source = NonceSource::new();
    let mut nonce_a = ThreadNonce::new();
    let mut nonce_b = ThreadNonce::new();
    let a = current_thread_id(&mut nonce_a, &mut source);
    let b = current_thread_id(&mut nonce_b, &mut source);
    (a, b)
}

/// Counts how often its destructor has run.
struct Trap(Rc<Cell<u32>>);

impl Drop for Trap {
    fn drop(&mut self) {
        self.0.set(self.0.get() + 1);
    }
}

/// What a guarded `with_mut` does: the guard first, then the visit.
fn guarded_with_mut<T, R>(
    cap: &mut ThreadBound<T>,
    list: &mut TBList<T>,
    here: &ThreadId,
    fun: impl FnOnce(&mut T) -> R,
) -> Result<R, AccessFault> {
    cap.check_access(list, here)?;
    assert!(cap.is_bound_in(list));
    Ok(cap.with_mut(list, here, fun))
}

#[test]
fn round_tripping() {
    let (here, _) = two_threads();
    let mut local = TBList::new(here);
    let y = 42;
    let mut cap = ThreadBound::new(&mut local, y);

    assert!(cap.accessible(&local, &here));

    cap.with(&local, &here, |r1| assert_eq!(*r1, 42));
    cap.with_mut(&mut local, &here, |r2| assert_eq!(*r2, 42));
    let r3: i32 = cap.into_inner(&mut local, &here);
    assert_eq!(r3, 42);
}

#[test]
fn wrong_thread_throws() {
    let (here, elsewhere) = two_threads();
    let mut local = TBList::new(here);
    let mut cap = ThreadBound::new(&mut local, 42);
    let res = guarded_with_mut(&mut cap, &mut local, &elsewhere, |r| *r = 55);
    let fault = res.err().unwrap();
    assert_eq!(fault, AccessFault::WrongThread);
    assert_eq!(fault.message(), "Attempt to access ThreadBound from incorrect thread");
    // The refused write did not happen.
    assert_eq!(cap.into_inner(&mut local, &here), 42);
}

#[test]
fn wrong_thread_inaccessible() {
    let (here, elsewhere) = two_threads();
    let mut local = TBList::new(here);
    let cap = ThreadBound::new(&mut local, 42);
    assert!(!cap.accessible(&local, &elsewhere));
}

#[test]
fn inaccessible_after_teardown() {
    let (here, elsewhere) = two_threads();
    let (cap, husk) = TBList::scope(here, |list| list.bind(42));
    assert!(!cap.accessible(&husk, &here));

    let (mut cap2, mut husk2) = TBList::scope(elsewhere, |list| list.bind(42));
    let error = guarded_with_mut(&mut cap2, &mut husk2, &elsewhere, |r| *r = 55)
        .err()
        .unwrap();

    assert_eq!(error.message(), "Attempt to access ThreadBound during TLS destruction phase");
}

#[test]
fn sync_drop() {
    let (here, _) = two_threads();
    let mut local = TBList::new(here);
    let was_dropped = Rc::new(Cell::new(0));
    let cap = ThreadBound::new(&mut local, Trap(was_dropped.clone()));
    assert_eq!(cap.release(&mut local, &here), Disposal::Destroyed);
    assert_eq!(was_dropped.get(), 1);
}

#[test]
fn async_drop() {
    let (owner, elsewhere) = two_threads();
    let was_dropped = Rc::new(Cell::new(0));
    let mut local = TBList::new(owner);
    let cap = ThreadBound::new(&mut local, Trap(was_dropped.clone()));
    // Released on the other thread: nothing is destroyed there.
    assert_eq!(cap.release(&mut local, &elsewhere), Disposal::Deferred);
    let early_dropped = was_dropped.get();
    // The owning thread exits: its registry is torn down.
    local.teardown();
    assert_eq!(early_dropped, 0);
    assert_eq!(was_dropped.get(), 1);
}

#[test]
fn moved_capability_is_refused_elsewhere_and_served_at_home() {
    let (a, b) = two_threads();
    let mut list_a = TBList::new(a);
    let mut cap = list_a.bind(42);

    // On thread B.
    assert!(!cap.accessible(&list_a, &b));
    assert_eq!(cap.check_access(&list_a, &b), Err(AccessFault::WrongThread));
    assert_eq!(
        guarded_with_mut(&mut cap, &mut list_a, &b, |r| *r = 7),
        Err(AccessFault::WrongThread)
    );

    // Back on thread A.
    assert_eq!(cap.check_access(&list_a, &a), Ok(()));
    assert_eq!(cap.with(&list_a, &a, |r| *r), 42);
}

#[test]
fn scoped_marker_fires_at_once_when_released_in_scope() {
    let (a, _) = two_threads();
    let fired = Rc::new(Cell::new(0));
    let marker = Trap(fired.clone());
    let seen = fired.clone();
    let (during, _husk) = TBList::scope(a, move |list| {
        let cap = list.bind(marker);
        let done = cap.release(list, &a);
        (done, seen.get())
    });
    assert_eq!(during, (Disposal::Destroyed, 1));
    assert_eq!(fired.get(), 1);
}

#[test]
fn escaped_capability_is_torn_down_with_its_scope() {
    let (a, _) = two_threads();
    let fired = Rc::new(Cell::new(0));
    let marker = Trap(fired.clone());
    let seen = fired.clone();
    let ((cap, before), mut husk) = TBList::scope(a, move |list| {
        let cap = list.bind(marker);
        (cap, seen.get())
    });
    assert_eq!(before, 0);
    // The sweep destroyed the value when the scope ended.
    assert_eq!(fired.get(), 1);
    assert!(husk.is_destroying());
    assert_eq!(cap.check_access(&husk, &a), Err(AccessFault::TornDown));
    assert!(!cap.is_bound_in(&husk));
    // Releasing the escaped capability touches nothing.
    assert_eq!(cap.release(&mut husk, &a), Disposal::Deferred);
    assert_eq!(fired.get(), 1);
}

#[test]
fn wrong_thread_comes_before_torn_down() {
    let (a, b) = two_threads();
    let (cap, husk) = TBList::scope(a, |list| list.bind(1u8));
    assert_eq!(cap.check_access(&husk, &b), Err(AccessFault::WrongThread));
    assert_eq!(cap.check_access(&husk, &a), Err(AccessFault::TornDown));
}

#[test]
fn wrong_thread_faults_whatever_became_of_the_value() {
    let (a, b) = two_threads();
    let mut list = TBList::new(a);
    let first = list.bind("first");
    let second = list.bind("second");
    assert_eq!(first.check_access(&list, &b), Err(AccessFault::WrongThread));
    // The other value is consumed at home; the first is still refused
    // elsewhere and still holds what it held.
    assert_eq!(second.into_inner(&mut list, &a), "second");
    assert_eq!(first.check_access(&list, &b), Err(AccessFault::WrongThread));
    assert_eq!(first.with(&list, &a, |v| *v), "first");
    // And once it is consumed itself, a capability of the same shape is
    // refused elsewhere all the same.
    let again = list.bind("third");
    assert_eq!(first.into_inner(&mut list, &a), "first");
    assert_eq!(again.check_access(&list, &b), Err(AccessFault::WrongThread));
    assert_eq!(again.into_inner(&mut list, &a), "third");
}

#[test]
fn with_mut_changes_only_its_own_value() {
    let (a, _) = two_threads();
    let mut list = TBList::new(a);
    let mut one = list.bind(1);
    let two = list.bind(2);
    let old = one.with_mut(&mut list, &a, |v| {
        let old = *v;
        *v = 55;
        old
    });
    assert_eq!(old, 1);
    assert_eq!(one.with(&list, &a, |v| *v), 55);
    assert_eq!(two.with(&list, &a, |v| *v), 2);
    assert_eq!(one.into_inner(&mut list, &a), 55);
    assert_eq!(two.into_inner(&mut list, &a), 2);
}

#[test]
fn fault_messages() {
    assert_eq!(
        AccessFault::WrongThread.message(),
        "Attempt to access ThreadBound from incorrect thread"
    );
    assert_eq!(
        AccessFault::TornDown.message(),
        "Attempt to access ThreadBound during TLS destruction phase"
    );
}

#[test]
fn capability_remembers_its_owner() {
    let (a, b) = two_threads();
    let mut list = TBList::new(a);
    let cap = ThreadBound::new(&mut list, 0u8);
    assert_eq!(cap.owner(), a);
    assert!(cap.owner() != b);
    assert_eq!(list.owner(), a);
    assert!(list.contains(cap.node()));
}

#[test]
fn release_on_foreign_thread_keeps_the_value_bound() {
    let (a, b) = two_threads();
    let fired = Rc::new(Cell::new(0));
    let mut list = TBList::new(a);
    let cap = list.bind(Trap(fired.clone()));
    let node = cap.node();
    assert_eq!(cap.release(&mut list, &b), Disposal::Deferred);
    assert!(list.contains(node));
    assert!(!list.is_empty());
    assert_eq!(fired.get(), 0);
    list.teardown();
    assert!(!list.contains(node));
    assert!(list.is_empty());
    assert_eq!(fired.get(), 1);
}

#[test]
fn into_inner_runs_no_destructor() {
    let (a, _) = two_threads();
    let fired = Rc::new(Cell::new(0));
    let mut list = TBList::new(a);
    let cap = list.bind(Trap(fired.clone()));
    let value = cap.into_inner(&mut list, &a);
    assert_eq!(fired.get(), 0);
    list.teardown();
    assert_eq!(fired.get(), 0);
    drop(value);
    assert_eq!(fired.get(), 1);
}

#[test]
fn thread_check_stands_before_the_registry() {
    let (a, b) = two_threads();
    let mut list = TBList::new(a);
    let cap = list.bind(3u8);
    assert_eq!(cap.check_thread(&a), Ok(()));
    assert_eq!(cap.check_thread(&b), Err(AccessFault::WrongThread));
    list.teardown();
    // The thread check knows nothing of teardown; the full guard does.
    assert_eq!(cap.check_thread(&a), Ok(()));
    assert_eq!(cap.check_access(&list, &a), Err(AccessFault::TornDown));
    assert_eq!(cap.check_thread(&b), Err(AccessFault::WrongThread));
}

#[test]
fn release_at_home_spares_the_other_values() {
    let (a, _) = two_threads();
    let fired = Rc::new(Cell::new(0));
    let mut list = TBList::new(a);
    let keep = list.bind(Trap(fired.clone()));
    let gone = list.bind(Trap(fired.clone()));
    assert_eq!(gone.release(&mut list, &a), Disposal::Destroyed);
    assert_eq!(fired.get(), 1);
    assert!(keep.is_bound_in(&list));
    assert!(keep.accessible(&list, &a));
    drop(keep.into_inner(&mut list, &a));
    assert_eq!(fired.get(), 2);
    assert!(list.is_empty());
}
