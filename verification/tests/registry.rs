use std::cell::RefCell;
use std::rc::Rc;
use thread_bound::{Disposal, NonceSource, TBList, ThreadBound, ThreadId};

fn some_thread() -> ThreadId {
    NonceSource::new().issue()
}

/// Writes its label into a shared log when it is destroyed.
struct Marked {
    label: u32,
    log: Rc<RefCell<Vec<u32>>>,
}

impl Drop for Marked {
    fn drop(&mut self) {
        self.log.borrow_mut().push(self.label);
    }
}

#[test]
fn new_registry_is_empty_and_alive() {
    let here = some_thread();
    let list: TBList<u32> = TBList::new(here);
    assert!(list.is_empty());
    assert!(!list.is_destroying());
    assert_eq!(list.owner(), here);
}

#[test]
fn bind_adds_one_value() {
    let here = some_thread();
    let mut list = TBList::new(here);
    let cap = list.bind(String::from("kept"));
    assert!(!list.is_empty());
    assert!(list.contains(cap.node()));
    assert!(cap.is_bound_in(&list));
    assert_eq!(cap.with(&list, &here, |s| s.len()), 4);
}

#[test]
fn values_come_back_in_any_order() {
    let here = some_thread();
    let mut list = TBList::new(here);
    let caps: Vec<ThreadBound<u32>> = (0..8).map(|v| list.bind(v * 10)).collect();
    let mut caps: Vec<(u32, ThreadBound<u32>)> = (0..8).zip(caps).collect();
    // Middle first, then the ends, then the rest.
    for &pick in &[4usize, 0, 5, 0, 2, 1, 0, 0] {
        let (v, cap) = caps.remove(pick);
        assert_eq!(cap.into_inner(&mut list, &here), v * 10);
    }
    assert!(list.is_empty());
}

#[test]
fn slots_are_reused_under_new_names() {
    let here = some_thread();
    let mut list = TBList::new(here);
    let first = list.bind(1);
    let stale = first.node();
    assert_eq!(first.into_inner(&mut list, &here), 1);
    assert!(!list.contains(stale));
    let second = list.bind(2);
    assert!(second.node() != stale);
    assert!(!list.contains(stale));
    assert!(list.contains(second.node()));
    assert_eq!(second.into_inner(&mut list, &here), 2);
}

#[test]
fn many_binds_and_releases_keep_the_ring_sound() {
    let here = some_thread();
    let mut list = TBList::new(here);
    let mut held: Vec<(u64, ThreadBound<u64>)> = Vec::new();
    let mut next: u64 = 0;
    let mut state: u64 = 0x9e37_79b9_7f4a_7c15;
    for _ in 0..2000 {
        state = state.wrapping_mul(6364136223846793005).wrapping_add(1442695040888963407);
        let draw = (state >> 33) as usize;
        if held.is_empty() || draw % 3 != 0 {
            held.push((next, list.bind(next)));
            next += 1;
        } else {
            let (v, cap) = held.swap_remove(draw % held.len());
            assert_eq!(cap.with(&list, &here, |x| *x), v);
            if draw % 2 == 0 {
                assert_eq!(cap.into_inner(&mut list, &here), v);
            } else {
                assert_eq!(cap.release(&mut list, &here), Disposal::Destroyed);
            }
        }
        for (v, cap) in &held {
            assert!(cap.is_bound_in(&list));
            assert_eq!(cap.with(&list, &here, |x| *x), *v);
        }
        assert_eq!(list.is_empty(), held.is_empty());
    }
}

#[test]
fn teardown_destroys_every_remaining_value_once() {
    let here = some_thread();
    let log = Rc::new(RefCell::new(Vec::new()));
    let mut list = TBList::new(here);
    let mut caps = Vec::new();
    for label in 0..6 {
        caps.push(list.bind(Marked { label, log: log.clone() }));
    }
    // Two leave before teardown, one by each road.
    let taken = caps.remove(1).into_inner(&mut list, &here);
    assert_eq!(caps.remove(2).release(&mut list, &here), Disposal::Destroyed);
    assert_eq!(*log.borrow(), vec![3]);

    list.teardown();
    assert!(list.is_destroying());
    assert!(list.is_empty());
    let mut swept = log.borrow().clone();
    swept.sort();
    assert_eq!(swept, vec![0, 2, 3, 4, 5]);
    for cap in &caps {
        assert!(!cap.is_bound_in(&list));
        assert!(!cap.accessible(&list, &here));
    }
    drop(taken);
    assert_eq!(log.borrow().len(), 6);
}

#[test]
fn teardown_of_an_empty_registry() {
    let here = some_thread();
    let mut list: TBList<u8> = TBList::new(here);
    list.teardown();
    assert!(list.is_destroying());
    assert!(list.is_empty());
    assert_eq!(list.owner(), here);
}

#[test]
fn teardown_twice_changes_nothing_more() {
    let here = some_thread();
    let log = Rc::new(RefCell::new(Vec::new()));
    let mut list = TBList::new(here);
    let _cap = list.bind(Marked { label: 9, log: log.clone() });
    list.teardown();
    list.teardown();
    assert!(list.is_destroying());
    assert_eq!(*log.borrow(), vec![9]);
}

#[test]
fn scope_returns_what_the_closure_returned() {
    let here = some_thread();
    let (sum, husk) = TBList::scope(here, |list| {
        let a = list.bind(40);
        let b = list.bind(2);
        let x = a.into_inner(list, &here);
        let y = b.with(list, &here, |v| *v);
        x + y
    });
    assert_eq!(sum, 42);
    assert!(husk.is_destroying());
    assert!(husk.is_empty());
    assert_eq!(husk.owner(), here);
}

#[test]
fn scope_sweeps_what_was_left_bound() {
    let here = some_thread();
    let log = Rc::new(RefCell::new(Vec::new()));
    let inner = log.clone();
    let (count, _husk) = TBList::scope(here, move |list| {
        let _a = list.bind(Marked { label: 1, log: inner.clone() });
        let _b = list.bind(Marked { label: 2, log: inner.clone() });
        inner.borrow().len()
    });
    assert_eq!(count, 0);
    let mut swept = log.borrow().clone();
    swept.sort();
    assert_eq!(swept, vec![1, 2]);
}
