use hexchat::dispatch::{Listener, ListenerQueue};
use hexchat::hook::{EatMode, Priority};

#[test]
fn listeners_run_by_descending_priority() {
    let mut q = ListenerQueue::new();
    q.add(Listener { id: 1, priority: Priority(5) });
    q.add(Listener { id: 2, priority: Priority(-5) });
    q.add(Listener { id: 3, priority: Priority(0) });
    let called = q.dispatch(&|_id: u64| EatMode::Nothing);
    assert_eq!(called, vec![1, 3, 2]);
    assert_eq!(q.order(), vec![1, 3, 2]);
}

#[test]
fn equal_priorities_run_in_registration_order() {
    let mut q = ListenerQueue::new();
    q.add(Listener { id: 1, priority: Priority(0) });
    q.add(Listener { id: 2, priority: Priority(0) });
    q.add(Listener { id: 3, priority: Priority(1) });
    assert_eq!(q.order(), vec![3, 1, 2]);
}

#[test]
fn eating_listener_stops_the_dispatch() {
    let mut q = ListenerQueue::new();
    q.add(Listener { id: 1, priority: Priority(0) });
    q.add(Listener { id: 2, priority: Priority(10) });
    let called = q.dispatch(&|id: u64| if id == 2 { EatMode::All } else { EatMode::Nothing });
    assert_eq!(called, vec![2]);
}

#[test]
fn hexchat_eat_does_not_stop_other_listeners() {
    let mut q = ListenerQueue::new();
    q.add(Listener { id: 1, priority: Priority(0) });
    q.add(Listener { id: 2, priority: Priority(10) });
    let called = q.dispatch(&|_id: u64| EatMode::Hexchat);
    assert_eq!(called, vec![2, 1]);
    assert_eq!(q.len(), 2);
}
