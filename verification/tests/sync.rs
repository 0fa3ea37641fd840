//! Lists of wakers.
use std::sync::Arc;
use std::task::{Context, Wake, Waker};

use msquic_async::sync::{append_waker, drain_wakers, register_waker};

struct NoopWake;

impl Wake for NoopWake {
    fn wake(self: Arc<Self>) {}
}

#[test]
fn register_waker_keeps_one_entry_per_task() {
    let task_a = Waker::from(Arc::new(NoopWake));
    let task_b = Waker::from(Arc::new(NoopWake));
    let mut waiters = Vec::new();

    for _ in 0..8 {
        register_waker(&mut waiters, &Context::from_waker(&task_a));
    }
    assert_eq!(waiters.len(), 1, "re-polling one task registers it once");

    register_waker(&mut waiters, &Context::from_waker(&task_b));
    assert_eq!(waiters.len(), 2, "another task registers separately");

    // Waking drains the list, and whoever is still waiting registers again.
    waiters.clear();
    register_waker(&mut waiters, &Context::from_waker(&task_a));
    assert_eq!(waiters.len(), 1);
}

#[test]
fn no_entry_is_recognised_by_one_before_it() {
    let tasks: Vec<Waker> = (0..4).map(|_| Waker::from(Arc::new(NoopWake))).collect();
    let mut waiters = Vec::new();
    for i in [0, 1, 0, 2, 1, 3, 3, 0] {
        let before = waiters.len();
        register_waker(&mut waiters, &Context::from_waker(&tasks[i]));
        assert!(waiters.len() <= before + 1);
    }
    assert_eq!(waiters.len(), 4);
    for i in 0..waiters.len() {
        for j in i + 1..waiters.len() {
            assert!(!waiters[i].will_wake(&waiters[j]));
        }
    }
}

#[test]
fn append_waker_adds_an_entry_every_time() {
    let task = Waker::from(Arc::new(NoopWake));
    let mut waiters = Vec::new();
    for _ in 0..3 {
        append_waker(&mut waiters, &Context::from_waker(&task));
    }
    assert_eq!(waiters.len(), 3);
    assert!(waiters.iter().all(|waiter| waiter.will_wake(&task)));
}

#[test]
fn drain_wakers_keeps_the_order() {
    let task_a = Waker::from(Arc::new(NoopWake));
    let task_b = Waker::from(Arc::new(NoopWake));
    let mut waiters = Vec::new();
    register_waker(&mut waiters, &Context::from_waker(&task_a));
    register_waker(&mut waiters, &Context::from_waker(&task_b));
    let woken = drain_wakers(&mut waiters);
    assert!(waiters.is_empty());
    assert_eq!(woken.len(), 2);
    assert!(woken[0].will_wake(&task_a) && !woken[0].will_wake(&task_b));
    assert!(woken[1].will_wake(&task_b) && !woken[1].will_wake(&task_a));
}
