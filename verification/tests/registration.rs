//! Tracking of live handles.
use std::sync::atomic::{AtomicBool, Ordering};
use std::sync::Arc;
use std::task::{Context, Poll, Wake, Waker};

use msquic_async::registration::{
    Registration, RundownGuard, RundownState, TrackedHandle, WaitIdle,
};

fn wait_idle() -> WaitIdle<()> {
    Registration::new(()).wait_idle()
}

fn reserve(state: &mut RundownState) -> RundownGuard<()> {
    RundownGuard::new((), state)
}

fn release(guard: RundownGuard<()>, state: &mut RundownState) {
    for waker in guard.release(state) {
        waker.wake();
    }
}

struct FlagWaker(Arc<AtomicBool>);
impl Wake for FlagWaker {
    fn wake(self: Arc<Self>) {
        self.0.store(true, Ordering::SeqCst);
    }
}

fn flag_waker() -> (Waker, Arc<AtomicBool>) {
    let flag = Arc::new(AtomicBool::new(false));
    (Waker::from(Arc::new(FlagWaker(flag.clone()))), flag)
}

fn poll_with(fut: &mut WaitIdle<()>, state: &mut RundownState, waker: &Waker) -> Poll<()> {
    fut.poll(state, &Context::from_waker(waker))
}

fn poll(fut: &mut WaitIdle<()>, state: &mut RundownState) -> Poll<()> {
    let (waker, _) = flag_waker();
    poll_with(fut, state, &waker)
}

#[test]
fn idle_from_start_resolves_immediately() {
    let mut state = RundownState::default();
    assert_eq!(poll(&mut wait_idle(), &mut state), Poll::Ready(()));
}

#[test]
fn reservation_keeps_pending_until_dropped() {
    let mut state = RundownState::default();
    let guard = reserve(&mut state);
    let mut fut = wait_idle();
    assert_eq!(poll(&mut fut, &mut state), Poll::Pending);
    release(guard, &mut state);
    assert_eq!(poll(&mut fut, &mut state), Poll::Ready(()));
}

#[test]
fn guard_drop_wakes_registered_waiter() {
    let mut state = RundownState::default();
    let guard = reserve(&mut state);
    let mut fut = wait_idle();

    let (waker, woken) = flag_waker();
    assert_eq!(poll_with(&mut fut, &mut state, &waker), Poll::Pending);
    assert!(!woken.load(Ordering::SeqCst));

    release(guard, &mut state);
    assert!(woken.load(Ordering::SeqCst), "waiter should be woken");
    assert_eq!(poll(&mut fut, &mut state), Poll::Ready(()));
}

#[test]
fn concurrent_waiters_all_complete() {
    let mut state = RundownState::default();
    let guard = reserve(&mut state);
    let (mut a, mut b) = (wait_idle(), wait_idle());
    assert_eq!(poll(&mut a, &mut state), Poll::Pending);
    assert_eq!(poll(&mut b, &mut state), Poll::Pending);
    release(guard, &mut state);
    assert_eq!(poll(&mut a, &mut state), Poll::Ready(()));
    assert_eq!(poll(&mut b, &mut state), Poll::Ready(()));
}

#[test]
fn dropped_waiter_deregisters_its_slot() {
    let mut state = RundownState::default();
    let guard = reserve(&mut state);
    let mut fut = wait_idle();
    assert_eq!(poll(&mut fut, &mut state), Poll::Pending);
    assert_eq!(state.waiters.map.len(), 1);
    fut.deregister(&mut state);
    assert_eq!(state.waiters.map.len(), 0, "slot must be removed on drop");
    release(guard, &mut state);
}

#[test]
fn nested_reservations_need_all_released() {
    let mut state = RundownState::default();
    let first = reserve(&mut state);
    let second = reserve(&mut state);
    let mut fut = wait_idle();
    assert_eq!(poll(&mut fut, &mut state), Poll::Pending);
    release(first, &mut state);
    assert_eq!(poll(&mut fut, &mut state), Poll::Pending);
    release(second, &mut state);
    assert_eq!(poll(&mut fut, &mut state), Poll::Ready(()));
}

#[test]
fn all_waiters_are_woken_by_the_last_guard_only() {
    let mut state = RundownState::default();
    let first = reserve(&mut state);
    let second = reserve(&mut state);
    let mut futures = [wait_idle(), wait_idle(), wait_idle()];
    let mut flags = Vec::new();
    for fut in futures.iter_mut() {
        let (waker, flag) = flag_waker();
        assert_eq!(poll_with(fut, &mut state, &waker), Poll::Pending);
        flags.push(flag);
    }
    assert_eq!(state.waiters.map.len(), 3);
    release(second, &mut state);
    assert!(flags.iter().all(|flag| !flag.load(Ordering::SeqCst)));
    assert!(!state.is_idle());
    release(first, &mut state);
    assert!(flags.iter().all(|flag| flag.load(Ordering::SeqCst)));
    assert!(state.is_idle());
    assert_eq!(state.waiters.map.len(), 0);
}

#[test]
fn polling_again_keeps_the_slot() {
    let mut state = RundownState::default();
    let guard = reserve(&mut state);
    let mut fut = wait_idle();
    let (first, first_woken) = flag_waker();
    let (second, second_woken) = flag_waker();
    assert_eq!(poll_with(&mut fut, &mut state, &first), Poll::Pending);
    assert_eq!(fut.key, Some(0));
    assert_eq!(poll_with(&mut fut, &mut state, &second), Poll::Pending);
    assert_eq!(fut.key, Some(0));
    assert_eq!(state.waiters.map.len(), 1);
    assert_eq!(state.waiters.next, 1);
    release(guard, &mut state);
    assert!(!first_woken.load(Ordering::SeqCst));
    assert!(second_woken.load(Ordering::SeqCst));
}

#[test]
fn an_open_handle_keeps_its_unit_until_it_is_closed() {
    let mut state = RundownState::default();
    let mut fut = wait_idle();
    let (waker, woken) = flag_waker();

    let guard = reserve(&mut state);
    let (listener, wakers) = TrackedHandle::opened::<()>(guard, Ok("listener"), &mut state);
    let listener = listener.unwrap();
    assert!(wakers.is_empty());
    assert_eq!((*listener.handle(), *listener.state()), ("listener", ()));
    let stream = TrackedHandle::adopt((), "stream", &mut state);
    assert_eq!(*stream.handle(), "stream");
    assert_eq!(state.active, 2);
    assert_eq!(poll_with(&mut fut, &mut state, &waker), Poll::Pending);

    let (handle, guard) = listener.close();
    assert_eq!(handle, "listener");
    assert_eq!(state.active, 2, "the handle is yet to be closed");
    release(guard, &mut state);
    assert_eq!(poll_with(&mut fut, &mut state, &waker), Poll::Pending);
    assert!(!woken.load(Ordering::SeqCst));

    let (_, guard) = stream.close();
    release(guard, &mut state);
    assert!(woken.load(Ordering::SeqCst));
    assert_eq!(poll(&mut fut, &mut state), Poll::Ready(()));
}

#[test]
fn a_handle_that_fails_to_open_gives_its_unit_back() {
    let mut state = RundownState::default();
    let guard = reserve(&mut state);
    let mut fut = wait_idle();
    let (waker, woken) = flag_waker();
    assert_eq!(poll_with(&mut fut, &mut state, &waker), Poll::Pending);
    let (outcome, wakers) = TrackedHandle::<&str, ()>::opened(guard, Err(7), &mut state);
    assert_eq!(outcome.err(), Some(7));
    for waker in wakers {
        waker.wake();
    }
    assert!(woken.load(Ordering::SeqCst));
    assert_eq!(poll(&mut fut, &mut state), Poll::Ready(()));
}

#[test]
fn guards_lead_to_their_state() {
    let mut state = RundownState::default();
    let registration = Registration::new(7u32);
    assert_eq!(*registration.state(), 7);
    let guard = RundownGuard::new(*registration.state(), &mut state);
    assert_eq!(*guard.state(), 7);
    assert_eq!(registration.wait_idle().state, 7);
    assert_eq!(state.active, 1);
}
