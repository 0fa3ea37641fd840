//! Listeners.
use std::sync::Arc;
use std::task::{Context, Poll, Wake, Waker};

use msquic_async::listener::{ListenError, Listener, ListenerEvent};
use msquic_async::status::{Status, StatusCode};

struct NoopWake;

impl Wake for NoopWake {
    fn wake(self: Arc<Self>) {}
}

fn task() -> Waker {
    Waker::from(Arc::new(NoopWake))
}

fn failure() -> Status {
    Status { raw: 1, ok: false, code: Some(StatusCode::InvalidState) }
}

#[test]
fn a_listener_starts_once() {
    let mut listener: Listener<u8> = Listener::new();
    assert!(listener.can_start());
    assert_eq!(listener.start(Err(failure())), Err(ListenError::OtherError(failure())));
    assert!(listener.can_start());
    assert_eq!(listener.start(Ok(())), Ok(()));
    assert!(!listener.can_start());
    assert_eq!(listener.start(Ok(())), Err(ListenError::AlreadyStarted));
}

#[test]
fn connections_are_accepted_in_order() {
    let mut listener: Listener<u8> = Listener::new();
    let (task_a, task_b) = (task(), task());
    let cx = Context::from_waker(&task_a);
    assert_eq!(listener.poll_accept(&cx), Poll::Ready(Err(ListenError::NotStarted)));
    assert_eq!(listener.start(Ok(())), Ok(()));
    for _ in 0..2 {
        assert!(listener.poll_accept(&cx).is_pending());
        assert!(listener.poll_accept(&Context::from_waker(&task_b)).is_pending());
    }
    let (result, woken) =
        listener.handle_event(ListenerEvent::NewConnection { connection: Ok(1) });
    assert_eq!((result, woken.len()), (Ok(()), 2));
    let (result, woken) =
        listener.handle_event(ListenerEvent::NewConnection { connection: Err(failure()) });
    assert_eq!((result, woken.len()), (Err(failure()), 0));
    let (result, _) = listener.handle_event(ListenerEvent::NewConnection { connection: Ok(2) });
    assert_eq!(result, Ok(()));
    assert_eq!(listener.poll_accept(&cx), Poll::Ready(Ok(1)));
    assert_eq!(listener.poll_accept(&cx), Poll::Ready(Ok(2)));
    assert!(listener.poll_accept(&cx).is_pending());
}

#[test]
fn stopping_is_asked_for_once() {
    let mut listener: Listener<u8> = Listener::new();
    let waker = task();
    let cx = Context::from_waker(&waker);
    assert_eq!(listener.poll_stop(&cx), (Poll::Ready(Err(ListenError::NotStarted)), false));
    assert_eq!(listener.start(Ok(())), Ok(()));
    assert_eq!(listener.poll_stop(&cx), (Poll::Pending, true));
    assert_eq!(listener.poll_stop(&cx), (Poll::Pending, false));
    assert_eq!(listener.start(Ok(())), Err(ListenError::AlreadyStarted));
    listener.handle_event(ListenerEvent::NewConnection { connection: Ok(9) });
    let (result, woken) = listener.handle_event(ListenerEvent::StopComplete);
    assert_eq!((result, woken.len()), (Ok(()), 1));
    assert_eq!(listener.poll_stop(&cx), (Poll::Ready(Ok(())), false));
    assert_eq!(listener.poll_accept(&cx), Poll::Ready(Ok(9)), "it arrived before");
    assert_eq!(listener.poll_accept(&cx), Poll::Ready(Err(ListenError::Finished)));
    assert_eq!(listener.start(Ok(())), Ok(()), "a listener can be started again");
}

#[test]
fn acceptors_are_woken_by_the_stop() {
    let mut listener: Listener<u8> = Listener::new();
    let (task_a, task_b) = (task(), task());
    assert_eq!(listener.start(Ok(())), Ok(()));
    assert!(listener.poll_accept(&Context::from_waker(&task_a)).is_pending());
    let _ = listener.poll_stop(&Context::from_waker(&task_b));
    let (_, woken) = listener.handle_event(ListenerEvent::StopComplete);
    assert_eq!(woken.len(), 2);
    assert!(woken[0].will_wake(&task_a));
    assert!(woken[1].will_wake(&task_b));
}
