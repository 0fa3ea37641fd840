//! What registrations promise.
use std::task::{Context, Poll, Waker};

use vstd::prelude::*;

use crate::registration::{
    drained_along, the_last_release_wakes_every_waiter, Registration, RundownGuard, RundownState,
    TrackedHandle, WaitIdle, Waiters,
};
use crate::sync::{context_waker, task_of};

verus! {

/// A new state is idle: no handle is live, and nobody waits.
pub proof fn a_new_state_is_idle(
    state: RundownState,
    idle: bool,
    live: &RundownState,
    live_idle: bool,
)
    requires
        call_ensures(<RundownState as Default>::default, (), state),
        call_ensures(RundownState::is_idle, (&state,), idle),
        call_ensures(RundownState::is_idle, (live,), live_idle),
    ensures
        idle,
        state@.well_formed(),
        state@.active == 0,
        state@.slots == Map::<u64, Waker>::empty(),
        live_idle <==> live@.active == 0,
{
}

/// A reservation keeps the state busy until it is given back: whoever waits for the state to be
/// idle has to wait as long.
pub proof fn a_reservation_keeps_the_state_busy<S>(
    state: S,
    shared: &mut RundownState,
    guard: RundownGuard<S>,
    wait: &mut WaitIdle<S>,
    waiting: &mut RundownState,
    cx: &Context<'_>,
    answer: Poll<()>,
)
    requires
        call_ensures(RundownGuard::<S>::new, (state, shared), guard),
        *old(waiting) == *final(shared),
        call_ensures(WaitIdle::<S>::poll, (wait, waiting, cx), answer),
    ensures
        guard.state == state,
        final(shared)@.active == old(shared)@.active + 1,
        final(shared)@.slots == old(shared)@.slots,
        final(shared)@.next == old(shared)@.next,
        answer is Pending,
{
}

/// The last reservation that is given back makes the state idle and wakes all who wait for that,
/// each of them; then nobody has to wait. One that is not the last wakes nobody.
pub proof fn the_last_release_ends_every_wait<S>(
    guard: RundownGuard<S>,
    shared: &mut RundownState,
    woken: Vec<Waker>,
    key: u64,
    wait: &mut WaitIdle<S>,
    waiting: &mut RundownState,
    cx: &Context<'_>,
    answer: Poll<()>,
)
    requires
        old(shared)@.active > 0,
        call_ensures(RundownGuard::<S>::release, (guard, shared), woken),
        *old(waiting) == *final(shared),
        call_ensures(WaitIdle::<S>::poll, (wait, waiting, cx), answer),
    ensures
        final(shared)@.active == old(shared)@.active - 1,
        final(shared)@.next == old(shared)@.next,
        answer is Ready <==> old(shared)@.active == 1,
        old(shared)@.active == 1 ==> {
            &&& final(shared)@.slots == Map::<u64, Waker>::empty()
            &&& old(shared)@.slots.dom().contains(key) ==> woken@.contains(
                old(shared)@.slots[key],
            )
        },
        old(shared)@.active > 1 ==> woken@.len() == 0 && final(shared)@.slots == old(
            shared,
        )@.slots,
{
    if old(shared)@.active == 1 && old(shared)@.slots.dom().contains(key) {
        the_last_release_wakes_every_waiter(old(shared)@.slots, woken@, key);
    }
}

/// Whoever waits has a slot of their own, in which their task is found; asking again does not take
/// another. Nobody else is pushed out of theirs, and a wait that is over or given up leaves none.
pub proof fn who_waits_has_a_slot<S>(
    wait: &mut WaitIdle<S>,
    shared: &mut RundownState,
    cx: &Context<'_>,
    answer: Poll<()>,
    leaving: &mut WaitIdle<S>,
    left: &mut RundownState,
)
    requires
        old(shared)@.well_formed(),
        old(wait).key is None ==> old(shared)@.next < u64::MAX,
        call_ensures(WaitIdle::<S>::poll, (wait, shared, cx), answer),
        *old(leaving) == *final(wait),
        *old(left) == *final(shared),
        call_ensures(WaitIdle::<S>::deregister, (leaving, left), ()),
    ensures
        answer is Ready <==> old(shared)@.active == 0,
        final(shared)@.active == old(shared)@.active,
        final(wait).state == old(wait).state,
        answer is Pending ==> {
            let before = old(shared)@;
            let after = final(shared)@;
            &&& final(wait).key matches Some(slot)
            &&& old(wait).key is Some ==> final(wait).key == old(wait).key
            &&& old(wait).key is Some ==> after.next == before.next
            &&& old(wait).key is None ==> !before.slots.dom().contains(slot)
            &&& old(wait).key is None ==> after.next == before.next + 1
            &&& after.slots.dom() == before.slots.dom().insert(slot)
            &&& task_of(after.slots[slot]) == task_of(context_waker(*cx))
            &&& forall|other: u64|
                other != slot && #[trigger] before.slots.dom().contains(other)
                    ==> after.slots[other] == before.slots[other]
        },
        answer is Ready ==> final(wait).key is None,
        final(leaving).key is None,
        final(leaving).state == old(wait).state,
        final(left)@.active == old(shared)@.active,
        final(left)@.next == final(shared)@.next,
        final(wait).key matches Some(slot) ==> final(left)@.slots == final(shared)@.slots.remove(
            slot,
        ),
        final(wait).key is None ==> final(left)@.slots == final(shared)@.slots,
        answer is Ready ==> {
            let after = final(shared)@.slots;
            old(wait).key matches Some(slot) ==> !after.dom().contains(slot)
        },
        answer is Ready ==> (old(wait).key is None ==> final(shared)@.slots == old(shared)@.slots),
{
    if answer is Pending {
        assert(final(shared)@.slots.dom() =~= old(shared)@.slots.dom().insert(
            final(wait).key->0,
        ));
    }
}

/// A handle that is opened keeps the unit that was reserved for it, one that fails to open gives it
/// back, and the error is told as it is.
pub proof fn an_open_handle_keeps_its_unit<H, S, E>(
    guard: RundownGuard<S>,
    opened: Result<H, E>,
    shared: &mut RundownState,
    outcome: (Result<TrackedHandle<H, S>, E>, Vec<Waker>),
    key: u64,
)
    requires
        old(shared)@.active > 0,
        call_ensures(TrackedHandle::<H, S>::opened::<E>, (guard, opened, shared), outcome),
    ensures
        match opened {
            Ok(handle) => {
                &&& outcome.0 matches Ok(held)
                &&& held@.handle == handle
                &&& held@.state == guard.state
                &&& outcome.1@.len() == 0
                &&& final(shared)@ == old(shared)@
            },
            Err(error) => {
                &&& outcome.0 matches Err(told)
                &&& told == error
                &&& final(shared)@.active == old(shared)@.active - 1
                &&& final(shared)@.next == old(shared)@.next
                &&& old(shared)@.active > 1 ==> outcome.1@.len() == 0 && final(shared)@.slots
                    == old(shared)@.slots
                &&& old(shared)@.active == 1 ==> {
                    &&& final(shared)@.slots == Map::<u64, Waker>::empty()
                    &&& old(shared)@.slots.dom().contains(key) ==> outcome.1@.contains(
                        old(shared)@.slots[key],
                    )
                }
            },
        },
{
    if opened is Err && old(shared)@.active == 1 && old(shared)@.slots.dom().contains(key) {
        the_last_release_wakes_every_waiter(old(shared)@.slots, outcome.1@, key);
    }
}

/// A handle that MsQuic opened for the peer is reserved as it is taken over. A handle leads to what
/// it was made with, and its unit comes back with it when it is closed.
pub proof fn an_adopted_handle_is_reserved<H, S>(
    state: S,
    handle: H,
    shared: &mut RundownState,
    held: TrackedHandle<H, S>,
    told_handle: &H,
    told_state: &S,
    parts: (H, RundownGuard<S>),
    guard_state: &S,
)
    requires
        call_ensures(TrackedHandle::<H, S>::adopt, (state, handle, shared), held),
        call_ensures(TrackedHandle::<H, S>::handle, (&held,), told_handle),
        call_ensures(TrackedHandle::<H, S>::state, (&held,), told_state),
        call_ensures(TrackedHandle::<H, S>::close, (held,), parts),
        call_ensures(RundownGuard::<S>::state, (&parts.1,), guard_state),
    ensures
        final(shared)@.active == old(shared)@.active + 1,
        final(shared)@.slots == old(shared)@.slots,
        final(shared)@.next == old(shared)@.next,
        *told_handle == handle,
        *told_state == state,
        parts.0 == handle,
        parts.1.state == state,
        *guard_state == state,
{
}

/// Whoever waits on a registration waits for the state that its handles are counted in.
pub proof fn a_registration_is_waited_on<S: Clone>(
    state: S,
    registration: Registration<S>,
    told: &S,
    wait: WaitIdle<S>,
)
    requires
        call_ensures(Registration::<S>::new, (state,), registration),
        call_ensures(Registration::<S>::state, (&registration,), told),
        call_ensures(Registration::<S>::wait_idle, (&registration,), wait),
    ensures
        *told == state,
        cloned(state, wait.state),
        wait.key is None,
{
}

/// All who are registered are handed out, and none is left.
pub proof fn all_waiters_are_drained(waiters: &mut Waiters, woken: Vec<Waker>, key: u64)
    requires
        call_ensures(Waiters::drain, (waiters,), woken),
    ensures
        final(waiters).next == old(waiters).next,
        final(waiters).map@ == Map::<u64, Waker>::empty(),
        old(waiters).map@.dom().contains(key) ==> woken@.contains(old(waiters).map@[key]),
        forall|i: int|
            0 <= i < woken@.len() ==> old(waiters).map@.contains_value(#[trigger] woken@[i]),
        woken@.len() == old(waiters).map@.dom().len(),
{
    let slots = old(waiters).map@;
    if slots.dom().contains(key) {
        the_last_release_wakes_every_waiter(slots, woken@, key);
    }
    let keys = choose|keys: Seq<u64>| #[trigger] drained_along(slots, keys, woken@);
    keys.unique_seq_to_set();
    assert forall|i: int| 0 <= i < woken@.len() implies slots.contains_value(
        #[trigger] woken@[i],
    ) by {
        assert(keys.to_set().contains(keys[i]));
        assert(slots[keys[i]] == woken@[i]);
    }
}

} // verus!
