//! Tracking of live handles, so that teardown can wait for the last of them.
use std::collections::HashMap;
use std::task::{Context, Poll, Waker};

use vstd::prelude::*;

use crate::sync::{context_waker, task_of};

verus! {

broadcast use vstd::std_specs::hash::group_hash_axioms;

/// Wakers for all outstanding [`WaitIdle`] futures, each in a slot of its own.
pub struct Waiters {
    /// The next slot to hand out.
    pub next: u64,
    pub map: HashMap<u64, Waker>,
}

/// Rundown-tracking state of one [`Registration`].
///
/// `active` counts the reservations of live handles (connections, listeners and streams). A
/// handle is reserved before it is opened and released after it is closed, so `active == 0` means
/// that nothing is left which must outlive the registration.
pub struct RundownState {
    pub active: usize,
    pub waiters: Waiters,
}

/// What a [`RundownState`] holds.
#[verifier::ext_equal]
pub struct RundownView {
    pub active: nat,
    pub next: nat,
    pub slots: Map<u64, Waker>,
}

impl View for RundownState {
    type V = RundownView;

    open spec fn view(&self) -> RundownView {
        RundownView {
            active: self.active as nat,
            next: self.waiters.next as nat,
            slots: self.waiters.map@,
        }
    }
}

impl RundownView {
    /// Only slots that were handed out are in use, and nobody is left registered once the state
    /// is idle: no wakeup can be lost.
    pub open spec fn well_formed(self) -> bool {
        &&& forall|key: u64| #[trigger] self.slots.dom().contains(key) ==> key < self.next
        &&& self.active == 0 ==> self.slots == Map::<u64, Waker>::empty()
    }
}

/// `woken` lists the wakers of `slots`, each slot once, in any order.
pub open spec fn drained(slots: Map<u64, Waker>, woken: Seq<Waker>) -> bool {
    exists|keys: Seq<u64>| #[trigger] drained_along(slots, keys, woken)
}

/// `woken` lists the wakers of `slots` in the order of `keys`, which names each slot once.
pub open spec fn drained_along(slots: Map<u64, Waker>, keys: Seq<u64>, woken: Seq<Waker>) -> bool {
    &&& keys.no_duplicates()
    &&& keys.to_set() == slots.dom()
    &&& woken.len() == keys.len()
    &&& forall|i: int| 0 <= i < keys.len() ==> #[trigger] woken[i] == slots[keys[i]]
}

/// A unit was given back, and `woken` is to be woken: every registered waker where it was the last
/// unit, else none.
pub open spec fn released(before: RundownView, woken: Seq<Waker>, after: RundownView) -> bool {
    &&& after.active == before.active - 1
    &&& after.next == before.next
    &&& if before.active == 1 {
        &&& after.slots == Map::<u64, Waker>::empty()
        &&& drained(before.slots, woken)
    } else {
        &&& after.slots == before.slots
        &&& woken == Seq::<Waker>::empty()
    }
}

impl Default for RundownState {
    fn default() -> (state: Self)
        ensures
            state@ == (RundownView { active: 0, next: 0, slots: Map::empty() }),
            state@.well_formed(),
    {
        RundownState { active: 0, waiters: Waiters { next: 0, map: HashMap::new() } }
    }
}

impl RundownState {
    /// No handle is live.
    pub fn is_idle(&self) -> (idle: bool)
        ensures
            idle == (self@.active == 0),
    {
        self.active == 0
    }
}

impl Waiters {
    /// Take every registered waker out of its slot.
    pub fn drain(&mut self) -> (woken: Vec<Waker>)
        ensures
            final(self).next == old(self).next,
            final(self).map@ == Map::<u64, Waker>::empty(),
            drained(old(self).map@, woken@),
    {
        let ghost slots = self.map@;
        let ghost listed = vstd::std_specs::iter::IteratorSpec::remaining(&self.map.keys());
        let mut keys: Vec<u64> = Vec::new();
        for key in iter: self.map.keys()
            invariant
                iter.seq() == listed,
                keys@ == listed.unref().take(iter.index() as int),
        {
            keys.push(*key);
            assert(keys@ =~= listed.unref().take(iter.index() + 1));
        }
        proof {
            assert(keys@ =~= listed.unref());
            assert(keys@.no_duplicates()) by {
                assert forall|i: int, j: int|
                    0 <= i < keys@.len() && 0 <= j < keys@.len() && i != j implies keys@[i]
                    != keys@[j] by {
                    assert(listed[i] != listed[j]);
                }
            }
        }
        let mut woken: Vec<Waker> = Vec::new();
        let mut i: usize = 0;
        while i < keys.len()
            invariant
                i <= keys.len(),
                keys@.no_duplicates(),
                keys@.to_set() == slots.dom(),
                self.next == old(self).next,
                woken@.len() == i,
                forall|j: int| 0 <= j < i ==> #[trigger] woken@[j] == slots[keys@[j]],
                self.map@ == slots.remove_keys(keys@.take(i as int).to_set()),
            decreases keys.len() - i,
        {
            let ghost before = keys@.take(i as int);
            let ghost key = keys@[i as int];
            assert(keys@.to_set().contains(key));
            assert(!before.contains(key));
            if let Some(waker) = self.map.remove(&keys[i]) {
                woken.push(waker);
            }
            i += 1;
            assert(keys@.take(i as int) =~= before.push(key));
            assert(before.push(key).to_set() =~= before.to_set().insert(key)) by {
                broadcast use vstd::seq_lib::group_seq_properties;

            }
            assert(self.map@ =~= slots.remove_keys(keys@.take(i as int).to_set()));
        }
        proof {
            assert(keys@.take(i as int) =~= keys@);
            assert(self.map@ =~= Map::<u64, Waker>::empty());
            assert(drained_along(slots, keys@, woken@));
        }
        woken
    }
}

/// Guard that holds one unit of a [`RundownState`]'s `active` count.
///
/// `S` is the handle by which the owner of a guard reaches the state. Release the guard only
/// after the native handle that it stands for has been closed.
pub struct RundownGuard<S> {
    pub state: S,
}

impl<S> RundownGuard<S> {
    /// Reserve one unit of `shared`, the state that `state` leads to.
    pub fn new(state: S, shared: &mut RundownState) -> (guard: Self)
        requires
            old(shared)@.well_formed(),
            old(shared)@.active < usize::MAX,
        ensures
            guard.state == state,
            final(shared)@ == (RundownView { active: old(shared)@.active + 1, ..old(shared)@ }),
            final(shared)@.well_formed(),
    {
        shared.active += 1;
        assert(shared@.slots == old(shared)@.slots);
        RundownGuard { state }
    }

    /// The state this guard belongs to, so that a tracked handle can reserve for the children it
    /// creates.
    pub fn state(&self) -> (state: &S)
        ensures
            *state == self.state,
    {
        &self.state
    }

    /// Give the unit back to `shared`, the state that this guard belongs to. The last guard takes
    /// every registered waker out, for the caller to wake once it holds no lock.
    pub fn release(self, shared: &mut RundownState) -> (woken: Vec<Waker>)
        requires
            old(shared)@.well_formed(),
            old(shared)@.active > 0,
        ensures
            final(shared)@.well_formed(),
            released(old(shared)@, woken@, final(shared)@),
    {
        shared.active -= 1;
        assert(shared@.slots == old(shared)@.slots);
        if shared.active == 0 {
            shared.waiters.drain()
        } else {
            Vec::new()
        }
    }
}

/// A native handle with the unit that it holds for its life. `H` is a connection, a listener or a
/// stream.
///
/// There is no other way to a tracked handle than through a reservation: one that is opened here
/// is reserved first, and one that MsQuic hands over is reserved as it is taken over. The unit goes
/// back after the handle was closed, and only then; stopping or shutting down what the handle
/// stands for does not touch it.
pub struct TrackedHandle<H, S> {
    handle: H,
    guard: RundownGuard<S>,
}

/// What a [`TrackedHandle`] holds.
pub struct TrackedHandleView<H, S> {
    pub handle: H,
    pub state: S,
}

impl<H, S> View for TrackedHandle<H, S> {
    type V = TrackedHandleView<H, S>;

    closed spec fn view(&self) -> TrackedHandleView<H, S> {
        TrackedHandleView { handle: self.handle, state: self.guard.state }
    }
}

impl<H, S> TrackedHandle<H, S> {
    /// Take in what came of opening a handle that `guard` was reserved for, in `shared`, the state
    /// that the guard belongs to. The handle keeps the unit; where there is none, the unit goes
    /// back, and what comes with the error is to be woken.
    pub fn opened<E>(
        guard: RundownGuard<S>,
        opened: Result<H, E>,
        shared: &mut RundownState,
    ) -> (outcome: (Result<Self, E>, Vec<Waker>))
        requires
            old(shared)@.well_formed(),
            old(shared)@.active > 0,
        ensures
            final(shared)@.well_formed(),
            match opened {
                Ok(handle) => {
                    &&& outcome.0 matches Ok(held)
                    &&& held@ == (TrackedHandleView { handle, state: guard.state })
                    &&& outcome.1@ == Seq::<Waker>::empty()
                    &&& final(shared)@ == old(shared)@
                },
                Err(error) => {
                    &&& outcome.0 == Err::<Self, E>(error)
                    &&& released(old(shared)@, outcome.1@, final(shared)@)
                },
            },
    {
        match opened {
            Ok(handle) => (Ok(TrackedHandle { handle, guard }), Vec::new()),
            Err(error) => {
                let woken = guard.release(shared);
                (Err(error), woken)
            },
        }
    }

    /// Take over a handle that MsQuic opened for the peer: reserve one unit of `shared`, the state
    /// that `state` leads to, and let the handle keep it.
    pub fn adopt(state: S, handle: H, shared: &mut RundownState) -> (held: Self)
        requires
            old(shared)@.well_formed(),
            old(shared)@.active < usize::MAX,
        ensures
            held@ == (TrackedHandleView { handle, state }),
            final(shared)@ == (RundownView { active: old(shared)@.active + 1, ..old(shared)@ }),
            final(shared)@.well_formed(),
    {
        let guard = RundownGuard::new(state, shared);
        TrackedHandle { handle, guard }
    }

    /// The handle.
    pub fn handle(&self) -> (handle: &H)
        ensures
            *handle == self@.handle,
    {
        &self.handle
    }

    /// The state that the unit belongs to, so that the handle can reserve for the children it
    /// creates.
    pub fn state(&self) -> (state: &S)
        ensures
            *state == self@.state,
    {
        self.guard.state()
    }

    /// Nobody uses the handle any more. Close the handle that comes back, with no lock held, and
    /// then give the unit back by [`RundownGuard::release`].
    pub fn close(self) -> (parts: (H, RundownGuard<S>))
        ensures
            parts.0 == self@.handle,
            parts.1.state == self@.state,
    {
        (self.handle, self.guard)
    }
}

/// The tracking side of a registration: it counts every connection, listener and stream created
/// from it, and [`Registration::wait_idle`] resolves once they are all closed.
///
/// Configurations are deliberately not counted: closing one only drops the application's
/// reference, while each connection holds its own.
pub struct Registration<S> {
    pub state: S,
}

impl<S> Registration<S> {
    /// Track with the state that `state` leads to.
    pub fn new(state: S) -> (registration: Self)
        ensures
            registration.state == state,
    {
        Registration { state }
    }

    /// The state that every tracked handle reserves in.
    pub fn state(&self) -> (state: &S)
        ensures
            *state == self.state,
    {
        &self.state
    }

    /// A future that resolves once no handle created from this registration is live.
    pub fn wait_idle(&self) -> (wait: WaitIdle<S>) where S: Clone
        ensures
            cloned(self.state, wait.state),
            wait.key is None,
    {
        WaitIdle { state: self.state.clone(), key: None }
    }
}

/// Future returned by [`Registration::wait_idle`].
pub struct WaitIdle<S> {
    pub state: S,
    /// Slot in [`RundownState::waiters`], allocated on the first `Pending` poll.
    pub key: Option<u64>,
}

/// What is left of `slots` once the slot of `key` is given up.
pub open spec fn vacated(slots: Map<u64, Waker>, key: Option<u64>) -> Map<u64, Waker> {
    match key {
        Some(key) => slots.remove(key),
        None => slots,
    }
}

impl<S> WaitIdle<S> {
    /// The slot of this future, if it has one, was handed out by `shared`.
    pub open spec fn belongs_to(&self, shared: RundownView) -> bool {
        self.key matches Some(key) ==> key < shared.next
    }

    /// Give up the slot.
    pub fn deregister(&mut self, shared: &mut RundownState)
        requires
            old(shared)@.well_formed(),
        ensures
            final(self).state == old(self).state,
            final(self).key is None,
            final(shared)@ == (RundownView {
                slots: vacated(old(shared)@.slots, old(self).key),
                ..old(shared)@
            }),
            final(shared)@.well_formed(),
    {
        if let Some(key) = self.key.take() {
            let _ = shared.waiters.map.remove(&key);
            assert(old(shared)@.active == 0 ==> shared@.slots =~= Map::<u64, Waker>::empty());
        }
    }

    /// Ready once `shared` is idle. Otherwise the waker of `cx` takes this future's slot, a fresh
    /// one on the first such poll.
    pub fn poll(&mut self, shared: &mut RundownState, cx: &Context<'_>) -> (result: Poll<()>)
        requires
            old(shared)@.well_formed(),
            old(self).belongs_to(old(shared)@),
            old(self).key is None ==> old(shared)@.next < u64::MAX,
        ensures
            final(shared)@.well_formed(),
            final(self).belongs_to(final(shared)@),
            final(self).state == old(self).state,
            final(shared)@.active == old(shared)@.active,
            result is Ready <==> old(shared)@.active == 0,
            result is Ready ==> {
                &&& final(self).key is None
                &&& final(shared)@.next == old(shared)@.next
                &&& final(shared)@.slots == vacated(old(shared)@.slots, old(self).key)
            },
            result is Pending ==> {
                let slot = match old(self).key {
                    Some(key) => key,
                    None => old(shared)@.next as u64,
                };
                &&& final(self).key == Some(slot)
                &&& final(shared)@.next == if old(self).key is None {
                    old(shared)@.next + 1
                } else {
                    old(shared)@.next
                }
                &&& final(shared)@.slots.dom().contains(slot)
                &&& final(shared)@.slots == old(shared)@.slots.insert(
                    slot,
                    final(shared)@.slots[slot],
                )
                &&& task_of(final(shared)@.slots[slot]) == task_of(context_waker(*cx))
            },
    {
        if shared.active == 0 {
            self.deregister(shared);
            return Poll::Ready(());
        }
        match self.key {
            Some(key) => {
                let _ = shared.waiters.map.insert(key, cx.waker().clone());
            },
            None => {
                let key: u64 = shared.waiters.next;
                shared.waiters.next += 1;
                let _ = shared.waiters.map.insert(key, cx.waker().clone());
                self.key = Some(key);
            },
        }
        assert(forall|key: u64| #[trigger]
            shared@.slots.dom().contains(key) ==> old(shared)@.slots.dom().contains(key)
                || self.key == Some(key));
        Poll::Pending
    }
}

/// One step in the life of a tracked handle, which `handle` numbers.
pub enum HandleStep {
    /// [`RundownGuard::new`], before the handle is opened.
    Reserve { handle: nat },
    /// [`TrackedHandle::opened`], with or without success.
    Opened { handle: nat, ok: bool },
    /// [`TrackedHandle::adopt`].
    Adopt { handle: nat },
    /// Anything that is done with the handle, be it a start, a shutdown or a stop.
    Use { handle: nat },
    /// [`TrackedHandle::close`], and then [`RundownGuard::release`].
    Close { handle: nat },
}

impl HandleStep {
    /// What the step adds to `active`.
    pub open spec fn change(self) -> int {
        match self {
            HandleStep::Reserve { .. } | HandleStep::Adopt { .. } => 1,
            HandleStep::Opened { ok, .. } => if ok {
                0
            } else {
                -1
            },
            HandleStep::Use { .. } => 0,
            HandleStep::Close { .. } => -1,
        }
    }

    /// The step can be taken, where `handles` are reserved, each with whether it is open.
    pub open spec fn possible(self, handles: Map<nat, bool>) -> bool {
        match self {
            HandleStep::Reserve { handle } | HandleStep::Adopt { handle } => {
                !handles.dom().contains(handle)
            },
            HandleStep::Opened { handle, .. } => handles.dom().contains(handle)
                && !handles[handle],
            HandleStep::Use { handle } | HandleStep::Close { handle } => {
                handles.dom().contains(handle) && handles[handle]
            },
        }
    }

    /// The handles that are reserved after the step, each with whether it is open.
    pub open spec fn taken(self, handles: Map<nat, bool>) -> Map<nat, bool> {
        match self {
            HandleStep::Reserve { handle } => handles.insert(handle, false),
            HandleStep::Opened { handle, ok } => if ok {
                handles.insert(handle, true)
            } else {
                handles.remove(handle)
            },
            HandleStep::Adopt { handle } => handles.insert(handle, true),
            HandleStep::Use { .. } => handles,
            HandleStep::Close { handle } => handles.remove(handle),
        }
    }
}

/// The handles that are reserved after `steps`, from none on, each with whether it is open.
pub open spec fn reserved_after(steps: Seq<HandleStep>) -> Map<nat, bool>
    decreases steps.len(),
{
    if steps.len() == 0 {
        Map::empty()
    } else {
        steps.last().taken(reserved_after(steps.drop_last()))
    }
}

/// `states` runs through `steps` from an idle state, and each step can be taken when it is: a
/// handle is reserved or taken over once, opened once, and used and closed only while it is open.
pub open spec fn follows(states: Seq<RundownView>, steps: Seq<HandleStep>) -> bool {
    &&& states.len() == steps.len() + 1
    &&& states[0].active == 0
    &&& forall|i: int| 0 <= i < steps.len() ==> #[trigger] follows_at(states, steps, i)
}

/// Step number `i` can be taken after those before it, and `states` runs through it.
pub open spec fn follows_at(states: Seq<RundownView>, steps: Seq<HandleStep>, i: int) -> bool {
    &&& steps[i].possible(reserved_after(steps.take(i)))
    &&& states[i + 1].active == states[i].active + steps[i].change()
}

/// The last step is taken from where the ones before it lead.
proof fn last_step(states: Seq<RundownView>, steps: Seq<HandleStep>)
    requires
        follows(states, steps),
        steps.len() > 0,
    ensures
        follows(states.drop_last(), steps.drop_last()),
        steps.last().possible(reserved_after(steps.drop_last())),
        states.last().active == states.drop_last().last().active + steps.last().change(),
{
    let before = steps.drop_last();
    let states_before = states.drop_last();
    assert forall|i: int| 0 <= i < before.len() implies #[trigger] follows_at(
        states_before,
        before,
        i,
    ) by {
        assert(follows_at(states, steps, i));
        assert(before.take(i) =~= steps.take(i));
    }
    let last = steps.len() - 1;
    assert(steps.take(last) =~= before);
    assert(follows_at(states, steps, last));
}

/// However the lives of handles interleave, `active` is the number of those that are reserved; so
/// the state is idle, and [`WaitIdle::poll`] ready, exactly when each of them was closed or failed
/// to open.
pub proof fn active_counts_live_handles(states: Seq<RundownView>, steps: Seq<HandleStep>)
    requires
        follows(states, steps),
    ensures
        reserved_after(steps).dom().finite(),
        states.last().active == reserved_after(steps).dom().len(),
        states.last().active == 0 <==> reserved_after(steps) == Map::<nat, bool>::empty(),
    decreases steps.len(),
{
    if steps.len() > 0 {
        let before = steps.drop_last();
        last_step(states, steps);
        active_counts_live_handles(states.drop_last(), before);
        let handles = reserved_after(before);
        match steps.last() {
            HandleStep::Reserve { handle } => {
                assert(handles.insert(handle, false).dom() =~= handles.dom().insert(handle));
            },
            HandleStep::Adopt { handle } => {
                assert(handles.insert(handle, true).dom() =~= handles.dom().insert(handle));
            },
            HandleStep::Opened { handle, ok } => {
                assert(handles.insert(handle, true).dom() =~= handles.dom());
                assert(handles.remove(handle).dom() =~= handles.dom().remove(handle));
            },
            HandleStep::Use { .. } => {},
            HandleStep::Close { handle } => {
                assert(handles.remove(handle).dom() =~= handles.dom().remove(handle));
            },
        }
    }
    let reserved = reserved_after(steps);
    if reserved.dom().len() == 0 {
        assert(reserved.dom() =~= Set::empty());
        assert(reserved =~= Map::<nat, bool>::empty());
    }
}

/// A step other than its closing leaves a handle that is open reserved and open.
proof fn open_through_step(step: HandleStep, handles: Map<nat, bool>, handle: nat)
    requires
        step.possible(handles),
        step != (HandleStep::Close { handle }),
        handles.dom().contains(handle),
        handles[handle],
    ensures
        step.taken(handles).dom().contains(handle),
        step.taken(handles)[handle],
{
}

/// As long as it is not closed, a handle that is open stays reserved and open.
proof fn open_until_closed(
    states: Seq<RundownView>,
    steps: Seq<HandleStep>,
    handle: nat,
    since: int,
)
    requires
        follows(states, steps),
        0 <= since < steps.len(),
        steps[since] == (HandleStep::Opened { handle, ok: true }) || steps[since] == (
        HandleStep::Adopt { handle }),
        forall|i: int|
            since < i < steps.len() ==> #[trigger] steps[i] != (HandleStep::Close { handle }),
    ensures
        reserved_after(steps).dom().contains(handle),
        reserved_after(steps)[handle],
    decreases steps.len(),
{
    let last = steps.len() - 1;
    if since < last {
        let before = steps.drop_last();
        last_step(states, steps);
        assert forall|i: int| since < i < before.len() implies #[trigger] before[i] != (
        HandleStep::Close { handle }) by {
            assert(before[i] == steps[i]);
        }
        assert(before[since] == steps[since]);
        open_until_closed(states.drop_last(), before, handle, since);
        assert(steps[last] != (HandleStep::Close { handle }));
        open_through_step(steps.last(), reserved_after(before), handle);
    } else {
        let before = steps.drop_last();
        assert(reserved_after(steps) == steps[since].taken(reserved_after(before)));
    }
}

/// A handle that was opened or taken over keeps its unit until it is closed, whatever else is done
/// with it or with other handles: until then [`WaitIdle::poll`] is pending.
pub proof fn an_open_handle_keeps_the_state_busy(
    states: Seq<RundownView>,
    steps: Seq<HandleStep>,
    handle: nat,
    since: int,
)
    requires
        follows(states, steps),
        0 <= since < steps.len(),
        steps[since] == (HandleStep::Opened { handle, ok: true }) || steps[since] == (
        HandleStep::Adopt { handle }),
        forall|i: int|
            since < i < steps.len() ==> #[trigger] steps[i] != (HandleStep::Close { handle }),
    ensures
        states.last().active > 0,
{
    open_until_closed(states, steps, handle, since);
    active_counts_live_handles(states, steps);
}

/// A slot handed out on a first `Pending` poll is nobody else's: any number of futures can wait
/// side by side.
pub proof fn a_fresh_slot_is_free(shared: RundownView)
    requires
        shared.well_formed(),
        shared.next < u64::MAX,
    ensures
        !shared.slots.dom().contains(shared.next as u64),
{
}

/// No wakeup is lost: a waker in a slot when the last guard goes is among those handed out to be
/// woken.
pub proof fn the_last_release_wakes_every_waiter(
    slots: Map<u64, Waker>,
    woken: Seq<Waker>,
    key: u64,
)
    requires
        drained(slots, woken),
        slots.dom().contains(key),
    ensures
        woken.contains(slots[key]),
{
    let keys = choose|keys: Seq<u64>| #[trigger] drained_along(slots, keys, woken);
    assert(keys.to_set().contains(key));
    let i = choose|i: int| 0 <= i < keys.len() && keys[i] == key;
    assert(woken[i] == slots[key]);
}

} // verus!
