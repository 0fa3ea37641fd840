//! Lists of wakers for the tasks that wait on an event.
use std::task::{Context, Poll, Waker};

use vstd::prelude::*;

verus! {

/// `std::task::Waker`, carried as an opaque value.
#[verifier::external_type_specification]
#[verifier::external_body]
pub struct ExWaker(std::task::Waker);

/// `std::task::Context`, carried as an opaque value.
#[verifier::external_type_specification]
#[verifier::external_body]
pub struct ExContext<'a>(std::task::Context<'a>);

/// `std::task::Poll`, with its two variants `Ready` and `Pending`.
#[verifier::external_type_specification]
#[verifier::reject_recursive_types(T)]
pub struct ExPoll<T>(std::task::Poll<T>);

/// The waker that a context hands out.
pub uninterp spec fn context_waker(cx: Context<'_>) -> Waker;

/// What `Waker::will_wake` answers for the two wakers.
pub uninterp spec fn wakes_same_task(a: Waker, b: Waker) -> bool;

/// The task that a waker wakes.
pub uninterp spec fn task_of(waker: Waker) -> int;

/// `Context::waker` returns a reference to the waker of the current task.
pub assume_specification<'a>[ Context::<'a>::waker ](cx: &Context<'a>) -> (waker: &'a Waker)
    ensures
        *waker == context_waker(*cx),
;

/// `Waker::will_wake` answers from the two wakers alone. A `true` is a guarantee that both wake
/// the same task; a `false` promises nothing, so nothing is claimed of it.
pub assume_specification[ Waker::will_wake ](waker: &Waker, other: &Waker) -> (same: bool)
    ensures
        same == wakes_same_task(*waker, *other),
        same ==> task_of(*waker) == task_of(*other),
;

/// `Waker::clone` makes another waker for the same task.
pub assume_specification[ <Waker as Clone>::clone ](waker: &Waker) -> (copy: Waker)
    ensures
        task_of(copy) == task_of(*waker),
;

/// Some entry of `waiters` is known to wake the task of `waker`.
pub open spec fn recognised(waiters: Seq<Waker>, waker: Waker) -> bool {
    exists|i: int| 0 <= i < waiters.len() && #[trigger] wakes_same_task(waiters[i], waker)
}

/// Some entry of `waiters` wakes `task`.
pub open spec fn waiting(waiters: Seq<Waker>, task: int) -> bool {
    exists|i: int| 0 <= i < waiters.len() && task_of(#[trigger] waiters[i]) == task
}

/// `after` is `before` with `waker` recorded: unchanged where `waker` is recognised, else with
/// one more entry at the end, a clone of `waker`.
pub open spec fn registered(before: Seq<Waker>, waker: Waker, after: Seq<Waker>) -> bool {
    &&& waiting(after, task_of(waker))
    &&& if recognised(before, waker) {
        after == before
    } else {
        appended(before, waker, after)
    }
}

/// `after` is `before` with one more entry at the end: a clone of `waker`, which wakes the same
/// task.
pub open spec fn appended(before: Seq<Waker>, waker: Waker, after: Seq<Waker>) -> bool {
    &&& after == before.push(after.last())
    &&& cloned(waker, after.last())
    &&& task_of(after.last()) == task_of(waker)
}

/// No two entries wake the same task.
pub open spec fn one_entry_per_task(waiters: Seq<Waker>) -> bool {
    forall|i: int, j: int|
        0 <= i < j < waiters.len() ==> task_of(#[trigger] waiters[i]) != task_of(
            #[trigger] waiters[j],
        )
}

/// `will_wake` misses none of the entries that wake the task of `waker`.
pub open spec fn recognition_is_complete(waiters: Seq<Waker>, waker: Waker) -> bool {
    forall|i: int|
        0 <= i < waiters.len() && task_of(#[trigger] waiters[i]) == task_of(waker)
            ==> wakes_same_task(waiters[i], waker)
}

/// No entry is recognised by one before it.
pub open spec fn no_entry_twice(waiters: Seq<Waker>) -> bool {
    forall|i: int, j: int|
        0 <= i < j < waiters.len() ==> !wakes_same_task(
            #[trigger] waiters[i],
            #[trigger] waiters[j],
        )
}

/// `will_wake` answers for a clone of `waker` as it does for `waker`.
pub open spec fn clones_answer_alike(waker: Waker) -> bool {
    forall|copy: Waker, other: Waker| #[trigger]
        cloned(waker, copy) ==> #[trigger] wakes_same_task(other, copy) == wakes_same_task(
            other,
            waker,
        )
}

/// Record `cx`'s waker in `waiters`, unless one already there wakes the same task.
///
/// A waker put on one of these lists is only removed when the list is drained to wake it.
/// Polling therefore has to be idempotent: a task that polls again while it waits, for whatever
/// reason, must not make the list grow.
pub fn register_waker(waiters: &mut Vec<Waker>, cx: &Context<'_>)
    ensures
        registered(old(waiters)@, context_waker(*cx), final(waiters)@),
{
    let waker = cx.waker();
    let mut i: usize = 0;
    while i < waiters.len()
        invariant
            waiters@ == old(waiters)@,
            *waker == context_waker(*cx),
            forall|j: int| 0 <= j < i ==> !wakes_same_task(#[trigger] waiters@[j], *waker),
        decreases waiters.len() - i,
    {
        if waiters[i].will_wake(waker) {
            return;
        }
        i += 1;
    }
    waiters.push(waker.clone());
    assert(task_of(waiters@[waiters@.len() - 1]) == task_of(*waker));
}

/// Add `cx`'s waker to the end of `waiters`.
pub fn append_waker(waiters: &mut Vec<Waker>, cx: &Context<'_>)
    ensures
        appended(old(waiters)@, context_waker(*cx), final(waiters)@),
{
    waiters.push(cx.waker().clone());
}

/// Take every waker off `waiters`, in the order in which they were put there.
pub fn drain_wakers(waiters: &mut Vec<Waker>) -> (woken: Vec<Waker>)
    ensures
        woken@ == old(waiters)@,
        final(waiters)@ == Seq::<Waker>::empty(),
{
    let mut woken: Vec<Waker> = Vec::new();
    woken.append(waiters);
    woken
}

/// Polling again registers nothing: a second registration of a waker that the list recognises
/// leaves the list as it was.
pub proof fn repolling_is_idempotent(
    before: Seq<Waker>,
    waker: Waker,
    after: Seq<Waker>,
    again: Seq<Waker>,
)
    requires
        registered(before, waker, after),
        recognised(after, waker),
        registered(after, waker, again),
    ensures
        again == after,
{
}

/// As long as `will_wake` misses no entry of the task, a list with one entry per waiting task
/// still has one entry per waiting task after a registration.
pub proof fn registration_keeps_one_entry_per_task(
    before: Seq<Waker>,
    waker: Waker,
    after: Seq<Waker>,
)
    requires
        one_entry_per_task(before),
        recognition_is_complete(before, waker),
        registered(before, waker, after),
    ensures
        one_entry_per_task(after),
{
    if !recognised(before, waker) {
        assert forall|i: int, j: int| 0 <= i < j < after.len() implies task_of(
            #[trigger] after[i],
        ) != task_of(#[trigger] after[j]) by {
            assert(after[i] == before[i]);
            if j < after.len() - 1 {
                assert(after[j] == before[j]);
            } else if task_of(before[i]) == task_of(waker) {
                assert(wakes_same_task(before[i], waker));
            }
        }
    }
}

/// A registration adds one entry at most. Where `will_wake` answers for a clone as it does for the
/// waker itself, a list in which it recognises no entry twice stays one.
pub proof fn registration_keeps_entries_distinct(
    before: Seq<Waker>,
    waker: Waker,
    after: Seq<Waker>,
)
    requires
        no_entry_twice(before),
        clones_answer_alike(waker),
        registered(before, waker, after),
    ensures
        no_entry_twice(after),
        after.len() <= before.len() + 1,
{
    if !recognised(before, waker) {
        assert forall|i: int, j: int| 0 <= i < j < after.len() implies !wakes_same_task(
            #[trigger] after[i],
            #[trigger] after[j],
        ) by {
            assert(after[i] == before[i]);
            if j < after.len() - 1 {
                assert(after[j] == before[j]);
            } else {
                assert(!wakes_same_task(before[i], waker));
            }
        }
    }
}

} // verus!
