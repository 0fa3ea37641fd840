//! What lists of wakers promise.
use std::task::{Context, Waker};

use vstd::prelude::*;

use crate::laws::{appended_is_listed, listed, registered_is_listed};
use crate::sync::{
    append_waker, context_waker, drain_wakers, register_waker, task_of, wakes_same_task,
};

verus! {

/// A task that is put on a list is on it afterwards, and nobody comes off: the list keeps its
/// entries in their places, and has one more at most. It has one more only where no entry is known
/// to wake the task, and that entry wakes the task.
pub proof fn who_is_put_on_a_list_is_on_it(waiters: &mut Vec<Waker>, cx: &Context<'_>)
    requires
        call_ensures(register_waker, (waiters, cx), ()),
    ensures
        listed(old(waiters)@, *cx, final(waiters)@),
        final(waiters)@.len() == old(waiters)@.len() <==> exists|i: int|
            0 <= i < old(waiters)@.len() && #[trigger] wakes_same_task(
                old(waiters)@[i],
                context_waker(*cx),
            ),
        final(waiters)@.len() > old(waiters)@.len() ==> task_of(final(waiters)@.last()) == task_of(
            context_waker(*cx),
        ),
{
    registered_is_listed(old(waiters)@, *cx, final(waiters)@);
}

/// A task that is added to a list is its last entry, and nobody comes off.
pub proof fn who_is_added_comes_last(waiters: &mut Vec<Waker>, cx: &Context<'_>)
    requires
        call_ensures(append_waker, (waiters, cx), ()),
    ensures
        listed(old(waiters)@, *cx, final(waiters)@),
        final(waiters)@.len() == old(waiters)@.len() + 1,
        task_of(final(waiters)@.last()) == task_of(context_waker(*cx)),
{
    appended_is_listed(old(waiters)@, *cx, final(waiters)@);
}

/// Everybody on a list is woken, in the order in which they came, and then nobody is on it.
pub proof fn everybody_is_woken(waiters: &mut Vec<Waker>, woken: Vec<Waker>)
    requires
        call_ensures(drain_wakers, (waiters,), woken),
    ensures
        woken@ == old(waiters)@,
        final(waiters)@.len() == 0,
{
}

} // verus!
