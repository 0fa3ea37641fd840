//! What the operations of the library promise their users.
//!
//! The laws speak of calls: `call_ensures(f, arguments, result)` says that a call of `f` with these
//! arguments came to this result. Where an argument is a mutable reference, `old` and `final` are
//! the value behind it before and after the call; where one call follows on another, the value
//! that the second starts from is the one that the first left.
use std::task::{Context, Waker};

use vstd::prelude::*;

use crate::sync::{appended, context_waker, registered, task_of};

pub mod buffer;
pub mod connection;
pub mod http3;
pub mod keylog;
pub mod listener;
pub mod minimal_connection;
pub mod minimal_listener;
pub mod minimal_stream;
pub mod opening;
pub mod registration;
pub mod status;
pub mod stream;
pub mod sync;

verus! {

/// The task of `cx` is on the list of those to be woken, which has the entries of `before` in
/// their places, and one more at most.
pub open spec fn listed(before: Seq<Waker>, cx: Context<'_>, after: Seq<Waker>) -> bool {
    &&& before.len() <= after.len() <= before.len() + 1
    &&& forall|i: int| 0 <= i < before.len() ==> #[trigger] after[i] == before[i]
    &&& exists|i: int|
        0 <= i < after.len() && task_of(#[trigger] after[i]) == task_of(context_waker(cx))
}

/// What is registered is listed.
pub proof fn registered_is_listed(before: Seq<Waker>, cx: Context<'_>, after: Seq<Waker>)
    requires
        registered(before, context_waker(cx), after),
    ensures
        listed(before, cx, after),
{
}

/// What is appended is listed.
pub proof fn appended_is_listed(before: Seq<Waker>, cx: Context<'_>, after: Seq<Waker>)
    requires
        appended(before, context_waker(cx), after),
    ensures
        listed(before, cx, after),
{
    assert(after[after.len() - 1] == after.last());
}

} // verus!
