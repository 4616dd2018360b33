//! The runtime's wake token, and waking a batch of tokens.

use vstd::prelude::*;

verus! {

/// Declares `futures::task::Task`, the runtime's wake token, so that it can
/// stand in signatures and fields.  A token is opaque: nothing of its
/// contents is assumed.
#[verifier::external_type_specification]
#[verifier::external_body]
pub struct ExTask(futures::task::Task);

/// Relies on `futures::task::Task::notify`: it marks the suspended task
/// runnable again.  Waking a task that is not suspended is a harmless no-op,
/// the call returns nothing and never fails, so no contract is assumed.
pub assume_specification[ futures::task::Task::notify ](t: &futures::task::Task);

/// Invokes the runtime's wake primitive once on every token, in order.
pub fn notify_all(waiters: &Vec<futures::task::Task>) {
    let n: usize = waiters.len();
    let mut i: usize = 0;
    while i < n
        invariant
            n == waiters@.len(),
            i <= n,
        decreases n - i,
    {
        waiters[i].notify();
        i = i + 1;
    }
}

} // verus!
