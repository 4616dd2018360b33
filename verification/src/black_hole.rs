//! The shared black hole handle.
//!
//! A [`BlackHole`] is a cheap, cloneable handle to one black hole: a
//! reference-counted lock around a [`GateState`].  All observations and
//! mutations of the state go through the lock, so registrations and the one
//! release are totally ordered; the check-wake-transition sequence of
//! [`BlackHole::release`] runs under a single lock acquisition, and a poll
//! registers its token under the same acquisition that observed the black hole
//! closed, so no wakeup can be lost.

use std::sync::Arc;

use vstd::prelude::*;
use vstd::rwlock::{RwLock, RwLockPredicate};

use futures::task::Task;

use crate::state::{AlreadyOpened, GateState};

verus! {

/// The lock's invariant: every [`GateState`] is a legitimate content.  That
/// the state only ever moves from closed to open is carried by the contracts
/// of the transition functions, the only code that touches it.
pub struct AnyGateState;

impl RwLockPredicate<GateState> for AnyGateState {
    open spec fn inv(self, s: GateState) -> bool {
        true
    }
}

/// A one-shot, multi-waiter black hole, held through a shared handle.
///
/// The black hole starts closed.  [`BlackHole::poll`] on the closed black hole records
/// the caller's wake token and reports not ready; on the open black hole it
/// reports ready at once.  [`BlackHole::release`] wakes every recorded token
/// and moves the black hole to its terminal open state; a second release fails
/// with [`AlreadyOpened`].
pub struct BlackHole {
    state: Arc<RwLock<GateState, AnyGateState>>,
}

/// Relies on `std::sync::Arc::clone`: the result is a handle to the very
/// same allocation as `state`, hence equal to it.
#[verifier::external_body]
fn clone_shared(state: &Arc<RwLock<GateState, AnyGateState>>) -> (res: Arc<
    RwLock<GateState, AnyGateState>,
>)
    ensures
        res == *state,
{
    Arc::clone(state)
}

impl BlackHole {
    /// A new black hole: closed, with no waiters.
    pub fn new() -> (g: BlackHole) {
        let s = GateState::new_closed();
        BlackHole { state: Arc::new(RwLock::new(s, Ghost(AnyGateState))) }
    }

    /// The one-time release.  Under a single lock acquisition: wake every
    /// waiter registered so far, in registration order, and move the black hole to
    /// its terminal open state.  Fails with [`AlreadyOpened`], waking
    /// nothing and changing nothing, if the black hole is already open — a second
    /// release is a protocol violation, not a benign no-op.
    pub fn release(&self) -> (r: Result<(), AlreadyOpened>) {
        let (mut s, handle) = self.state.acquire_write();
        let r = s.try_release();
        handle.release_write(s);
        r
    }

    /// One poll with the calling task's wake token `t`.  Under a single lock
    /// acquisition: if the black hole is open, report ready and register nothing;
    /// if it is closed, append `t` to the waiters and report not ready, so
    /// the caller suspends until the release wakes `t`.  Polling again while
    /// still closed re-registers the caller's latest token.
    pub fn poll(&self, t: Task) -> (ready: bool) {
        let (mut s, handle) = self.state.acquire_write();
        let ready = s.poll_task(t);
        handle.release_write(s);
        ready
    }
}

impl Clone for BlackHole {
    /// A cloned handle equals the original: it shares the one underlying
    /// lock and state, so operations through either handle are operations on
    /// the same black hole.
    fn clone(&self) -> (res: Self)
        ensures
            res == *self,
    {
        BlackHole { state: clone_shared(&self.state) }
    }
}

} // verus!
