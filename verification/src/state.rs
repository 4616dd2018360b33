//! The black hole's state machine.
//!
//! [`GateState`] is the value that lives behind the handle's lock: either
//! still closed, carrying the wake tokens of every task suspended on the
//! black hole, or already open.  The two executable transitions, [`GateState::poll_task`]
//! and [`GateState::try_release`], carry exact contracts phrased over the
//! spec-level step functions below, and the proof functions at the end state
//! the laws of the machine: the open state is terminal, no registered waiter
//! is lost, and a second release fails without effect.

use vstd::prelude::*;

use futures::task::Task;

use crate::wake;

verus! {

/// The one protocol violation: releasing a black hole that is already open.
#[derive(Debug, PartialEq, Eq, Structural)]
pub struct AlreadyOpened;

/// The state of one black hole, as held behind its lock.
pub enum GateState {
    /// Still closed; `waiters` holds the wake token of every task suspended
    /// on the black hole, in registration order.
    Closed { waiters: Vec<Task> },
    /// Released; terminal, carries nothing.
    Open,
}

/// One operation on the black hole, as serialized by the handle's lock.
pub enum GateOp {
    /// A task polls the black hole, offering its current wake token.
    Poll(Task),
    /// A release is attempted.
    Release,
}

/// Whether the black hole is open after `op` runs on a black hole that was open iff
/// `was_open`.
pub open spec fn open_after(was_open: bool, op: GateOp) -> bool {
    match op {
        GateOp::Poll(_) => was_open,
        GateOp::Release => true,
    }
}

/// The waiter sequence after `op` runs on a black hole with waiters `ws`, open iff
/// `was_open`: a poll on the closed black hole appends its token, a poll on the
/// open black hole registers nothing, and a release drains every waiter.
pub open spec fn waiters_after(was_open: bool, ws: Seq<Task>, op: GateOp) -> Seq<Task> {
    match op {
        GateOp::Poll(t) => if was_open { ws } else { ws.push(t) },
        GateOp::Release => Seq::empty(),
    }
}

/// What a poll reports: ready exactly when the black hole is open.
pub open spec fn poll_ready(was_open: bool) -> bool {
    was_open
}

/// Whether a release succeeds: only on the still-closed black hole.
pub open spec fn release_ok(was_open: bool) -> bool {
    !was_open
}

/// The tokens a release wakes: exactly the registered waiters when it
/// succeeds; a failed release wakes nothing.
pub open spec fn woken_on_release(was_open: bool, ws: Seq<Task>) -> Seq<Task> {
    if was_open {
        Seq::empty()
    } else {
        ws
    }
}

/// Whether the black hole is open after the operations `ops` run in order.
pub open spec fn open_after_all(was_open: bool, ops: Seq<GateOp>) -> bool
    decreases ops.len(),
{
    if ops.len() == 0 {
        was_open
    } else {
        open_after_all(open_after(was_open, ops[0]), ops.drop_first())
    }
}

/// The waiter sequence after the operations `ops` run in order.
pub open spec fn waiters_after_all(was_open: bool, ws: Seq<Task>, ops: Seq<GateOp>) -> Seq<Task>
    decreases ops.len(),
{
    if ops.len() == 0 {
        ws
    } else {
        waiters_after_all(
            open_after(was_open, ops[0]),
            waiters_after(was_open, ws, ops[0]),
            ops.drop_first(),
        )
    }
}

impl GateState {
    /// The black hole has been released.
    pub open spec fn is_open(self) -> bool {
        self is Open
    }

    /// The registered wake tokens; none once the black hole is open.
    pub open spec fn waiters(self) -> Seq<Task> {
        match self {
            GateState::Closed { waiters } => waiters@,
            GateState::Open => Seq::empty(),
        }
    }

    /// A fresh black hole: closed, with no waiters yet.
    pub fn new_closed() -> (s: GateState)
        ensures
            !s.is_open(),
            s.waiters() == Seq::<Task>::empty(),
    {
        GateState::Closed { waiters: Vec::new() }
    }

    /// Whether the black hole has been released, as an executable check.
    pub fn is_released(&self) -> (b: bool)
        ensures
            b == self.is_open(),
    {
        matches!(self, GateState::Open)
    }

    /// One poll: on the open black hole, report ready and change nothing; on the
    /// closed black hole, append the caller's wake token `t` and report not ready,
    /// so the caller suspends until the token is woken.
    pub fn poll_task(&mut self, t: Task) -> (ready: bool)
        ensures
            ready == poll_ready(old(self).is_open()),
            final(self).is_open() == open_after(old(self).is_open(), GateOp::Poll(t)),
            final(self).waiters() == waiters_after(
                old(self).is_open(),
                old(self).waiters(),
                GateOp::Poll(t),
            ),
            ready ==> *final(self) == *old(self),
    {
        match self {
            GateState::Open => true,
            GateState::Closed { waiters } => {
                waiters.push(t);
                false
            },
        }
    }

    /// The one-time release: wake every registered waiter, in registration
    /// order, then move to the open state.  On the already-open black hole nothing
    /// is woken, nothing changes, and the call fails with [`AlreadyOpened`]:
    /// a second release is a protocol violation, never a benign no-op.
    pub fn try_release(&mut self) -> (r: Result<(), AlreadyOpened>)
        ensures
            final(self).is_open() == open_after(old(self).is_open(), GateOp::Release),
            final(self).waiters() == waiters_after(
                old(self).is_open(),
                old(self).waiters(),
                GateOp::Release,
            ),
            r is Ok <==> release_ok(old(self).is_open()),
            old(self).is_open() ==> *final(self) == *old(self),
    {
        match &*self {
            GateState::Open => {
                return Err(AlreadyOpened);
            },
            GateState::Closed { waiters } => {
                wake::notify_all(waiters);
            },
        }
        *self = GateState::Open;
        Ok(())
    }
}

/// Once released, the black hole remains open under every further sequence of
/// operations; a poll on the open black hole reports ready and registers nothing.
pub proof fn lemma_open_is_terminal(ops: Seq<GateOp>)
    ensures
        open_after_all(true, ops),
        poll_ready(true),
        forall|ws: Seq<Task>, t: Task| #[trigger] waiters_after(true, ws, GateOp::Poll(t)) == ws,
    decreases ops.len(),
{
    if ops.len() != 0 {
        lemma_open_is_terminal(ops.drop_first());
    }
}

/// A run of polls on the closed black hole leaves it closed and only ever appends
/// to the waiter sequence: any token already registered is still registered
/// afterwards.
pub proof fn lemma_polls_keep_waiters(ws: Seq<Task>, t: Task, ops: Seq<GateOp>)
    requires
        ws.contains(t),
        forall|i: int| 0 <= i < ops.len() ==> ops[i] is Poll,
    ensures
        !open_after_all(false, ops),
        waiters_after_all(false, ws, ops).contains(t),
    decreases ops.len(),
{
    if ops.len() != 0 {
        let ws1 = waiters_after(false, ws, ops[0]);
        let u = ops[0]->0;
        assert(ws1 == ws.push(u));
        let j = choose|j: int| 0 <= j < ws.len() && ws[j] == t;
        assert(ws1[j] == t);
        lemma_polls_keep_waiters(ws1, t, ops.drop_first());
    }
}

/// No lost wakeup: a token registered by a poll while the black hole is closed
/// survives every further poll, and the release that ends such a run of
/// polls wakes it.
pub proof fn lemma_no_lost_wakeup(ws: Seq<Task>, t: Task, ops: Seq<GateOp>)
    requires
        forall|i: int| 0 <= i < ops.len() ==> ops[i] is Poll,
    ensures
        ({
            let registered = waiters_after(false, ws, GateOp::Poll(t));
            let still_closed = !open_after_all(false, ops);
            let at_release = waiters_after_all(false, registered, ops);
            still_closed && woken_on_release(open_after_all(false, ops), at_release).contains(t)
        }),
{
    let registered = waiters_after(false, ws, GateOp::Poll(t));
    assert(registered == ws.push(t));
    assert(registered[ws.len() as int] == t);
    lemma_polls_keep_waiters(registered, t, ops);
}

/// Double release: from the closed black hole the first release succeeds, wakes
/// exactly the registered waiters and opens the black hole; a second release then
/// fails, wakes nothing, and the black hole stays open.
pub proof fn lemma_double_release(ws: Seq<Task>)
    ensures
        release_ok(false),
        woken_on_release(false, ws) == ws,
        open_after(false, GateOp::Release),
        !release_ok(open_after(false, GateOp::Release)),
        woken_on_release(true, waiters_after(false, ws, GateOp::Release))
            == Seq::<Task>::empty(),
        open_after(true, GateOp::Release),
{
}

/// The fresh black hole is closed: its first poll is not ready, so the caller
/// suspends, and exactly the offered token is registered.
pub proof fn lemma_fresh_gate_suspends(t: Task)
    ensures
        !poll_ready(false),
        waiters_after(false, Seq::empty(), GateOp::Poll(t)) == seq![t],
{
    assert(waiters_after(false, Seq::empty(), GateOp::Poll(t)) =~= seq![t]);
}

} // verus!
