use std::sync::atomic::{AtomicUsize, Ordering};
use std::sync::Arc;

use futures::executor::{spawn, Notify, Spawn};
use futures::task;
use futures::{Async, Future, Poll};

use black_hole::black_hole::BlackHole;
use black_hole::state::{AlreadyOpened, GateState};

/// Counts how often the runtime is asked to wake a task.
struct WakeCounter(AtomicUsize);

impl Notify for WakeCounter {
    fn notify(&self, _id: usize) {
        self.0.fetch_add(1, Ordering::SeqCst);
    }
}

fn wake_counter() -> Arc<WakeCounter> {
    Arc::new(WakeCounter(AtomicUsize::new(0)))
}

fn wakes(c: &Arc<WakeCounter>) -> usize {
    c.0.load(Ordering::SeqCst)
}

/// Adapts a black hole handle to a `futures` 0.1 future, capturing the calling
/// task's wake token on each poll.
struct GateFuture(BlackHole);

impl Future for GateFuture {
    type Item = ();
    type Error = ();

    fn poll(&mut self) -> Poll<(), ()> {
        if self.0.poll(task::current()) {
            Ok(Async::Ready(()))
        } else {
            Ok(Async::NotReady)
        }
    }
}

fn spawn_waiter(g: &BlackHole) -> Spawn<GateFuture> {
    spawn(GateFuture(g.clone()))
}

fn poll_waiter(s: &mut Spawn<GateFuture>, c: &Arc<WakeCounter>, id: usize) -> Poll<(), ()> {
    s.poll_future_notify(c, id)
}

#[test]
fn black_hole_new() {
    BlackHole::new();
}

#[test]
fn black_hole_release() {
    assert!(BlackHole::new().release().is_ok());
}

#[test]
fn fresh_gate_wait_suspends() {
    let g = BlackHole::new();
    let c = wake_counter();
    let mut w = spawn_waiter(&g);
    assert_eq!(poll_waiter(&mut w, &c, 0), Ok(Async::NotReady));
    assert_eq!(wakes(&c), 0);
}

#[test]
fn open_then_wait_is_ready() {
    let g = BlackHole::new();
    assert!(g.release().is_ok());
    let c = wake_counter();
    let mut w = spawn_waiter(&g);
    assert_eq!(poll_waiter(&mut w, &c, 0), Ok(Async::Ready(())));
    assert_eq!(wakes(&c), 0);
}

#[test]
fn waiter_woken_on_release() {
    let g = BlackHole::new();
    let c = wake_counter();
    let mut w = spawn_waiter(&g);
    assert_eq!(poll_waiter(&mut w, &c, 0), Ok(Async::NotReady));
    assert_eq!(wakes(&c), 0);
    assert!(g.release().is_ok());
    assert_eq!(wakes(&c), 1);
    assert_eq!(poll_waiter(&mut w, &c, 0), Ok(Async::Ready(())));
}

#[test]
fn three_waiters_all_woken() {
    let g = BlackHole::new();
    let c = wake_counter();
    let mut w1 = spawn_waiter(&g);
    let mut w2 = spawn_waiter(&g);
    let mut w3 = spawn_waiter(&g);
    assert_eq!(poll_waiter(&mut w1, &c, 1), Ok(Async::NotReady));
    assert_eq!(poll_waiter(&mut w2, &c, 2), Ok(Async::NotReady));
    assert_eq!(poll_waiter(&mut w3, &c, 3), Ok(Async::NotReady));
    assert_eq!(wakes(&c), 0);
    assert!(g.release().is_ok());
    assert_eq!(wakes(&c), 3);
    assert_eq!(poll_waiter(&mut w1, &c, 1), Ok(Async::Ready(())));
    assert_eq!(poll_waiter(&mut w2, &c, 2), Ok(Async::Ready(())));
    assert_eq!(poll_waiter(&mut w3, &c, 3), Ok(Async::Ready(())));
}

#[test]
fn double_release_fails() {
    let g = BlackHole::new();
    let c = wake_counter();
    let mut w = spawn_waiter(&g);
    assert_eq!(poll_waiter(&mut w, &c, 0), Ok(Async::NotReady));
    assert_eq!(g.release(), Ok(()));
    assert_eq!(wakes(&c), 1);
    assert_eq!(g.release(), Err(AlreadyOpened));
    assert_eq!(wakes(&c), 1);
    assert_eq!(poll_waiter(&mut w, &c, 0), Ok(Async::Ready(())));
}

#[test]
fn clone_handles_share_state() {
    let g = BlackHole::new();
    let h = g.clone();
    let c = wake_counter();
    let mut w = spawn_waiter(&g);
    assert_eq!(poll_waiter(&mut w, &c, 0), Ok(Async::NotReady));
    assert!(h.release().is_ok());
    assert_eq!(wakes(&c), 1);
    assert_eq!(poll_waiter(&mut w, &c, 0), Ok(Async::Ready(())));
    assert_eq!(h.release(), Err(AlreadyOpened));
}

#[test]
fn repoll_reregisters() {
    let g = BlackHole::new();
    let c = wake_counter();
    let mut w = spawn_waiter(&g);
    assert_eq!(poll_waiter(&mut w, &c, 0), Ok(Async::NotReady));
    assert_eq!(poll_waiter(&mut w, &c, 0), Ok(Async::NotReady));
    assert!(g.release().is_ok());
    assert_eq!(wakes(&c), 2);
    assert_eq!(poll_waiter(&mut w, &c, 0), Ok(Async::Ready(())));
}

#[test]
fn state_release_twice() {
    let mut s = GateState::new_closed();
    assert!(!s.is_released());
    assert_eq!(s.try_release(), Ok(()));
    assert!(s.is_released());
    assert_eq!(s.try_release(), Err(AlreadyOpened));
    assert!(s.is_released());
}
