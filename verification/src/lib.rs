//! A one-shot, multi-waiter black hole.
//!
//! A [`black_hole::BlackHole`](black_hole::BlackHole) starts closed and can be
//! released (opened) exactly once.  Any number of tasks may poll it: a poll on
//! the open black hole reports ready at once, a poll on the closed black hole records the
//! caller's wake token and reports not ready.  Releasing the black hole wakes every
//! recorded token and moves the black hole to its terminal open state.

pub mod black_hole;

pub mod state;

pub mod wake;
