//! Cancellation tokens for background work.
//!
//! A token is a snapshot of a shared key counter: it expires as soon as the
//! counter moves away from the value it was created with.
use std::sync::atomic::{AtomicUsize, Ordering};
use std::sync::Arc;
use vstd::prelude::*;

verus! {

/// Handle telling a background computation whether a newer input event
/// has happened since the handle was issued.
pub struct TaskLifetime {
    counter: Option<Arc<AtomicUsize>>,
    snapshot: usize,
}

impl View for TaskLifetime {
    /// `None` for a token that never expires, else the counter value
    /// the token was bound to.
    type V = Option<usize>;

    closed spec fn view(&self) -> Option<usize> {
        match self.counter {
            Some(_) => Some(self.snapshot),
            None => None,
        }
    }
}

/// Whether a token with the given snapshot is stale when the shared
/// counter reads `current`.
pub open spec fn expired_spec(token: Option<usize>, current: usize) -> bool {
    match token {
        Some(k) => current != k,
        None => false,
    }
}

impl TaskLifetime {
    /// A token that never expires, for blocking or one-shot work.
    pub fn unlimited() -> (r: TaskLifetime)
        ensures
            r@ is None,
    {
        TaskLifetime { counter: None, snapshot: 0 }
    }

    /// A token bound to the counter value `snapshot`.
    pub fn with_snapshot(counter: &Arc<AtomicUsize>, snapshot: usize) -> (r: TaskLifetime)
        ensures
            r@ == Some(snapshot),
    {
        TaskLifetime { counter: Some(counter.clone()), snapshot }
    }

    /// A token bound to the value the shared counter holds now.
    pub fn new(counter: &Arc<AtomicUsize>) -> (r: TaskLifetime)
        ensures
            r@ is Some,
    {
        let snapshot = counter.load(Ordering::SeqCst);
        TaskLifetime::with_snapshot(counter, snapshot)
    }

    /// Whether the token is stale given the counter value `current`.
    pub fn expired_at(&self, current: usize) -> (r: bool)
        ensures
            r == expired_spec(self@, current),
    {
        match &self.counter {
            Some(_) => current != self.snapshot,
            None => false,
        }
    }

    /// Whether a newer input event happened since this token was issued.
    /// The counter is read now; whatever it holds, an unlimited token
    /// never expires.
    pub fn is_expired(&self) -> (r: bool)
        ensures
            self@ is None ==> !r,
    {
        let current = match &self.counter {
            Some(c) => c.load(Ordering::SeqCst),
            None => 0,
        };
        self.expired_at(current)
    }
}

} // verus!
