//! Cooperative cancellation: a cloneable token backed by a shared atomic flag.
//! Every token derived from a root shares its flag, so cancelling one cancels all.
use std::sync::atomic::{AtomicBool, Ordering};
use std::sync::Arc;
use vstd::prelude::*;

verus! {

/// A cancellation signal shared by all tokens derived from the same root.
#[derive(Debug, Clone, Default)]
pub struct CancellationToken(Arc<AtomicBool>);

impl CancellationToken {
    /// A token whose flag is not set.
    pub fn new() -> (r: Self) {
        CancellationToken(Arc::new(AtomicBool::new(false)))
    }

    /// Set the shared flag; every token sharing it observes the cancellation.
    pub fn cancel(&self) {
        self.0.store(true, Ordering::SeqCst);
    }

    /// Whether the shared flag is set. The flag is shared with other threads, so
    /// the answer is whatever the atomic load observes.
    pub fn is_cancelled(&self) -> (r: bool) {
        self.0.load(Ordering::Acquire)
    }

    /// A token sharing this token's flag.
    pub fn child_token(&self) -> (r: Self)
        ensures
            r == *self,
    {
        CancellationToken(Arc::clone(&self.0))
    }

    /// Snapshot of the current state.
    pub fn snapshot(&self) -> (r: CancellationSnapshot) {
        CancellationSnapshot { was_cancelled: self.is_cancelled() }
    }
}

/// Serialisable snapshot of a cancellation state.
#[derive(Debug, Clone, Copy, Default, PartialEq, Eq)]
pub struct CancellationSnapshot {
    /// Whether the task was cancelled before or during execution.
    pub was_cancelled: bool,
}

impl CancellationSnapshot {
    /// Snapshot of a token.
    pub fn from_token(t: &CancellationToken) -> (r: Self) {
        CancellationSnapshot { was_cancelled: t.is_cancelled() }
    }
}

} // verus!
