//! A signal that asks a running workflow to stop.

use std::sync::atomic::AtomicBool;
use std::sync::Arc;

use vstd::prelude::*;

verus! {

/// A token that can be used to signal cancellation to an in-progress workflow execution.
///
/// Clones share the same underlying state via `Arc`; cancelling any clone cancels all. What one
/// thread reads of the state depends on what others have written, so that no function states
/// what it is.
#[derive(Clone, Debug)]
pub struct CancellationToken {
    cancelled: Arc<AtomicBool>,
}

impl Default for CancellationToken {
    fn default() -> (r: Self) {
        Self::new()
    }
}

impl CancellationToken {
    /// Create a new, uncancelled token.
    pub fn new() -> (r: Self) {
        CancellationToken { cancelled: Arc::new(AtomicBool::new(false)) }
    }

    /// Signal cancellation. After this call, `is_cancelled()` returns `true` on all clones.
    pub fn cancel(&self) {
        self.cancelled.store(true, std::sync::atomic::Ordering::Release);
    }

    /// Returns `true` if `cancel()` has been called on this token or any of its clones.
    pub fn is_cancelled(&self) -> (r: bool) {
        self.cancelled.load(std::sync::atomic::Ordering::Acquire)
    }
}

} // verus!
