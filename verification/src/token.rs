//! The one piece of intentionally shared mutable state: a process-wide
//! boolean meaning "a match has been found; all workers must stop".

use vstd::prelude::*;
use core::sync::atomic::AtomicBool;
use core::sync::atomic::Ordering;

verus! {

/// A shared cancellation signal. It starts unset and meaningfully
/// transitions at most once, from unset to set; setting it again is
/// idempotent. Every worker observes it: CPU workers on every trial, GPU
/// drivers between rounds. Because other threads may write concurrently,
/// nothing can be promised of the value a load returns.
pub struct CancellationToken {
    flag: AtomicBool,
}

impl CancellationToken {
    /// A fresh, unset token.
    pub fn new() -> (r: CancellationToken) {
        CancellationToken { flag: AtomicBool::new(false) }
    }

    /// Acquire-load of the flag. Any worker may have set it concurrently, so
    /// either outcome is possible.
    pub fn is_set(&self) -> (r: bool) {
        self.flag.load(Ordering::Acquire)
    }

    /// Release-store of the set state; idempotent once set.
    pub fn set(&self) {
        self.flag.store(true, Ordering::Release);
    }

    /// The arbitration point between racing workers: a compare-and-set from
    /// unset to set, true for exactly the first caller to succeed over the
    /// token's lifetime. Only the worker that wins here reports its match.
    pub fn try_set(&self) -> (r: bool) {
        self.flag.compare_exchange(false, true, Ordering::SeqCst, Ordering::Acquire).is_ok()
    }
}

} // verus!
