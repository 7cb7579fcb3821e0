//! A flag that is raised while the watch is subscribed to a characteristic's
//! notifications: set when the subscription starts, cleared when the guard
//! is dropped at its end.

use vstd::prelude::*;

use std::sync::Arc;
use std::sync::atomic::AtomicBool;
use std::sync::atomic::Ordering;

verus! {

/// Calls `AtomicBool::store(false, Ordering::SeqCst)`. std documents that
/// `store` panics only for the orderings `Acquire` and `AcqRel`, so this call
/// does not unwind; vstd's specification of `store` does not say so, and
/// nothing is said of the flag's value, which other tasks read and write.
#[verifier::external_body]
fn lower_flag(flag: &AtomicBool)
    opens_invariants none
    no_unwind
{
    flag.store(false, Ordering::SeqCst);
}

/// Holds the ready flag raised for as long as the guard lives.
pub struct NotifyReadyGuard {
    ready: Arc<AtomicBool>,
}

impl NotifyReadyGuard {
    /// The flag that this guard holds raised.
    pub closed spec fn flag(&self) -> Arc<AtomicBool> {
        self.ready
    }

    /// Raises `ready` and returns the guard that lowers it again when dropped.
    pub fn new(ready: Arc<AtomicBool>) -> (guard: Self)
        ensures
            guard.flag() == ready,
    {
        ready.store(true, Ordering::SeqCst);
        NotifyReadyGuard { ready }
    }
}

impl Drop for NotifyReadyGuard {
    /// Lowers the flag.
    fn drop(&mut self)
        opens_invariants none
        no_unwind
    {
        lower_flag(&self.ready);
    }
}

} // verus!
