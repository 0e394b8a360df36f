//! Pass-through critical section for targets without preemption, such as a
//! host running tests.

use vstd::prelude::*;

use crate::cs::CriticalSection;

verus! {

/// A critical-section provider that suppresses nothing: the block simply
/// runs inline. Use it where no real preemption exists.
pub struct Locker {}

impl Locker {
    /// Returns a new pass-through locker.
    pub fn new() -> (r: Self)
        ensures
            r == (Locker {  }),
    {
        Locker {}
    }
}

impl CriticalSection for Locker {
    /// Executes `f` exactly once, inline, and returns its result unchanged.
    fn with_lock<F: FnOnce() -> R, R>(&self, f: F) -> (r: R) {
        f()
    }
}

} // verus!
