//! Critical section backed by Cortex-M interrupt masking.

use vstd::prelude::*;

use crate::cs::CriticalSection;

verus! {

/// Relies on `cortex_m::interrupt::free`: on a Cortex-M target it saves
/// PRIMASK, disables interrupt delivery, runs the closure exactly once,
/// restores PRIMASK, and returns the closure's result. On hosted platforms
/// the call panics before running the closure and never returns, so the
/// clause below holds of every outcome that does return.
#[verifier::external_body]
fn interrupt_free<F: FnOnce() -> R, R>(f: F) -> (r: R)
    requires
        f.requires(()),
    ensures
        f.ensures((), r),
{
    cortex_m::interrupt::free(|_cs| f())
}

/// A critical-section provider that masks hardware interrupt delivery for
/// the duration of the block. Only functional on Cortex-M targets.
pub struct Locker {}

impl Locker {
    /// Returns a new interrupt-masking locker.
    pub fn new() -> (r: Self)
        ensures
            r == (Locker {  }),
    {
        Locker {}
    }
}

impl CriticalSection for Locker {
    /// Executes `f` exactly once with interrupt delivery masked and returns
    /// its result unchanged.
    fn with_lock<F: FnOnce() -> R, R>(&self, f: F) -> (r: R) {
        interrupt_free(f)
    }
}

} // verus!
