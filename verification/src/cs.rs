//! Critical-section support.
//!
//! Types that implement the [`CriticalSection`] trait can be used to create
//! critical sections that prevent data races between interrupt and
//! non-interrupt contexts.
//!
//! Critical sections are only acquired for updating a table's entries. They
//! are *not* used when calling into a callback: the production locker turns
//! off interrupt delivery entirely, so while a write is in progress no
//! interrupt-context call can begin, and the call path pays no locking cost.
//! An implementation of your own must preserve that rationale.

use vstd::prelude::*;

pub mod cortex;
pub mod dummy;

verus! {

/// Generic trait which supplies the ability to create a critical section.
pub trait CriticalSection {
    /// Execute `f` within a critical section, returning `f`'s result.
    ///
    /// `f` is executed exactly once; whatever `f`'s contract promises of a
    /// result therefore holds of the value returned here.
    fn with_lock<F: FnOnce() -> R, R>(&self, f: F) -> (r: R)
        requires
            f.requires(()),
        ensures
            f.ensures((), r),
    ;
}

} // verus!
