//! Closure-style interrupt handlers, verified.
//!
//! Interrupt service routines on small single-core devices want to run a
//! caller-supplied callable against its own state, without heap allocation or
//! lock-wrapped globals. This crate provides a handler slot ([`Handler`]), a
//! fixed-capacity table of slots ([`HandlerArray`]) with a scope-bounded
//! override mechanism, and a critical-section capability ([`cs::CriticalSection`])
//! used to make table writes atomic with respect to interrupt-context reads.
//!
//! Note on defaults: `register` and `with_overrides` lock with the
//! pass-through [`cs::dummy::Locker`], which suppresses nothing. A
//! composition root on hardware must route every table write through
//! `lock_register`/`lock_overrides` with the interrupt-masking
//! [`cs::cortex::Locker`], or the write can interleave with an
//! interrupt-context call of the same entry.

use vstd::prelude::*;

pub mod array;
pub mod counter;
pub mod cs;
pub mod fnnop;
pub mod handler;
pub mod scope;

pub use array::HandlerArray;
pub use array::OverrideBody;
pub use fnnop::FnNOP;
pub use handler::Callback;
pub use handler::Handler;

verus! {

/// What one slot does to an environment: nothing when empty, the installed
/// callback's effect otherwise.
pub open spec fn slot_effect<T: Callback<E>, E>(s: Option<T>, pre: E, post: E) -> bool {
    match s {
        None => post == pre,
        Some(f) => f.effect(pre, post),
    }
}

} // verus!
