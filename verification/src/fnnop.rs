//! The built-in do-nothing callable.

use vstd::prelude::*;

use crate::handler::Callback;

verus! {

/// A callable that does nothing when invoked, whatever the environment.
///
/// This is what an empty slot behaves as; it can also be installed
/// explicitly to retire a callback that is about to go out of scope.
#[derive(Clone, Copy, Debug)]
pub struct FnNOP();

impl<E> Callback<E> for FnNOP {
    open spec fn effect(&self, pre: E, post: E) -> bool {
        post == pre
    }

    fn invoke(&self, _env: &mut E) {
    }
}

} // verus!
