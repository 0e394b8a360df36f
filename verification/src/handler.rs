//! A single handler slot: holds at most one installed callback.

use vstd::prelude::*;

verus! {

/// The interface of an interrupt callback: a no-argument invocation that
/// mutates an environment `E`.
///
/// The environment stands for the state a callback works on. Each
/// implementation describes what one invocation does through the abstract
/// relation [`Callback::effect`]; `invoke` is then verified to perform
/// exactly one step of that relation.
pub trait Callback<E>: Sized {
    /// Relates the environment before one invocation to the environment
    /// after it.
    spec fn effect(&self, pre: E, post: E) -> bool;

    /// Perform the callback's effect once.
    fn invoke(&self, env: &mut E)
        ensures
            self.effect(*old(env), *final(env)),
    ;
}

/// A slot holding zero or one installed callback.
///
/// Freshly created slots are empty; calling an empty slot is a defined no-op.
#[derive(Clone, Copy, Debug)]
pub struct Handler<T> {
    h: Option<T>,
}

impl<T> View for Handler<T> {
    type V = Option<T>;

    closed spec fn view(&self) -> Option<T> {
        self.h
    }
}

impl<T> Handler<T> {
    /// Returns a new handler that does nothing when called. Override its
    /// behavior by using `replace`.
    pub fn new() -> (r: Self)
        ensures
            r@ is None,
    {
        Handler { h: None }
    }

    /// Replace the behavior of this handler with `f`.
    ///
    /// The caller is responsible for making sure no `call` on this same slot
    /// is in progress; exclusive access (`&mut self`) makes that structural
    /// here, and table-level registration additionally runs the store inside
    /// a critical section.
    pub fn replace(&mut self, f: T)
        ensures
            final(self)@ == Some(f),
    {
        self.h = Some(f);
    }

    /// Execute this handler: invoke the installed callback once, or do
    /// nothing if none is installed.
    pub fn call<E>(&self, env: &mut E)
        where
            T: Callback<E>,
        ensures
            crate::slot_effect(self@, *old(env), *final(env)),
    {
        match &self.h {
            None => (),
            Some(f) => f.invoke(env),
        }
    }

    /// Do-nothing handler. A slot behaves as if this were installed until
    /// `replace` is used to set specific behavior.
    pub fn default_handler() {
    }
}

} // verus!
