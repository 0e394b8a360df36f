//! Ready-made override-scope bodies.
//!
//! Each type here implements [`OverrideBody`] with a proved effect
//! relation, and they compose: [`Chain`] sequences two bodies and
//! [`NestedScope`] opens an inner override scope around one. A caller of
//! [`HandlerArray::with_overrides`] therefore knows from the contracts
//! alone what a scope built from these did to the environment before it
//! was unwound.

use vstd::prelude::*;

use crate::array::HandlerArray;
use crate::array::OverrideBody;
use crate::handler::Callback;
use crate::slot_effect;

verus! {

/// A scope body that registers `callback` at entry `nr`; an out-of-range
/// entry leaves the table untouched.
#[derive(Clone, Copy, Debug)]
pub struct Register<T> {
    /// The entry to register at.
    pub nr: usize,
    /// The callback to install for the scope's duration.
    pub callback: T,
}

impl<T: Copy, E, const N: usize> OverrideBody<T, E, N> for Register<T> {
    open spec fn effect(
        pre: Self,
        t_pre: Seq<Option<T>>,
        e_pre: E,
        post: Self,
        t_post: Seq<Option<T>>,
        e_post: E,
    ) -> bool {
        &&& post == pre
        &&& e_post == e_pre
        &&& pre.nr < t_pre.len() ==> t_post == t_pre.update(pre.nr as int, Some(pre.callback))
        &&& pre.nr >= t_pre.len() ==> t_post == t_pre
    }

    fn run(&mut self, table: &mut HandlerArray<T, N>, env: &mut E) {
        if self.nr < N {
            table.register(self.nr, self.callback);
        }
    }
}

/// A scope body that calls entry `nr` once; an out-of-range entry leaves
/// the environment untouched.
#[derive(Clone, Copy, Debug)]
pub struct Call {
    /// The entry to call.
    pub nr: usize,
}

impl<T: Callback<E>, E, const N: usize> OverrideBody<T, E, N> for Call {
    open spec fn effect(
        pre: Self,
        t_pre: Seq<Option<T>>,
        e_pre: E,
        post: Self,
        t_post: Seq<Option<T>>,
        e_post: E,
    ) -> bool {
        &&& post == pre
        &&& t_post == t_pre
        &&& pre.nr < t_pre.len() ==> slot_effect(t_pre[pre.nr as int], e_pre, e_post)
        &&& pre.nr >= t_pre.len() ==> e_post == e_pre
    }

    fn run(&mut self, table: &mut HandlerArray<T, N>, env: &mut E) {
        if self.nr < N {
            table.call(self.nr, env);
        }
    }
}

/// A scope body that runs `first`, then `second`, against the same table
/// and environment.
#[derive(Clone, Copy, Debug)]
pub struct Chain<A, B> {
    /// The body run first.
    pub first: A,
    /// The body run after it.
    pub second: B,
}

impl<
    T,
    E,
    A: OverrideBody<T, E, N>,
    B: OverrideBody<T, E, N>,
    const N: usize,
> OverrideBody<T, E, N> for Chain<A, B> {
    open spec fn effect(
        pre: Self,
        t_pre: Seq<Option<T>>,
        e_pre: E,
        post: Self,
        t_post: Seq<Option<T>>,
        e_post: E,
    ) -> bool {
        exists|t_mid: Seq<Option<T>>, e_mid: E|
            #[trigger] A::effect(pre.first, t_pre, e_pre, post.first, t_mid, e_mid)
                && B::effect(pre.second, t_mid, e_mid, post.second, t_post, e_post)
    }

    fn run(&mut self, table: &mut HandlerArray<T, N>, env: &mut E) {
        self.first.run(table, env);
        let ghost t_mid = table@;
        let ghost e_mid = *env;
        self.second.run(table, env);
        proof {
            assert(A::effect(old(self).first, old(table)@, *old(env), self.first, t_mid, e_mid));
            assert(B::effect(old(self).second, t_mid, e_mid, self.second, table@, *env));
        }
    }
}

/// A scope body that opens a nested override scope around `body`: the
/// inner scope's registrations are undone before this body finishes, so
/// the table it leaves behind is the one it was given.
#[derive(Clone, Copy, Debug)]
pub struct NestedScope<B> {
    /// The inner scope's body.
    pub body: B,
}

impl<T: Copy, E, B: OverrideBody<T, E, N>, const N: usize> OverrideBody<T, E, N> for NestedScope<
    B,
> {
    open spec fn effect(
        pre: Self,
        t_pre: Seq<Option<T>>,
        e_pre: E,
        post: Self,
        t_post: Seq<Option<T>>,
        e_post: E,
    ) -> bool {
        &&& t_post == t_pre
        &&& exists|t_mid: Seq<Option<T>>|
            B::effect(pre.body, t_pre, e_pre, post.body, t_mid, e_post)
    }

    fn run(&mut self, table: &mut HandlerArray<T, N>, env: &mut E) {
        table.with_overrides(&mut self.body, env);
        proof {
            let t_mid = choose|t_mid: Seq<Option<T>>|
                B::effect(old(self).body, old(table)@, *old(env), self.body, t_mid, *env);
            assert(B::effect(old(self).body, old(table)@, *old(env), self.body, t_mid, *env));
        }
    }
}

} // verus!
