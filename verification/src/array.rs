//! A fixed-capacity table of handler slots with scoped overrides.
//!
//! The table holds `N` slots, indexed `0..N`, each created empty (no-op).
//! Writes go through a [`CriticalSection`], so that on hardware no
//! interrupt-context call can begin while an entry is being swapped; the
//! call path itself pays no locking cost, because the production locker
//! masks interrupt delivery entirely while a write is in progress.
//!
//! [`HandlerArray::with_overrides`] runs caller-supplied logic with
//! temporary access to the table and restores the table's previous content
//! on exit, so callbacks meant for a bounded section of foreground code
//! cannot leak past it.

use vstd::prelude::*;

use crate::cs::dummy;
use crate::cs::CriticalSection;
use crate::handler::Callback;
use crate::handler::Handler;
use crate::slot_effect;

verus! {

/// The body of an override scope: caller logic that
/// [`HandlerArray::with_overrides`] runs with temporary access to the table
/// and its environment.
///
/// Like [`crate::handler::Callback`], each implementation describes what one
/// run of the body does through the abstract relation
/// [`OverrideBody::effect`]; `run` is verified to perform exactly one step
/// of it. The scope functions then promise their caller that the body ran
/// exactly once against this table's pre-scope content, so what a scope did
/// to the environment is derivable from the body's effect alone.
/// Ready-made composable bodies live in [`crate::scope`].
pub trait OverrideBody<T, E, const N: usize>: Sized {
    /// Relates the body's own state, the table and the environment before
    /// one run to their states after it. `t_post` is the table as the body
    /// leaves it, before the enclosing scope restores the snapshot.
    spec fn effect(
        pre: Self,
        t_pre: Seq<Option<T>>,
        e_pre: E,
        post: Self,
        t_post: Seq<Option<T>>,
        e_post: E,
    ) -> bool;

    /// Run the scope's body. Registrations performed here last only until
    /// the enclosing override scope exits.
    fn run(&mut self, table: &mut HandlerArray<T, N>, env: &mut E)
        requires
            old(table).wf(),
        ensures
            final(table).wf(),
            Self::effect(
                *old(self),
                old(table)@,
                *old(env),
                *final(self),
                final(table)@,
                *final(env),
            ),
    ;
}

/// A fixed-capacity, ordered collection of handler slots, indexed `0..N`.
#[derive(Debug)]
pub struct HandlerArray<T, const N: usize> {
    slots: Vec<Handler<T>>,
}

impl<T, const N: usize> View for HandlerArray<T, N> {
    type V = Seq<Option<T>>;

    closed spec fn view(&self) -> Seq<Option<T>> {
        self.slots@.map_values(|h: Handler<T>| h@)
    }
}

impl<T, const N: usize> HandlerArray<T, N> {
    /// The capacity is fixed at construction and never changes.
    pub open spec fn wf(&self) -> bool {
        self@.len() == N
    }

    /// Create a new `HandlerArray` filled with no-op handlers.
    pub fn new() -> (r: Self)
        ensures
            r.wf(),
            forall|i: int| 0 <= i < N ==> r@[i] is None,
    {
        let mut slots: Vec<Handler<T>> = Vec::new();
        let mut i: usize = 0;
        while i < N
            invariant
                i <= N,
                slots@.len() == i,
                forall|j: int| 0 <= j < i ==> slots@[j]@ is None,
            decreases N - i,
        {
            slots.push(Handler::new());
            i += 1;
        }
        HandlerArray { slots }
    }

    /// Register `f` for entry `nr` in this array using the default
    /// critical-section locker.
    ///
    /// The default locker is the pass-through one; a composition root on
    /// hardware passes the interrupt-masking locker through
    /// `lock_register` instead, so that the store cannot interleave with an
    /// interrupt-context call of the same entry.
    pub fn register(&mut self, nr: usize, f: T)
        requires
            old(self).wf(),
            nr < N,
        ensures
            final(self).wf(),
            final(self)@ == old(self)@.update(nr as int, Some(f)),
    {
        self.lock_register(&dummy::Locker::new(), nr, f)
    }

    /// Register `f` for entry `nr` in this array using `cs` to create a
    /// critical section for updating the array.
    ///
    /// An index at or past the capacity is a caller contract violation,
    /// excluded here rather than tolerated as a silent no-op.
    pub fn lock_register<CS: CriticalSection>(&mut self, cs: &CS, nr: usize, f: T)
        requires
            old(self).wf(),
            nr < N,
        ensures
            final(self).wf(),
            final(self)@ == old(self)@.update(nr as int, Some(f)),
    {
        let mut taken: Vec<Handler<T>> = Vec::new();
        core::mem::swap(&mut self.slots, &mut taken);
        let updated = cs.with_lock(move || -> (r: Vec<Handler<T>>)
            requires
                nr < taken@.len(),
            ensures
                r@.len() == taken@.len(),
                r@[nr as int]@ == Some(f),
                forall|i: int| 0 <= i < taken@.len() && i != nr ==> r@[i] == taken@[i],
            {
                let mut s = taken;
                s[nr].replace(f);
                s
            });
        self.slots = updated;
        proof {
            let view_of = |h: Handler<T>| h@;
            assert(self.slots@.map_values(view_of) =~= old(self).slots@.map_values(view_of)
                .update(nr as int, Some(f)));
        }
    }

    /// Call the handler for entry `nr`: one invocation of the installed
    /// callback's effect, or no observable effect at all if the entry has
    /// never been registered.
    ///
    /// An index at or past the capacity is a caller contract violation,
    /// excluded here rather than tolerated as a silent no-op.
    pub fn call<E>(&self, nr: usize, env: &mut E)
        where
            T: Callback<E>,
        requires
            self.wf(),
            nr < N,
        ensures
            slot_effect(self@[nr as int], *old(env), *final(env)),
    {
        self.slots[nr].call(env)
    }

    /// Run `body` exactly once with access to this table, then restore the
    /// table's previous content exactly. Handlers registered by `body` are
    /// visible only for the duration of `body`; nested override scopes
    /// restore innermost-first, each exit undoing exactly the registrations
    /// made since the matching entry.
    ///
    /// The second clause says the environment and the body's own state left
    /// behind are the outcome of one run of the body against this table's
    /// pre-scope content; the witnessed table state is the one the body
    /// built up before the restore discarded it.
    ///
    /// The restore step uses the default (pass-through) critical-section
    /// locker; a composition root on hardware uses `lock_overrides` with
    /// the interrupt-masking locker instead.
    pub fn with_overrides<E, B: OverrideBody<T, E, N>>(&mut self, body: &mut B, env: &mut E)
        where
            T: Copy,
        requires
            old(self).wf(),
        ensures
            final(self).wf(),
            final(self)@ == old(self)@,
            exists|t_mid: Seq<Option<T>>|
                B::effect(*old(body), old(self)@, *old(env), *final(body), t_mid, *final(env)),
    {
        self.lock_overrides(&dummy::Locker::new(), body, env)
    }

    /// Same as `with_overrides` but with a caller-supplied implementation
    /// of `CriticalSection` guarding the restore step.
    pub fn lock_overrides<CS: CriticalSection, E, B: OverrideBody<T, E, N>>(
        &mut self,
        cs: &CS,
        body: &mut B,
        env: &mut E,
    )
        where
            T: Copy,
        requires
            old(self).wf(),
        ensures
            final(self).wf(),
            final(self)@ == old(self)@,
            exists|t_mid: Seq<Option<T>>|
                B::effect(*old(body), old(self)@, *old(env), *final(body), t_mid, *final(env)),
    {
        // Back up the current handlers before entering the inner scope so
        // they can be restored on exit, whatever `body` does to the table.
        let ghost pre = self.slots@;
        let mut snapshot: Vec<Handler<T>> = Vec::new();
        let mut i: usize = 0;
        while i < self.slots.len()
            invariant
                i <= self.slots@.len(),
                snapshot@.len() == i,
                forall|j: int| 0 <= j < i ==> snapshot@[j] == self.slots@[j],
                self.slots@ == pre,
                self == old(self),
                env == old(env),
            decreases self.slots@.len() - i,
        {
            let h = self.slots[i];
            snapshot.push(h);
            i += 1;
        }
        proof {
            assert(snapshot@ =~= pre);
        }
        body.run(self, env);
        let ghost t_mid = self@;
        // Put the old handlers back inside a critical section to avoid
        // data races with interrupt-context calls.
        let restored = cs.with_lock(move || -> (r: Vec<Handler<T>>)
            ensures
                r == snapshot,
            {
                snapshot
            });
        self.slots = restored;
        proof {
            assert(B::effect(*old(body), old(self)@, *old(env), *body, t_mid, *env));
        }
    }
}

/// Law: after `f` is registered at entry `i`, calling entry `i` performs
/// exactly one step of `f`'s effect — no other callback's, and not several.
///
/// The first premise is the table content that [`HandlerArray::register`]
/// ensures, and the second is what [`HandlerArray::call`] establishes of
/// the environment on such a table.
pub proof fn lemma_registered_call_applies_effect<T: Callback<E>, E>(
    t: Seq<Option<T>>,
    i: int,
    f: T,
    pre: E,
    post: E,
)
    requires
        0 <= i < t.len(),
        slot_effect(t.update(i, Some(f))[i], pre, post),
    ensures
        f.effect(pre, post),
{
}

/// Law: calling any entry of a table that has no registrations has no
/// observable effect on the environment.
///
/// A freshly constructed table satisfies the first premise by the contract
/// of [`HandlerArray::new`], and the last premise is what
/// [`HandlerArray::call`] establishes of the environment.
pub proof fn lemma_unregistered_call_is_noop<T: Callback<E>, E, const N: usize>(
    t: HandlerArray<T, N>,
    i: int,
    pre: E,
    post: E,
)
    requires
        forall|j: int| 0 <= j < t@.len() ==> t@[j] is None,
        0 <= i < t@.len(),
        slot_effect(t@[i], pre, post),
    ensures
        post == pre,
{
}

} // verus!
