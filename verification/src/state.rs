use vstd::prelude::*;

verus! {

/// A value that names the state of a state machine.
///
/// Equality on a state must be identity: two states compare equal exactly when
/// they are the same value. Each implementation proves this once, which lets
/// the generic `Stateful::transition_to` reason about its own `==` test.
pub trait State: Clone + Copy + Default + PartialEq {
    proof fn lemma_eq_is_identity()
        ensures
            vstd::laws_eq::obeys_concrete_eq::<Self>(),
    ;
}

/// The view of `T` after `transition_to(new_state)` on an object whose view
/// was `v`.
pub open spec fn transitioned<T: Stateful>(v: T::V, new_state: T::S) -> T::V {
    if T::state_of(v) == new_state {
        v
    } else {
        T::after_enter(T::with_state(T::after_exit(v), new_state))
    }
}

/// An object driven by a state machine with entry and exit hooks.
///
/// The object is modelled by its view. `state_of`, `with_state`, `after_exit`
/// and `after_enter` describe, over views, what reading the state, writing it
/// and running each hook do; every implementation is held to them.
pub trait Stateful: View + Sized {
    type S: State;

    /// The state recorded in a view.
    spec fn state_of(v: Self::V) -> Self::S;

    /// The view after writing `new_state` into it.
    spec fn with_state(v: Self::V, new_state: Self::S) -> Self::V;

    /// The view after the exit hook of its current state has run.
    spec fn after_exit(v: Self::V) -> Self::V;

    /// The view after the entry hook of its current state has run.
    spec fn after_enter(v: Self::V) -> Self::V;

    fn state(&self) -> (s: Self::S)
        ensures
            s == Self::state_of(self@),
    ;

    fn set_state(&mut self, new_state: Self::S)
        ensures
            final(self)@ == Self::with_state(old(self)@, new_state),
            Self::state_of(final(self)@) == new_state,
    ;

    /// Moves to `new_state`. Nothing happens when the object is already in
    /// that state; otherwise the exit hook of the old state runs, the state is
    /// written, and the entry hook of the new state runs, in that order.
    fn transition_to(&mut self, new_state: Self::S)
        ensures
            final(self)@ == (if Self::state_of(old(self)@) == new_state {
                old(self)@
            } else {
                Self::after_enter(Self::with_state(Self::after_exit(old(self)@), new_state))
            }),
            Self::state_of(final(self)@) == new_state,
    {
        proof {
            <Self::S as State>::lemma_eq_is_identity();
            reveal(vstd::laws_eq::obeys_concrete_eq);
        }
        if self.state() == new_state {
            return;
        }
        self.on_state_exit();
        self.set_state(new_state);
        self.on_state_enter();
    }

    fn on_state_exit(&mut self)
        ensures
            final(self)@ == Self::after_exit(old(self)@),
            Self::state_of(final(self)@) == Self::state_of(old(self)@),
    ;

    fn on_state_enter(&mut self)
        ensures
            final(self)@ == Self::after_enter(old(self)@),
            Self::state_of(final(self)@) == Self::state_of(old(self)@),
    ;
}

/// What a handler that moves `T` to `new_state` leaves behind: nothing
/// changes when `T` is there already; otherwise the old phase is left, the
/// state written and the new phase entered, and `T` ends in `new_state`.
pub proof fn lemma_transitioned_runs_hooks<T: Stateful>(v: T::V, new_state: T::S)
    requires
        forall|w: T::V, s: T::S| #[trigger] T::state_of(T::with_state(w, s)) == s,
        forall|w: T::V| #[trigger] T::state_of(T::after_enter(w)) == T::state_of(w),
    ensures
        T::state_of(v) == new_state ==> transitioned::<T>(v, new_state) == v,
        T::state_of(v) != new_state ==> transitioned::<T>(v, new_state) == T::after_enter(
            T::with_state(T::after_exit(v), new_state),
        ),
        T::state_of(transitioned::<T>(v, new_state)) == new_state,
{
    if T::state_of(v) != new_state {
        assert(T::state_of(T::with_state(T::after_exit(v), new_state)) == new_state);
    }
}

} // verus!
