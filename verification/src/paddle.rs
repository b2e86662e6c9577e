use vstd::prelude::*;

use crate::geometry::Point;
use crate::state::{State, Stateful};
use vstd::std_specs::cmp::PartialEqSpecImpl;

verus! {

/// Whether the paddle follows the pointer.
#[derive(Clone, Copy, Debug)]
pub enum PaddleState {
    Frozen,
    Active,
}

impl PartialEq for PaddleState {
    fn eq(&self, other: &Self) -> (r: bool) {
        match (self, other) {
            (PaddleState::Frozen, PaddleState::Frozen) => true,
            (PaddleState::Active, PaddleState::Active) => true,
            _ => false,
        }
    }
}

impl PartialEqSpecImpl for PaddleState {
    open spec fn obeys_eq_spec() -> bool {
        true
    }

    open spec fn eq_spec(&self, other: &Self) -> bool {
        *self == *other
    }
}

impl Eq for PaddleState {}

impl Default for PaddleState {
    fn default() -> (s: Self)
        ensures
            s == PaddleState::Frozen,
    {
        PaddleState::Frozen
    }
}

impl State for PaddleState {
    proof fn lemma_eq_is_identity() {
        reveal(vstd::laws_eq::obeys_concrete_eq);
    }
}

/// What the engine must do for the paddle after a hook has run.
#[derive(Clone, Copy, Debug, PartialEq, Eq)]
pub enum PaddleEffect {
    /// Forget the pointer motion gathered so far.
    ResetOffset,
    /// Turn the per-frame physics step on or off.
    SetPhysicsProcess(bool),
}

/// The paddle as its contracts see it.
pub struct PaddleView {
    pub state: PaddleState,
    /// Effects requested and not yet taken, oldest first.
    pub effects: Seq<PaddleEffect>,
}

/// The decisions of the player's paddle.
pub struct Paddle {
    state: PaddleState,
    effects: Vec<PaddleEffect>,
}

impl View for Paddle {
    type V = PaddleView;

    closed spec fn view(&self) -> PaddleView {
        PaddleView { state: self.state, effects: self.effects@ }
    }
}

/// Effects of the entry hook of `s`.
pub open spec fn paddle_enter_effects(s: PaddleState) -> Seq<PaddleEffect> {
    match s {
        PaddleState::Active => seq![PaddleEffect::ResetOffset],
        PaddleState::Frozen => seq![PaddleEffect::SetPhysicsProcess(false)],
    }
}

/// Effects of the exit hook of `s`.
pub open spec fn paddle_exit_effects(s: PaddleState) -> Seq<PaddleEffect> {
    match s {
        PaddleState::Active => seq![],
        PaddleState::Frozen => seq![PaddleEffect::SetPhysicsProcess(true)],
    }
}

impl Paddle {
    /// A frozen paddle with no pending effect.
    pub fn new() -> (p: Paddle)
        ensures
            p@.state == PaddleState::Frozen,
            p@.effects == Seq::<PaddleEffect>::empty(),
    {
        Paddle { state: PaddleState::Frozen, effects: Vec::new() }
    }

    /// Whether pointer motion moves the paddle and the physics step applies
    /// it: only while the paddle is active.
    pub fn is_active(&self) -> (r: bool)
        ensures
            r == (self@.state == PaddleState::Active),
    {
        match self.state {
            PaddleState::Active => true,
            PaddleState::Frozen => false,
        }
    }

    /// Where the paddle waits while the ball is aimed.
    pub fn aiming_position() -> (p: Point)
        ensures
            p == (Point { x: 64000, y: 70000 }),
    {
        Point { x: 64000, y: 70000 }
    }

    /// Hands out the pending effects, oldest first, and forgets them.
    pub fn take_effects(&mut self) -> (effects: Vec<PaddleEffect>)
        ensures
            effects@ == old(self)@.effects,
            final(self)@.state == old(self)@.state,
            final(self)@.effects == Seq::<PaddleEffect>::empty(),
    {
        let mut effects = Vec::new();
        std::mem::swap(&mut effects, &mut self.effects);
        effects
    }
}

impl Stateful for Paddle {
    type S = PaddleState;

    open spec fn state_of(v: PaddleView) -> PaddleState {
        v.state
    }

    open spec fn with_state(v: PaddleView, new_state: PaddleState) -> PaddleView {
        PaddleView { state: new_state, ..v }
    }

    open spec fn after_exit(v: PaddleView) -> PaddleView {
        PaddleView { effects: v.effects + paddle_exit_effects(v.state), ..v }
    }

    open spec fn after_enter(v: PaddleView) -> PaddleView {
        PaddleView { effects: v.effects + paddle_enter_effects(v.state), ..v }
    }

    fn state(&self) -> (s: PaddleState) {
        self.state
    }

    fn set_state(&mut self, new_state: PaddleState) {
        self.state = new_state;
    }

    fn on_state_enter(&mut self) {
        match self.state {
            PaddleState::Active => {
                self.effects.push(PaddleEffect::ResetOffset);
            },
            PaddleState::Frozen => {
                self.effects.push(PaddleEffect::SetPhysicsProcess(false));
            },
        }
        assert(self.effects@ =~= old(self).effects@ + paddle_enter_effects(self.state));
    }

    fn on_state_exit(&mut self) {
        match self.state {
            PaddleState::Active => {},
            PaddleState::Frozen => {
                self.effects.push(PaddleEffect::SetPhysicsProcess(true));
            },
        }
        assert(self.effects@ =~= old(self).effects@ + paddle_exit_effects(self.state));
    }
}

/// Activating the paddle forgets gathered motion; freezing it stops its
/// physics step, and leaving the frozen phase starts the step again. Leaving
/// the active phase does nothing. Hooks never change the phase.
pub proof fn lemma_hook_effects_of_each_phase(v: PaddleView)
    ensures
        Paddle::after_enter(v).state == v.state,
        Paddle::after_exit(v).state == v.state,
        v.state == PaddleState::Active ==> Paddle::after_enter(v).effects == v.effects.push(
            PaddleEffect::ResetOffset,
        ),
        v.state == PaddleState::Frozen ==> Paddle::after_enter(v).effects == v.effects.push(
            PaddleEffect::SetPhysicsProcess(false),
        ),
        v.state == PaddleState::Active ==> Paddle::after_exit(v).effects == v.effects,
        v.state == PaddleState::Frozen ==> Paddle::after_exit(v).effects == v.effects.push(
            PaddleEffect::SetPhysicsProcess(true),
        ),
{
    assert(v.effects + seq![PaddleEffect::ResetOffset] =~= v.effects.push(PaddleEffect::ResetOffset));
    assert(v.effects + seq![PaddleEffect::SetPhysicsProcess(false)] =~= v.effects.push(
        PaddleEffect::SetPhysicsProcess(false),
    ));
    assert(v.effects + seq![PaddleEffect::SetPhysicsProcess(true)] =~= v.effects.push(
        PaddleEffect::SetPhysicsProcess(true),
    ));
    assert(v.effects + Seq::<PaddleEffect>::empty() =~= v.effects);
}

/// Writing the phase changes the phase and nothing else.
pub proof fn lemma_with_state_writes_phase_only(v: PaddleView, s: PaddleState)
    ensures
        Paddle::with_state(v, s) == (PaddleView { state: s, ..v }),
        Paddle::state_of(v) == v.state,
{
}

} // verus!
