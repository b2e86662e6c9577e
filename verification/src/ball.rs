use vstd::prelude::*;

use crate::geometry::Point;
use crate::state::{transitioned, State, Stateful};
use vstd::std_specs::cmp::PartialEqSpecImpl;

verus! {

/// The phases of the ball.
#[derive(Clone, Copy, Debug)]
pub enum BallState {
    /// At rest and frozen in place.
    Frozen,
    /// Waiting on the paddle while the player aims.
    Aiming,
    /// In flight.
    Active,
}

impl PartialEq for BallState {
    fn eq(&self, other: &Self) -> (r: bool) {
        match (self, other) {
            (BallState::Frozen, BallState::Frozen) => true,
            (BallState::Aiming, BallState::Aiming) => true,
            (BallState::Active, BallState::Active) => true,
            _ => false,
        }
    }
}

impl PartialEqSpecImpl for BallState {
    open spec fn obeys_eq_spec() -> bool {
        true
    }

    open spec fn eq_spec(&self, other: &Self) -> bool {
        *self == *other
    }
}

impl Eq for BallState {}

impl Default for BallState {
    fn default() -> (s: Self)
        ensures
            s == BallState::Frozen,
    {
        BallState::Frozen
    }
}

impl State for BallState {
    proof fn lemma_eq_is_identity() {
        reveal(vstd::laws_eq::obeys_concrete_eq);
    }
}

/// What the engine must do for the ball after a hook or handler has run.
/// `D` is the engine's type of unit direction, which the ball only carries.
#[derive(Clone, Copy, Debug, PartialEq, Eq)]
pub enum BallEffect<D> {
    /// Put the body to sleep and freeze it, both at idle time.
    FreezeDeferred,
    /// Show the aiming arrow.
    ShowArrow,
    /// Hide the aiming arrow.
    HideArrow,
    /// Give the body the ball's speed along this direction.
    LaunchAlong(D),
    /// Give the body the ball's speed along the aimed direction, and set the
    /// aim back to straight up.
    LaunchFromAim,
    /// Wake the body and unfreeze it.
    Release,
    /// Set the body's velocity to zero at idle time.
    StopDeferred,
    /// Emit the `ball_out_screen` signal.
    EmitBallOutScreen,
}

/// The kinds of pointer input that the ball tells apart.
#[derive(Clone, Copy, Debug, PartialEq, Eq)]
pub enum PointerEvent {
    /// The pointer moved.
    Motion,
    /// A mouse button changed; `left` says whether it is the left one.
    Button { left: bool },
    /// Any other input.
    Other,
}

/// What the ball does with one pointer input.
#[derive(Clone, Copy, Debug, PartialEq, Eq)]
pub enum AimAction {
    Ignore,
    /// Turn the aim by the pointer's horizontal motion.
    MoveAim,
    /// Emit the `ball_launch` signal.
    Launch,
}

/// The ball as its contracts see it.
pub struct BallView<D> {
    pub state: BallState,
    /// The direction of flight kept while the ball was stopped in flight.
    pub direction_cache: Option<D>,
    /// The unit direction in which the body moves now, `None` at rest, as
    /// last reported by the engine.
    pub heading: Option<D>,
    /// Effects requested and not yet taken, oldest first.
    pub effects: Seq<BallEffect<D>>,
}

/// The decisions of the ball.
pub struct Ball<D> {
    state: BallState,
    direction_cache: Option<D>,
    heading: Option<D>,
    effects: Vec<BallEffect<D>>,
}

impl<D> View for Ball<D> {
    type V = BallView<D>;

    closed spec fn view(&self) -> BallView<D> {
        BallView {
            state: self.state,
            direction_cache: self.direction_cache,
            heading: self.heading,
            effects: self.effects@,
        }
    }
}

/// The launch that entering flight makes, given the kept direction.
pub open spec fn launch_effect<D>(cache: Option<D>) -> BallEffect<D> {
    match cache {
        Some(d) => BallEffect::LaunchAlong(d),
        None => BallEffect::LaunchFromAim,
    }
}

/// What the ball does with `event` in state `s`.
pub open spec fn aim_action(s: BallState, event: PointerEvent) -> AimAction {
    if s != BallState::Aiming {
        AimAction::Ignore
    } else {
        match event {
            PointerEvent::Motion => AimAction::MoveAim,
            PointerEvent::Button { left } => if left {
                AimAction::Launch
            } else {
                AimAction::Ignore
            },
            PointerEvent::Other => AimAction::Ignore,
        }
    }
}

impl<D: Copy> Ball<D> {
    /// A frozen ball at rest, with nothing kept and no pending effect.
    pub fn new() -> (b: Ball<D>)
        ensures
            b@.state == BallState::Frozen,
            b@.direction_cache == None::<D>,
            b@.heading == None::<D>,
            b@.effects == Seq::<BallEffect<D>>::empty(),
    {
        Ball { state: BallState::Frozen, direction_cache: None, heading: None, effects: Vec::new() }
    }

    /// Records how the body moves now: its unit direction, or `None` at rest.
    pub fn observe_heading(&mut self, heading: Option<D>)
        ensures
            final(self)@ == (BallView { heading, ..old(self)@ }),
    {
        self.heading = heading;
    }

    /// Decides what a pointer input does: only an aiming ball listens; motion
    /// turns the aim and the left button launches.
    pub fn input(&self, event: PointerEvent) -> (action: AimAction)
        ensures
            action == aim_action(self@.state, event),
    {
        match self.state {
            BallState::Aiming => match event {
                PointerEvent::Motion => AimAction::MoveAim,
                PointerEvent::Button { left } => if left {
                    AimAction::Launch
                } else {
                    AimAction::Ignore
                },
                PointerEvent::Other => AimAction::Ignore,
            },
            _ => AimAction::Ignore,
        }
    }

    /// Whether the physics step holds the ball at its speed: only in flight.
    pub fn regulates_speed(&self) -> (r: bool)
        ensures
            r == (self@.state == BallState::Active),
    {
        match self.state {
            BallState::Active => true,
            _ => false,
        }
    }

    /// Whether the arrow follows the aim each frame: only while aiming.
    pub fn shows_aim(&self) -> (r: bool)
        ensures
            r == (self@.state == BallState::Aiming),
    {
        match self.state {
            BallState::Aiming => true,
            _ => false,
        }
    }

    /// The ball was launched: it takes flight.
    pub fn on_ball_launch(&mut self)
        ensures
            final(self)@ == transitioned::<Ball<D>>(old(self)@, BallState::Active),
    {
        self.transition_to(BallState::Active);
    }

    /// The ball left the screen: it freezes, then emits `ball_out_screen`.
    pub fn on_screen_exited(&mut self)
        ensures
            ({
                let t = transitioned::<Ball<D>>(old(self)@, BallState::Frozen);
                final(self)@ == BallView {
                    effects: t.effects.push(BallEffect::EmitBallOutScreen),
                    ..t
                }
            }),
    {
        self.transition_to(BallState::Frozen);
        self.effects.push(BallEffect::EmitBallOutScreen);
    }

    /// Where the ball waits while the player aims.
    pub fn aiming_position() -> (p: Point)
        ensures
            p == (Point { x: 64000, y: 68000 }),
    {
        Point { x: 64000, y: 68000 }
    }

    /// Hands out the pending effects, oldest first, and forgets them.
    pub fn take_effects(&mut self) -> (effects: Vec<BallEffect<D>>)
        ensures
            effects@ == old(self)@.effects,
            final(self)@ == (BallView { effects: Seq::<BallEffect<D>>::empty(), ..old(self)@ }),
    {
        let mut effects = Vec::new();
        std::mem::swap(&mut effects, &mut self.effects);
        effects
    }
}

impl<D: Copy> Stateful for Ball<D> {
    type S = BallState;

    open spec fn state_of(v: BallView<D>) -> BallState {
        v.state
    }

    open spec fn with_state(v: BallView<D>, new_state: BallState) -> BallView<D> {
        BallView { state: new_state, ..v }
    }

    open spec fn after_exit(v: BallView<D>) -> BallView<D> {
        match v.state {
            BallState::Frozen => v,
            BallState::Aiming => BallView { effects: v.effects.push(BallEffect::HideArrow), ..v },
            BallState::Active => match v.heading {
                None => v,
                Some(d) => BallView {
                    direction_cache: Some(d),
                    effects: v.effects.push(BallEffect::StopDeferred),
                    ..v
                },
            },
        }
    }

    open spec fn after_enter(v: BallView<D>) -> BallView<D> {
        match v.state {
            BallState::Frozen => BallView {
                effects: v.effects.push(BallEffect::FreezeDeferred),
                ..v
            },
            BallState::Aiming => BallView {
                direction_cache: None,
                effects: v.effects.push(BallEffect::ShowArrow),
                ..v
            },
            BallState::Active => BallView {
                direction_cache: None,
                effects: v.effects.push(launch_effect(v.direction_cache)).push(BallEffect::Release),
                ..v
            },
        }
    }

    fn state(&self) -> (s: BallState) {
        self.state
    }

    fn set_state(&mut self, new_state: BallState) {
        self.state = new_state;
    }

    fn on_state_enter(&mut self) {
        match self.state {
            BallState::Frozen => {
                self.effects.push(BallEffect::FreezeDeferred);
            },
            BallState::Aiming => {
                self.direction_cache = None;
                self.effects.push(BallEffect::ShowArrow);
            },
            BallState::Active => {
                let direction_cache = self.direction_cache.take();
                match direction_cache {
                    Some(direction) => {
                        self.effects.push(BallEffect::LaunchAlong(direction));
                    },
                    None => {
                        self.effects.push(BallEffect::LaunchFromAim);
                    },
                }
                self.effects.push(BallEffect::Release);
            },
        }
    }

    fn on_state_exit(&mut self) {
        match self.state {
            BallState::Frozen => {},
            BallState::Aiming => {
                self.effects.push(BallEffect::HideArrow);
            },
            BallState::Active => {
                match self.heading {
                    None => {},
                    Some(direction) => {
                        self.direction_cache = Some(direction);
                        self.effects.push(BallEffect::StopDeferred);
                    },
                }
            },
        }
    }
}

/// A ball stopped in flight and later sent off again goes on in the direction
/// it had when it stopped, whatever the engine reports in between.
pub proof fn lemma_stop_and_go_keeps_direction<D: Copy>(
    v: BallView<D>,
    d: D,
    later_heading: Option<D>,
)
    requires
        v.state == BallState::Active,
        v.heading == Some(d),
    ensures
        ({
            let stopped = transitioned::<Ball<D>>(v, BallState::Frozen);
            let resumed = transitioned::<Ball<D>>(
                BallView { heading: later_heading, ..stopped },
                BallState::Active,
            );
            &&& resumed.state == BallState::Active
            &&& resumed.direction_cache == None::<D>
            &&& resumed.effects == v.effects + seq![
                BallEffect::StopDeferred,
                BallEffect::FreezeDeferred,
                BallEffect::LaunchAlong(d),
                BallEffect::Release,
            ]
        }),
{
    let stopped = transitioned::<Ball<D>>(v, BallState::Frozen);
    let resumed = transitioned::<Ball<D>>(
        BallView { heading: later_heading, ..stopped },
        BallState::Active,
    );
    assert(resumed.effects =~= v.effects + seq![
        BallEffect::StopDeferred,
        BallEffect::FreezeDeferred,
        BallEffect::LaunchAlong(d),
        BallEffect::Release,
    ]);
}

/// Aiming anew forgets any kept direction: a ball that enters aiming from
/// another phase is then launched along the aim.
pub proof fn lemma_aiming_forgets_direction<D: Copy>(v: BallView<D>, later_heading: Option<D>)
    requires
        v.state != BallState::Aiming,
    ensures
        ({
            let aiming = transitioned::<Ball<D>>(v, BallState::Aiming);
            let launched = transitioned::<Ball<D>>(
                BallView { heading: later_heading, ..aiming },
                BallState::Active,
            );
            &&& aiming.direction_cache == None::<D>
            &&& launched.effects == aiming.effects + seq![
                BallEffect::HideArrow,
                BallEffect::LaunchFromAim,
                BallEffect::Release,
            ]
        }),
{
    let aiming = transitioned::<Ball<D>>(v, BallState::Aiming);
    let launched = transitioned::<Ball<D>>(
        BallView { heading: later_heading, ..aiming },
        BallState::Active,
    );
    assert(launched.effects =~= aiming.effects + seq![
        BallEffect::HideArrow,
        BallEffect::LaunchFromAim,
        BallEffect::Release,
    ]);
}

/// Only an aiming ball reacts to pointer input: pointer motion turns the aim,
/// the left button launches, and nothing else does anything. A ball that is
/// frozen or in flight ignores every input.
pub proof fn lemma_only_aiming_ball_listens(s: BallState, event: PointerEvent)
    ensures
        s != BallState::Aiming ==> aim_action(s, event) == AimAction::Ignore,
        aim_action(s, event) == AimAction::Launch <==> (s == BallState::Aiming && event
            == PointerEvent::Button { left: true }),
        aim_action(s, event) == AimAction::MoveAim <==> (s == BallState::Aiming && event
            == PointerEvent::Motion),
{
}

/// What entering each phase does, whatever direction is kept and whatever the
/// engine reported: freezing asks to freeze the body; aiming forgets the kept
/// direction and always shows the arrow; flying launches along the kept
/// direction if there is one, else along the aim, forgets it and releases
/// the body. The phase and the reported heading never change.
pub proof fn lemma_enter_effects_of_each_phase<D: Copy>(v: BallView<D>)
    ensures
        Ball::<D>::after_enter(v).state == v.state,
        Ball::<D>::after_enter(v).heading == v.heading,
        v.state == BallState::Frozen ==> Ball::<D>::after_enter(v) == (BallView {
            effects: v.effects.push(BallEffect::FreezeDeferred),
            ..v
        }),
        v.state == BallState::Aiming ==> Ball::<D>::after_enter(v) == (BallView {
            direction_cache: None,
            effects: v.effects.push(BallEffect::ShowArrow),
            ..v
        }),
        v.state == BallState::Active ==> Ball::<D>::after_enter(v) == (BallView {
            direction_cache: None,
            effects: v.effects.push(
                match v.direction_cache {
                    Some(d) => BallEffect::LaunchAlong(d),
                    None => BallEffect::LaunchFromAim,
                },
            ).push(BallEffect::Release),
            ..v
        }),
{
}

/// What leaving each phase does: leaving the frozen phase changes nothing;
/// leaving aiming hides the arrow; leaving flight while moving keeps the
/// direction and asks to stop, and leaving it at rest changes nothing.
pub proof fn lemma_exit_effects_of_each_phase<D: Copy>(v: BallView<D>)
    ensures
        v.state == BallState::Frozen ==> Ball::<D>::after_exit(v) == v,
        v.state == BallState::Aiming ==> Ball::<D>::after_exit(v) == (BallView {
            effects: v.effects.push(BallEffect::HideArrow),
            ..v
        }),
        v.state == BallState::Active && (v.heading is None) ==> Ball::<D>::after_exit(v) == v,
        v.state == BallState::Active && (v.heading is Some) ==> Ball::<D>::after_exit(v)
            == (BallView {
            direction_cache: v.heading,
            effects: v.effects.push(BallEffect::StopDeferred),
            ..v
        }),
{
}

/// Every aiming phase shows the arrow, however the ball came to rest before:
/// moving into aiming from another phase ends with the arrow shown and no
/// direction kept.
pub proof fn lemma_aiming_always_shows_arrow<D: Copy>(v: BallView<D>)
    requires
        v.state != BallState::Aiming,
    ensures
        ({
            let t = transitioned::<Ball<D>>(v, BallState::Aiming);
            &&& t.state == BallState::Aiming
            &&& t.direction_cache == None::<D>
            &&& t.effects.len() > v.effects.len()
            &&& t.effects.last() == BallEffect::<D>::ShowArrow
        }),
{
}

/// Writing the phase changes the phase and nothing else.
pub proof fn lemma_with_state_writes_phase_only<D: Copy>(v: BallView<D>, s: BallState)
    ensures
        Ball::<D>::with_state(v, s) == (BallView { state: s, ..v }),
        Ball::<D>::state_of(v) == v.state,
{
}

} // verus!
