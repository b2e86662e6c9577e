use vstd::prelude::*;

use crate::ball::BallState;
use crate::paddle::PaddleState;
use crate::state::{transitioned, State, Stateful};
use crate::ui::UIState;
use vstd::std_specs::cmp::PartialEqSpecImpl;

verus! {

/// The phases of a game.
#[derive(Clone, Copy, Debug)]
pub enum GameState {
    Title,
    Aiming,
    Playing,
    Paused,
    Victory,
    GameOver,
}

impl PartialEq for GameState {
    fn eq(&self, other: &Self) -> (r: bool) {
        match (self, other) {
            (GameState::Title, GameState::Title) => true,
            (GameState::Aiming, GameState::Aiming) => true,
            (GameState::Playing, GameState::Playing) => true,
            (GameState::Paused, GameState::Paused) => true,
            (GameState::Victory, GameState::Victory) => true,
            (GameState::GameOver, GameState::GameOver) => true,
            _ => false,
        }
    }
}

impl PartialEqSpecImpl for GameState {
    open spec fn obeys_eq_spec() -> bool {
        true
    }

    open spec fn eq_spec(&self, other: &Self) -> bool {
        *self == *other
    }
}

impl Eq for GameState {}

impl Default for GameState {
    fn default() -> (s: Self)
        ensures
            s == GameState::Title,
    {
        GameState::Title
    }
}

impl State for GameState {
    proof fn lemma_eq_is_identity() {
        reveal(vstd::laws_eq::obeys_concrete_eq);
    }
}

/// What the engine must do for the game after a hook or handler has run.
#[derive(Clone, Copy, Debug, PartialEq, Eq)]
pub enum MainEffect {
    /// Move the paddle to this state.
    PaddleTo(PaddleState),
    /// Move the ball to this state.
    BallTo(BallState),
    /// Move the overlay to this screen.
    UiTo(UIState),
    ShowUi,
    HideUi,
    /// Hide the pointer and keep it in the window.
    CaptureMouse,
    /// Show the pointer again.
    ReleaseMouse,
    /// Put the paddle where it waits while the ball is aimed.
    PaddleToAimingPosition,
    /// Put the ball where it waits while it is aimed.
    BallToAimingPosition,
    /// Remove every brick.
    ClearBricks,
    /// Lay out a new wall of bricks.
    GenerateBricks,
    ShowBricks,
}

/// Whether the game returns to `s` when it is resumed after a pause.
pub open spec fn resumable(s: GameState) -> bool {
    s == GameState::Aiming || s == GameState::Playing
}

/// Effects of the entry hook of `s`.
pub open spec fn main_enter_effects(s: GameState) -> Seq<MainEffect> {
    match s {
        GameState::Title => seq![
            MainEffect::PaddleTo(PaddleState::Frozen),
            MainEffect::BallTo(BallState::Frozen),
            MainEffect::UiTo(UIState::Title),
            MainEffect::ShowUi,
        ],
        GameState::Aiming => seq![
            MainEffect::CaptureMouse,
            MainEffect::PaddleTo(PaddleState::Frozen),
            MainEffect::BallTo(BallState::Aiming),
            MainEffect::PaddleToAimingPosition,
            MainEffect::BallToAimingPosition,
            MainEffect::ClearBricks,
            MainEffect::GenerateBricks,
            MainEffect::ShowBricks,
            MainEffect::HideUi,
        ],
        GameState::Playing => seq![
            MainEffect::CaptureMouse,
            MainEffect::PaddleTo(PaddleState::Active),
            MainEffect::BallTo(BallState::Active),
            MainEffect::HideUi,
        ],
        GameState::Paused => seq![
            MainEffect::PaddleTo(PaddleState::Frozen),
            MainEffect::BallTo(BallState::Frozen),
            MainEffect::UiTo(UIState::Paused),
            MainEffect::ShowUi,
        ],
        GameState::Victory => seq![
            MainEffect::PaddleTo(PaddleState::Frozen),
            MainEffect::BallTo(BallState::Frozen),
            MainEffect::UiTo(UIState::Victory),
            MainEffect::ShowUi,
        ],
        GameState::GameOver => seq![
            MainEffect::PaddleTo(PaddleState::Frozen),
            MainEffect::BallTo(BallState::Frozen),
            MainEffect::UiTo(UIState::GameOver),
            MainEffect::ShowUi,
        ],
    }
}

/// Effects of the exit hook of `s`.
pub open spec fn main_exit_effects(s: GameState) -> Seq<MainEffect> {
    if resumable(s) {
        seq![MainEffect::ReleaseMouse]
    } else {
        seq![]
    }
}

/// The game as its contracts see it.
pub struct MainView {
    pub state: GameState,
    /// The phase that a pause interrupted, to which resuming returns.
    pub paused_cache: Option<GameState>,
    /// Effects requested and not yet taken, oldest first.
    pub effects: Seq<MainEffect>,
}

impl MainView {
    /// The kept phase, if any, is one that can be resumed.
    pub open spec fn wf(self) -> bool {
        match self.paused_cache {
            Some(s) => resumable(s),
            None => true,
        }
    }
}

/// The view after the pause action was or was not pressed.
pub open spec fn after_pause_input(v: MainView, pause_pressed: bool) -> MainView {
    if resumable(v.state) && pause_pressed {
        transitioned::<Main>(MainView { paused_cache: Some(v.state), ..v }, GameState::Paused)
    } else {
        v
    }
}

/// The view after the overlay asked to resume.
pub open spec fn after_resume(v: MainView) -> MainView {
    match v.paused_cache {
        Some(last) => transitioned::<Main>(v, last),
        None => v,
    }
}

/// The decisions of the game as a whole.
pub struct Main {
    state: GameState,
    paused_cache: Option<GameState>,
    effects: Vec<MainEffect>,
}

impl View for Main {
    type V = MainView;

    closed spec fn view(&self) -> MainView {
        MainView { state: self.state, paused_cache: self.paused_cache, effects: self.effects@ }
    }
}

impl Main {
    /// A game on its title screen, with nothing kept and no pending effect.
    pub fn new() -> (m: Main)
        ensures
            m@.state == GameState::Title,
            m@.paused_cache == None::<GameState>,
            m@.effects == Seq::<MainEffect>::empty(),
            m@.wf(),
    {
        Main { state: GameState::Title, paused_cache: None, effects: Vec::new() }
    }

    /// Input that no control used: the pause action, pressed while aiming or
    /// playing, keeps the current phase and pauses.
    pub fn unhandled_input(&mut self, pause_pressed: bool)
        ensures
            final(self)@ == after_pause_input(old(self)@, pause_pressed),
    {
        let resumable_now = match self.state {
            GameState::Playing => true,
            GameState::Aiming => true,
            _ => false,
        };
        if resumable_now && pause_pressed {
            self.paused_cache = Some(self.state);
            self.transition_to(GameState::Paused);
        }
    }

    /// The overlay asked for a new game: aim a new ball.
    pub fn on_ui_start_game(&mut self)
        ensures
            final(self)@ == transitioned::<Main>(old(self)@, GameState::Aiming),
    {
        self.transition_to(GameState::Aiming);
    }

    /// The overlay asked to resume: return to the phase the last pause
    /// interrupted, if there was one.
    pub fn on_ui_resume_game(&mut self)
        ensures
            final(self)@ == after_resume(old(self)@),
    {
        if let Some(last_state) = self.paused_cache {
            self.transition_to(last_state);
        }
    }

    /// The ball was launched: play.
    pub fn on_ball_launch(&mut self)
        ensures
            final(self)@ == transitioned::<Main>(old(self)@, GameState::Playing),
    {
        self.transition_to(GameState::Playing);
    }

    /// The ball left the screen: the game is lost.
    pub fn on_ball_out_screen(&mut self)
        ensures
            final(self)@ == transitioned::<Main>(old(self)@, GameState::GameOver),
    {
        self.transition_to(GameState::GameOver);
    }

    /// The last brick fell: the game is won.
    pub fn on_bricks_cleared(&mut self)
        ensures
            final(self)@ == transitioned::<Main>(old(self)@, GameState::Victory),
    {
        self.transition_to(GameState::Victory);
    }

    /// Hands out the pending effects, oldest first, and forgets them.
    pub fn take_effects(&mut self) -> (effects: Vec<MainEffect>)
        ensures
            effects@ == old(self)@.effects,
            final(self)@ == (MainView { effects: Seq::<MainEffect>::empty(), ..old(self)@ }),
    {
        let mut effects = Vec::new();
        std::mem::swap(&mut effects, &mut self.effects);
        effects
    }
}

impl Stateful for Main {
    type S = GameState;

    open spec fn state_of(v: MainView) -> GameState {
        v.state
    }

    open spec fn with_state(v: MainView, new_state: GameState) -> MainView {
        MainView { state: new_state, ..v }
    }

    open spec fn after_exit(v: MainView) -> MainView {
        MainView { effects: v.effects + main_exit_effects(v.state), ..v }
    }

    open spec fn after_enter(v: MainView) -> MainView {
        MainView { effects: v.effects + main_enter_effects(v.state), ..v }
    }

    fn state(&self) -> (s: GameState) {
        self.state
    }

    fn set_state(&mut self, new_state: GameState) {
        self.state = new_state;
    }

    fn on_state_enter(&mut self) {
        match self.state {
            GameState::Title => {
                self.effects.push(MainEffect::PaddleTo(PaddleState::Frozen));
                self.effects.push(MainEffect::BallTo(BallState::Frozen));
                self.effects.push(MainEffect::UiTo(UIState::Title));
                self.effects.push(MainEffect::ShowUi);
            },
            GameState::Aiming => {
                self.effects.push(MainEffect::CaptureMouse);
                self.effects.push(MainEffect::PaddleTo(PaddleState::Frozen));
                self.effects.push(MainEffect::BallTo(BallState::Aiming));
                self.effects.push(MainEffect::PaddleToAimingPosition);
                self.effects.push(MainEffect::BallToAimingPosition);
                self.effects.push(MainEffect::ClearBricks);
                self.effects.push(MainEffect::GenerateBricks);
                self.effects.push(MainEffect::ShowBricks);
                self.effects.push(MainEffect::HideUi);
            },
            GameState::Playing => {
                self.effects.push(MainEffect::CaptureMouse);
                self.effects.push(MainEffect::PaddleTo(PaddleState::Active));
                self.effects.push(MainEffect::BallTo(BallState::Active));
                self.effects.push(MainEffect::HideUi);
            },
            GameState::Paused => {
                self.effects.push(MainEffect::PaddleTo(PaddleState::Frozen));
                self.effects.push(MainEffect::BallTo(BallState::Frozen));
                self.effects.push(MainEffect::UiTo(UIState::Paused));
                self.effects.push(MainEffect::ShowUi);
            },
            GameState::Victory => {
                self.effects.push(MainEffect::PaddleTo(PaddleState::Frozen));
                self.effects.push(MainEffect::BallTo(BallState::Frozen));
                self.effects.push(MainEffect::UiTo(UIState::Victory));
                self.effects.push(MainEffect::ShowUi);
            },
            GameState::GameOver => {
                self.effects.push(MainEffect::PaddleTo(PaddleState::Frozen));
                self.effects.push(MainEffect::BallTo(BallState::Frozen));
                self.effects.push(MainEffect::UiTo(UIState::GameOver));
                self.effects.push(MainEffect::ShowUi);
            },
        }
        assert(self.effects@ =~= old(self).effects@ + main_enter_effects(self.state));
    }

    fn on_state_exit(&mut self) {
        match self.state {
            GameState::Title => {},
            GameState::Aiming => {
                self.effects.push(MainEffect::ReleaseMouse);
            },
            GameState::Playing => {
                self.effects.push(MainEffect::ReleaseMouse);
            },
            GameState::Paused => {},
            GameState::Victory => {},
            GameState::GameOver => {},
        }
        assert(self.effects@ =~= old(self).effects@ + main_exit_effects(self.state));
    }
}

/// Pausing while aiming or playing and then resuming brings the game back to
/// the phase it was in. On the way, the phase is left (showing the pointer),
/// the pause screen is entered, and the phase is entered again.
pub proof fn lemma_pause_then_resume_returns(v: MainView)
    requires
        resumable(v.state),
    ensures
        ({
            let paused = after_pause_input(v, true);
            let resumed = after_resume(paused);
            &&& paused.state == GameState::Paused
            &&& resumed.state == v.state
            &&& resumed.paused_cache == Some(v.state)
            &&& resumed.effects == v.effects + main_exit_effects(v.state) + main_enter_effects(
                GameState::Paused,
            ) + main_exit_effects(GameState::Paused) + main_enter_effects(v.state)
        }),
{
}

/// Every handler keeps the phase that a pause interrupted a resumable one.
pub proof fn lemma_handlers_keep_cache_resumable(v: MainView, pause_pressed: bool, s: GameState)
    requires
        v.wf(),
    ensures
        after_pause_input(v, pause_pressed).wf(),
        after_resume(v).wf(),
        transitioned::<Main>(v, s).wf(),
{
}

/// The paddle and the ball are set in motion by entering the playing phase
/// and by no other, and every phase but aiming and playing freezes both.
pub proof fn lemma_only_play_moves_pieces(s: GameState)
    ensures
        main_enter_effects(s).contains(MainEffect::BallTo(BallState::Active)) <==> s
            == GameState::Playing,
        main_enter_effects(s).contains(MainEffect::PaddleTo(PaddleState::Active)) <==> s
            == GameState::Playing,
        !resumable(s) ==> main_enter_effects(s).contains(MainEffect::BallTo(BallState::Frozen))
            && main_enter_effects(s).contains(MainEffect::PaddleTo(PaddleState::Frozen)),
{
    let e = main_enter_effects(s);
    if s == GameState::Playing {
        assert(e[1] == MainEffect::PaddleTo(PaddleState::Active));
        assert(e[2] == MainEffect::BallTo(BallState::Active));
    } else {
        assert forall|i: int| 0 <= i < e.len() implies e[i] != MainEffect::BallTo(BallState::Active)
            && e[i] != MainEffect::PaddleTo(PaddleState::Active) by {}
        if !resumable(s) {
            assert(e[0] == MainEffect::PaddleTo(PaddleState::Frozen));
            assert(e[1] == MainEffect::BallTo(BallState::Frozen));
        }
    }
}

/// Entering a phase only appends to the effect queue, and what it appends
/// depends on the phase alone: neither the kept phase nor the effects already
/// queued change it. The same holds of leaving a phase.
pub proof fn lemma_hooks_depend_on_phase_alone(v: MainView, w: MainView)
    requires
        v.state == w.state,
    ensures
        Main::after_enter(v).state == v.state,
        Main::after_enter(v).paused_cache == v.paused_cache,
        Main::after_enter(v).effects.len() >= v.effects.len(),
        Main::after_enter(v).effects.take(v.effects.len() as int) == v.effects,
        Main::after_enter(v).effects.skip(v.effects.len() as int) == Main::after_enter(w).effects.skip(
            w.effects.len() as int,
        ),
        Main::after_exit(v).state == v.state,
        Main::after_exit(v).paused_cache == v.paused_cache,
        Main::after_exit(v).effects.len() >= v.effects.len(),
        Main::after_exit(v).effects.take(v.effects.len() as int) == v.effects,
        Main::after_exit(v).effects.skip(v.effects.len() as int) == Main::after_exit(w).effects.skip(
            w.effects.len() as int,
        ),
{
    assert(Main::after_enter(v).effects.take(v.effects.len() as int) =~= v.effects);
    assert(Main::after_enter(v).effects.skip(v.effects.len() as int) =~= Main::after_enter(
        w,
    ).effects.skip(w.effects.len() as int));
    assert(Main::after_exit(v).effects.take(v.effects.len() as int) =~= v.effects);
    assert(Main::after_exit(v).effects.skip(v.effects.len() as int) =~= Main::after_exit(
        w,
    ).effects.skip(w.effects.len() as int));
}

/// What entering each phase asks of the engine, whatever else the game holds.
/// Entering aiming always removes the old wall and lays a new one, after
/// placing the pieces and before showing the wall; every screen with an
/// overlay freezes both pieces, switches the overlay and shows it.
pub proof fn lemma_enter_effects_of_each_phase(v: MainView)
    ensures
        Main::after_enter(v).state == v.state,
        Main::after_enter(v).paused_cache == v.paused_cache,
        v.state == GameState::Title ==> Main::after_enter(v).effects == v.effects + seq![
            MainEffect::PaddleTo(PaddleState::Frozen),
            MainEffect::BallTo(BallState::Frozen),
            MainEffect::UiTo(UIState::Title),
            MainEffect::ShowUi,
        ],
        v.state == GameState::Aiming ==> Main::after_enter(v).effects == v.effects + seq![
            MainEffect::CaptureMouse,
            MainEffect::PaddleTo(PaddleState::Frozen),
            MainEffect::BallTo(BallState::Aiming),
            MainEffect::PaddleToAimingPosition,
            MainEffect::BallToAimingPosition,
            MainEffect::ClearBricks,
            MainEffect::GenerateBricks,
            MainEffect::ShowBricks,
            MainEffect::HideUi,
        ],
        v.state == GameState::Playing ==> Main::after_enter(v).effects == v.effects + seq![
            MainEffect::CaptureMouse,
            MainEffect::PaddleTo(PaddleState::Active),
            MainEffect::BallTo(BallState::Active),
            MainEffect::HideUi,
        ],
        v.state == GameState::Paused ==> Main::after_enter(v).effects == v.effects + seq![
            MainEffect::PaddleTo(PaddleState::Frozen),
            MainEffect::BallTo(BallState::Frozen),
            MainEffect::UiTo(UIState::Paused),
            MainEffect::ShowUi,
        ],
        v.state == GameState::Victory ==> Main::after_enter(v).effects == v.effects + seq![
            MainEffect::PaddleTo(PaddleState::Frozen),
            MainEffect::BallTo(BallState::Frozen),
            MainEffect::UiTo(UIState::Victory),
            MainEffect::ShowUi,
        ],
        v.state == GameState::GameOver ==> Main::after_enter(v).effects == v.effects + seq![
            MainEffect::PaddleTo(PaddleState::Frozen),
            MainEffect::BallTo(BallState::Frozen),
            MainEffect::UiTo(UIState::GameOver),
            MainEffect::ShowUi,
        ],
{
}

/// Leaving aiming or playing shows the pointer again; leaving any other phase
/// asks nothing of the engine and changes nothing.
pub proof fn lemma_exit_effects_of_each_phase(v: MainView)
    ensures
        (v.state == GameState::Aiming || v.state == GameState::Playing) ==> Main::after_exit(v)
            == (MainView { effects: v.effects.push(MainEffect::ReleaseMouse), ..v }),
        !(v.state == GameState::Aiming || v.state == GameState::Playing) ==> Main::after_exit(v)
            == v,
{
    assert(v.effects + seq![MainEffect::ReleaseMouse] =~= v.effects.push(MainEffect::ReleaseMouse));
    assert(v.effects + Seq::<MainEffect>::empty() =~= v.effects);
}

/// The pause action acts only when pressed while aiming or playing. Then the
/// game keeps that phase, shows the pointer, freezes both pieces and shows
/// the pause screen; pressed in any other phase, or not pressed, it changes
/// nothing at all.
pub proof fn lemma_pause_only_while_aiming_or_playing(v: MainView, pause_pressed: bool)
    ensures
        resumable(v.state) <==> (v.state == GameState::Aiming || v.state == GameState::Playing),
        !pause_pressed ==> after_pause_input(v, pause_pressed) == v,
        !(v.state == GameState::Aiming || v.state == GameState::Playing) ==> after_pause_input(
            v,
            pause_pressed,
        ) == v,
        pause_pressed && (v.state == GameState::Aiming || v.state == GameState::Playing) ==> ({
            let r = after_pause_input(v, pause_pressed);
            &&& r.state == GameState::Paused
            &&& r.paused_cache == Some(v.state)
            &&& r.effects == v.effects + seq![
                MainEffect::ReleaseMouse,
                MainEffect::PaddleTo(PaddleState::Frozen),
                MainEffect::BallTo(BallState::Frozen),
                MainEffect::UiTo(UIState::Paused),
                MainEffect::ShowUi,
            ]
        }),
{
    lemma_exit_effects_of_each_phase(MainView { paused_cache: Some(v.state), ..v });
}

/// Resuming with nothing kept changes nothing; otherwise it moves the game to
/// the kept phase and keeps it for the next resume.
pub proof fn lemma_resume_goes_to_kept_phase(v: MainView)
    ensures
        (v.paused_cache is None) ==> after_resume(v) == v,
        (v.paused_cache is Some) ==> after_resume(v).state == v.paused_cache->0
            && after_resume(v).paused_cache == v.paused_cache,
{
}

/// Writing the phase changes the phase and nothing else.
pub proof fn lemma_with_state_writes_phase_only(v: MainView, s: GameState)
    ensures
        Main::with_state(v, s) == (MainView { state: s, ..v }),
        Main::state_of(v) == v.state,
{
}

/// Resuming a pause moves the game from the pause screen to the kept phase:
/// the pause screen is left (asking nothing of the engine) and the kept
/// phase entered, with nothing else changed.
pub proof fn lemma_resume_from_pause_enters_kept_phase(v: MainView, s: GameState)
    requires
        v.state == GameState::Paused,
        v.paused_cache == Some(s),
        s == GameState::Aiming || s == GameState::Playing,
    ensures
        after_resume(v) == Main::after_enter(MainView { state: s, ..v }),
{
    lemma_exit_effects_of_each_phase(v);
}

} // verus!
