use vstd::prelude::*;

use crate::state::{State, Stateful};
use vstd::std_specs::cmp::PartialEqSpecImpl;

verus! {

/// The screens of the menu overlay.
#[derive(Clone, Copy, Debug, Hash)]
pub enum UIState {
    Title,
    Paused,
    Victory,
    GameOver,
}

impl PartialEq for UIState {
    fn eq(&self, other: &Self) -> (r: bool) {
        match (self, other) {
            (UIState::Title, UIState::Title) => true,
            (UIState::Paused, UIState::Paused) => true,
            (UIState::Victory, UIState::Victory) => true,
            (UIState::GameOver, UIState::GameOver) => true,
            _ => false,
        }
    }
}

impl PartialEqSpecImpl for UIState {
    open spec fn obeys_eq_spec() -> bool {
        true
    }

    open spec fn eq_spec(&self, other: &Self) -> bool {
        *self == *other
    }
}

impl Eq for UIState {}

impl Default for UIState {
    fn default() -> (s: Self)
        ensures
            s == UIState::Title,
    {
        UIState::Title
    }
}

impl State for UIState {
    proof fn lemma_eq_is_identity() {
        reveal(vstd::laws_eq::obeys_concrete_eq);
    }
}

/// The texts of one screen: the heading and the caption of its button.
#[derive(Clone, Copy, Debug, PartialEq, Eq)]
pub struct Content {
    pub label: &'static str,
    pub button: &'static str,
}

impl Content {
    /// The texts of a screen from its heading and its button caption.
    pub fn from(value: (&'static str, &'static str)) -> (c: Content)
        ensures
            c == (Content { label: value.0, button: value.1 }),
    {
        Content { label: value.0, button: value.1 }
    }
}

/// The texts shown on the screen `s`.
pub open spec fn content_of(s: UIState) -> Content {
    match s {
        UIState::Title => Content { label: "Pong", button: "Play" },
        UIState::Paused => Content { label: "Paused", button: "Resume" },
        UIState::Victory => Content { label: "Win", button: "Replay" },
        UIState::GameOver => Content { label: "Game Over", button: "Replay" },
    }
}

/// The signals that the overlay emits.
#[derive(Clone, Copy, Debug, PartialEq, Eq)]
pub enum UISignal {
    StartGame,
    ResumeGame,
}

/// What the engine must do for the overlay after a hook has run.
#[derive(Clone, Copy, Debug, PartialEq, Eq)]
pub enum UIEffect {
    /// Put these texts on the label and the button.
    ShowContent(Content),
}

/// The overlay as its contracts see it.
pub struct UIView {
    pub state: UIState,
    /// Effects requested and not yet taken, oldest first.
    pub effects: Seq<UIEffect>,
}

/// The decisions of the menu overlay.
pub struct UI {
    state: UIState,
    effects: Vec<UIEffect>,
}

impl View for UI {
    type V = UIView;

    closed spec fn view(&self) -> UIView {
        UIView { state: self.state, effects: self.effects@ }
    }
}

impl UI {
    /// An overlay on the title screen with no pending effect.
    pub fn new() -> (ui: UI)
        ensures
            ui@.state == UIState::Title,
            ui@.effects == Seq::<UIEffect>::empty(),
    {
        UI { state: UIState::Title, effects: Vec::new() }
    }

    /// The texts of each screen.
    pub fn contents(state: UIState) -> (c: Content)
        ensures
            c == content_of(state),
    {
        match state {
            UIState::Title => Content::from(("Pong", "Play")),
            UIState::Paused => Content::from(("Paused", "Resume")),
            UIState::Victory => Content::from(("Win", "Replay")),
            UIState::GameOver => Content::from(("Game Over", "Replay")),
        }
    }

    /// The button was released: the pause screen asks to resume, every other
    /// screen asks to start a game.
    pub fn on_button_up(&self) -> (signal: UISignal)
        ensures
            signal == (if self@.state == UIState::Paused {
                UISignal::ResumeGame
            } else {
                UISignal::StartGame
            }),
    {
        match self.state {
            UIState::Paused => UISignal::ResumeGame,
            _ => UISignal::StartGame,
        }
    }

    /// Hands out the pending effects, oldest first, and forgets them.
    pub fn take_effects(&mut self) -> (effects: Vec<UIEffect>)
        ensures
            effects@ == old(self)@.effects,
            final(self)@.state == old(self)@.state,
            final(self)@.effects == Seq::<UIEffect>::empty(),
    {
        let mut effects = Vec::new();
        std::mem::swap(&mut effects, &mut self.effects);
        effects
    }
}

impl Stateful for UI {
    type S = UIState;

    open spec fn state_of(v: UIView) -> UIState {
        v.state
    }

    open spec fn with_state(v: UIView, new_state: UIState) -> UIView {
        UIView { state: new_state, ..v }
    }

    open spec fn after_exit(v: UIView) -> UIView {
        v
    }

    open spec fn after_enter(v: UIView) -> UIView {
        UIView { effects: v.effects.push(UIEffect::ShowContent(content_of(v.state))), ..v }
    }

    fn state(&self) -> (s: UIState) {
        self.state
    }

    fn set_state(&mut self, new_state: UIState) {
        self.state = new_state;
    }

    fn on_state_enter(&mut self) {
        let content = UI::contents(self.state);
        self.effects.push(UIEffect::ShowContent(content));
    }

    fn on_state_exit(&mut self) {
    }
}

/// Entering any screen shows exactly its own texts, and leaving a screen
/// does nothing: the title reads "Pong" / "Play", the pause screen "Paused" /
/// "Resume", the win screen "Win" / "Replay" and the lost game "Game Over" /
/// "Replay".
pub proof fn lemma_each_screen_shows_its_texts(v: UIView)
    ensures
        UI::after_exit(v) == v,
        UI::after_enter(v).state == v.state,
        UI::after_enter(v).effects.len() == v.effects.len() + 1,
        UI::after_enter(v).effects.take(v.effects.len() as int) == v.effects,
        v.state == UIState::Title ==> UI::after_enter(v).effects.last() == UIEffect::ShowContent(
            Content { label: "Pong", button: "Play" },
        ),
        v.state == UIState::Paused ==> UI::after_enter(v).effects.last() == UIEffect::ShowContent(
            Content { label: "Paused", button: "Resume" },
        ),
        v.state == UIState::Victory ==> UI::after_enter(v).effects.last() == UIEffect::ShowContent(
            Content { label: "Win", button: "Replay" },
        ),
        v.state == UIState::GameOver ==> UI::after_enter(v).effects.last()
            == UIEffect::ShowContent(Content { label: "Game Over", button: "Replay" }),
{
    assert(UI::after_enter(v).effects.take(v.effects.len() as int) =~= v.effects);
}

/// Writing the screen changes the screen and nothing else.
pub proof fn lemma_with_state_writes_screen_only(v: UIView, s: UIState)
    ensures
        UI::with_state(v, s) == (UIView { state: s, ..v }),
        UI::state_of(v) == v.state,
{
}

} // verus!
