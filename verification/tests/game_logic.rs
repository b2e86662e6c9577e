use pong::ball::{AimAction, Ball, BallEffect, BallState, PointerEvent};
use pong::bricks::{Bricks, COLUMNS, ROWS};
use pong::geometry::Point;
use pong::paddle::{Paddle, PaddleEffect, PaddleState};
use pong::scene_main::{GameState, Main, MainEffect};
use pong::state::Stateful;
use pong::ui::{Content, UIEffect, UISignal, UIState, UI};

type Dir = (i32, i32);

#[test]
fn paddle_starts_frozen_and_toggles_physics() {
    let mut paddle = Paddle::new();
    assert_eq!(paddle.state(), PaddleState::Frozen);
    assert!(!paddle.is_active());
    paddle.on_state_enter();
    assert_eq!(paddle.take_effects(), vec![PaddleEffect::SetPhysicsProcess(false)]);
    paddle.transition_to(PaddleState::Active);
    assert!(paddle.is_active());
    assert_eq!(
        paddle.take_effects(),
        vec![PaddleEffect::SetPhysicsProcess(true), PaddleEffect::ResetOffset]
    );
    paddle.transition_to(PaddleState::Frozen);
    assert_eq!(paddle.take_effects(), vec![PaddleEffect::SetPhysicsProcess(false)]);
}

#[test]
fn transition_to_current_state_runs_no_hook() {
    let mut paddle = Paddle::new();
    paddle.transition_to(PaddleState::Frozen);
    assert!(paddle.take_effects().is_empty());
    let mut ui = UI::new();
    ui.transition_to(UIState::Title);
    assert!(ui.take_effects().is_empty());
    let mut ball: Ball<Dir> = Ball::new();
    ball.transition_to(BallState::Frozen);
    assert!(ball.take_effects().is_empty());
}

#[test]
fn set_state_reads_back() {
    let mut main = Main::new();
    main.set_state(GameState::Victory);
    assert_eq!(main.state(), GameState::Victory);
    assert!(main.take_effects().is_empty());
}

#[test]
fn aiming_positions() {
    assert_eq!(Paddle::aiming_position(), Point { x: 64000, y: 70000 });
    assert_eq!(Ball::<Dir>::aiming_position(), Point { x: 64000, y: 68000 });
}

#[test]
fn ball_listens_only_while_aiming() {
    let mut ball: Ball<Dir> = Ball::new();
    assert_eq!(ball.input(PointerEvent::Motion), AimAction::Ignore);
    assert_eq!(ball.input(PointerEvent::Button { left: true }), AimAction::Ignore);
    ball.transition_to(BallState::Aiming);
    assert_eq!(ball.take_effects(), vec![BallEffect::ShowArrow]);
    assert!(ball.shows_aim());
    assert!(!ball.regulates_speed());
    assert_eq!(ball.input(PointerEvent::Motion), AimAction::MoveAim);
    assert_eq!(ball.input(PointerEvent::Button { left: true }), AimAction::Launch);
    assert_eq!(ball.input(PointerEvent::Button { left: false }), AimAction::Ignore);
    assert_eq!(ball.input(PointerEvent::Other), AimAction::Ignore);
    ball.on_ball_launch();
    assert!(ball.regulates_speed());
    assert!(!ball.shows_aim());
    assert_eq!(ball.input(PointerEvent::Motion), AimAction::Ignore);
    assert_eq!(
        ball.take_effects(),
        vec![BallEffect::HideArrow, BallEffect::LaunchFromAim, BallEffect::Release]
    );
}

#[test]
fn ball_stopped_in_flight_resumes_its_direction() {
    let mut ball: Ball<Dir> = Ball::new();
    ball.transition_to(BallState::Aiming);
    ball.on_ball_launch();
    ball.take_effects();
    ball.observe_heading(Some((3, -4)));
    ball.transition_to(BallState::Frozen);
    assert_eq!(
        ball.take_effects(),
        vec![BallEffect::StopDeferred, BallEffect::FreezeDeferred]
    );
    ball.observe_heading(None);
    ball.transition_to(BallState::Active);
    assert_eq!(
        ball.take_effects(),
        vec![BallEffect::LaunchAlong((3, -4)), BallEffect::Release]
    );
}

#[test]
fn ball_stopped_at_rest_keeps_nothing() {
    let mut ball: Ball<Dir> = Ball::new();
    ball.transition_to(BallState::Active);
    ball.take_effects();
    ball.observe_heading(None);
    ball.transition_to(BallState::Frozen);
    assert_eq!(ball.take_effects(), vec![BallEffect::FreezeDeferred]);
    ball.transition_to(BallState::Active);
    assert_eq!(
        ball.take_effects(),
        vec![BallEffect::LaunchFromAim, BallEffect::Release]
    );
}

#[test]
fn aiming_again_forgets_the_direction() {
    let mut ball: Ball<Dir> = Ball::new();
    ball.transition_to(BallState::Active);
    ball.observe_heading(Some((1, 0)));
    ball.transition_to(BallState::Aiming);
    assert_eq!(
        ball.take_effects(),
        vec![BallEffect::LaunchFromAim, BallEffect::Release, BallEffect::StopDeferred, BallEffect::ShowArrow]
    );
    ball.transition_to(BallState::Active);
    assert_eq!(
        ball.take_effects(),
        vec![BallEffect::HideArrow, BallEffect::LaunchFromAim, BallEffect::Release]
    );
}

#[test]
fn ball_out_of_screen_freezes_then_signals() {
    let mut ball: Ball<Dir> = Ball::new();
    ball.transition_to(BallState::Active);
    ball.take_effects();
    ball.observe_heading(Some((0, 1)));
    ball.on_screen_exited();
    assert_eq!(ball.state(), BallState::Frozen);
    assert_eq!(
        ball.take_effects(),
        vec![BallEffect::StopDeferred, BallEffect::FreezeDeferred, BallEffect::EmitBallOutScreen]
    );
}

#[test]
fn ui_contents_per_screen() {
    assert_eq!(UI::contents(UIState::Title), Content { label: "Pong", button: "Play" });
    assert_eq!(UI::contents(UIState::Paused), Content { label: "Paused", button: "Resume" });
    assert_eq!(UI::contents(UIState::Victory), Content { label: "Win", button: "Replay" });
    assert_eq!(UI::contents(UIState::GameOver), Content { label: "Game Over", button: "Replay" });
    assert_eq!(Content::from(("a", "b")), Content { label: "a", button: "b" });
}

#[test]
fn ui_button_resumes_only_when_paused() {
    let mut ui = UI::new();
    assert_eq!(ui.on_button_up(), UISignal::StartGame);
    ui.transition_to(UIState::Paused);
    assert_eq!(ui.on_button_up(), UISignal::ResumeGame);
    assert_eq!(
        ui.take_effects(),
        vec![UIEffect::ShowContent(Content { label: "Paused", button: "Resume" })]
    );
    ui.transition_to(UIState::GameOver);
    assert_eq!(ui.on_button_up(), UISignal::StartGame);
    ui.transition_to(UIState::Victory);
    assert_eq!(ui.on_button_up(), UISignal::StartGame);
    assert_eq!(
        ui.take_effects(),
        vec![
            UIEffect::ShowContent(Content { label: "Game Over", button: "Replay" }),
            UIEffect::ShowContent(Content { label: "Win", button: "Replay" }),
        ]
    );
}

#[test]
fn wall_layout() {
    let mut bricks = Bricks::new();
    assert_eq!(bricks.count(), 0);
    let spots = bricks.generate();
    assert_eq!(spots.len(), (ROWS * COLUMNS) as usize);
    assert_eq!(spots.len(), 45);
    assert_eq!(bricks.count(), 45);
    assert_eq!(spots[0], Point { x: 5000, y: 2600 });
    assert_eq!(spots[1], Point { x: 13428, y: 2600 });
    assert_eq!(spots[15], Point { x: 5000, y: 6228 });
    assert_eq!(spots[44], Point { x: 122992, y: 9856 });
    assert_eq!(Bricks::brick_position(2, 14), Point { x: 122992, y: 9856 });
    for (k, spot) in spots.iter().enumerate() {
        assert_eq!(*spot, Bricks::brick_position((k / 15) as u32, (k % 15) as u32));
    }
}

#[test]
fn wall_clears_on_last_hit() {
    let mut bricks = Bricks::new();
    bricks.generate();
    for _ in 0..44 {
        assert!(!bricks.on_brick_hited());
    }
    assert!(bricks.on_brick_hited());
    assert_eq!(bricks.count(), 0);
    assert!(!bricks.on_brick_hited());
    assert_eq!(bricks.count(), -1);
}

#[test]
fn generate_resets_the_count() {
    let mut bricks = Bricks::new();
    bricks.generate();
    bricks.on_brick_hited();
    bricks.generate();
    assert_eq!(bricks.count(), 45);
}

fn frozen_with(ui: UIState) -> Vec<MainEffect> {
    vec![
        MainEffect::PaddleTo(PaddleState::Frozen),
        MainEffect::BallTo(BallState::Frozen),
        MainEffect::UiTo(ui),
        MainEffect::ShowUi,
    ]
}

fn aiming_effects() -> Vec<MainEffect> {
    vec![
        MainEffect::CaptureMouse,
        MainEffect::PaddleTo(PaddleState::Frozen),
        MainEffect::BallTo(BallState::Aiming),
        MainEffect::PaddleToAimingPosition,
        MainEffect::BallToAimingPosition,
        MainEffect::ClearBricks,
        MainEffect::GenerateBricks,
        MainEffect::ShowBricks,
        MainEffect::HideUi,
    ]
}

fn playing_effects() -> Vec<MainEffect> {
    vec![
        MainEffect::CaptureMouse,
        MainEffect::PaddleTo(PaddleState::Active),
        MainEffect::BallTo(BallState::Active),
        MainEffect::HideUi,
    ]
}

#[test]
fn main_title_then_aiming_then_playing() {
    let mut main = Main::new();
    main.on_state_enter();
    assert_eq!(main.take_effects(), frozen_with(UIState::Title));
    main.on_ui_start_game();
    assert_eq!(main.state(), GameState::Aiming);
    assert_eq!(main.take_effects(), aiming_effects());
    main.on_ball_launch();
    assert_eq!(main.state(), GameState::Playing);
    let mut expected = vec![MainEffect::ReleaseMouse];
    expected.extend(playing_effects());
    assert_eq!(main.take_effects(), expected);
}

#[test]
fn main_pause_and_resume_while_playing() {
    let mut main = Main::new();
    main.on_ui_start_game();
    main.on_ball_launch();
    main.take_effects();
    main.unhandled_input(false);
    assert_eq!(main.state(), GameState::Playing);
    assert!(main.take_effects().is_empty());
    main.unhandled_input(true);
    assert_eq!(main.state(), GameState::Paused);
    let mut expected = vec![MainEffect::ReleaseMouse];
    expected.extend(frozen_with(UIState::Paused));
    assert_eq!(main.take_effects(), expected);
    main.unhandled_input(true);
    assert!(main.take_effects().is_empty());
    main.on_ui_resume_game();
    assert_eq!(main.state(), GameState::Playing);
    assert_eq!(main.take_effects(), playing_effects());
}

#[test]
fn main_pause_and_resume_while_aiming_lays_a_new_wall() {
    let mut main = Main::new();
    main.on_ui_start_game();
    main.take_effects();
    main.unhandled_input(true);
    main.take_effects();
    main.on_ui_resume_game();
    assert_eq!(main.state(), GameState::Aiming);
    assert_eq!(main.take_effects(), aiming_effects());
}

#[test]
fn main_resume_without_pause_does_nothing() {
    let mut main = Main::new();
    main.on_ui_resume_game();
    assert_eq!(main.state(), GameState::Title);
    assert!(main.take_effects().is_empty());
}

#[test]
fn main_pause_ignored_outside_play() {
    let mut main = Main::new();
    main.unhandled_input(true);
    assert_eq!(main.state(), GameState::Title);
    main.on_ui_start_game();
    main.on_ball_launch();
    main.on_ball_out_screen();
    main.take_effects();
    main.unhandled_input(true);
    assert_eq!(main.state(), GameState::GameOver);
    assert!(main.take_effects().is_empty());
}

#[test]
fn main_game_over_and_victory() {
    let mut main = Main::new();
    main.on_ui_start_game();
    main.on_ball_launch();
    main.take_effects();
    main.on_ball_out_screen();
    let mut expected = vec![MainEffect::ReleaseMouse];
    expected.extend(frozen_with(UIState::GameOver));
    assert_eq!(main.take_effects(), expected);
    main.on_ui_start_game();
    main.on_ball_launch();
    main.take_effects();
    main.on_bricks_cleared();
    let mut expected = vec![MainEffect::ReleaseMouse];
    expected.extend(frozen_with(UIState::Victory));
    assert_eq!(main.take_effects(), expected);
}

#[test]
fn defaults_are_the_first_states() {
    assert_eq!(BallState::default(), BallState::Frozen);
    assert_eq!(PaddleState::default(), PaddleState::Frozen);
    assert_eq!(UIState::default(), UIState::Title);
    assert_eq!(GameState::default(), GameState::Title);
}
