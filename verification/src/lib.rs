//! The decisions of a brick-breaking game, kept apart from the engine that
//! draws it: state machines for the ball, the paddle, the wall of bricks, the
//! menu overlay and the game as a whole. Each hook or handler records the
//! effects the engine must carry out; the engine takes them and reports back
//! the few facts the decisions need.

pub mod ball;
pub mod bricks;
pub mod geometry;
pub mod paddle;
pub mod scene_main;
pub mod state;
pub mod ui;
