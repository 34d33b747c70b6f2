//! Simulation core of a two-paddle ball game.
//!
//! The crate advances the ball, resolves its collisions with walls and
//! paddles, predicts where it will reach the far wall, steers the player's
//! and the computer's paddle, scores, keeps the clock, and carries the whole
//! game over to a play area of another size. It draws nothing, plays no
//! sound and reads no device: a host hands in the seconds of each frame and
//! the player's axis, and takes positions and queued sound effects back.
//!
//! All numbers are fixed-point ([`fixed::Fixed`]), so a game replays to the
//! raw step on every machine, and every statement below is about exact
//! integers. The stages of a frame are specified as functions on values
//! (`moved`, `bounced`, `predicted`, `driven`, `scored`), the executable
//! stages are proved to compute exactly those, and the laws that relate
//! them (the speed cap, the honest prediction cache, the standing pause)
//! are proved from the same functions.

pub mod ball;
pub mod bounce;
pub mod fixed;
pub mod game;
pub mod invariants;
pub mod menu;
pub mod motion;
pub mod options;
pub mod paddle;
pub mod settings;
pub mod sound;
pub mod state;
pub mod taunt;
pub mod timer;
pub mod trajectory;
pub mod window;
pub mod winner;
