//! A two-paddle ball game: one paddle follows the keyboard, the other follows
//! the ball. Every length is an integer count of tenths of a pixel, so the
//! simulation is exact and each tick is a function of the state alone.
pub mod court;
pub mod frame;
pub mod game;
pub mod input;
pub mod session;
