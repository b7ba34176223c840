//! Game logic of a grid snake game for a small colour display with four
//! direction buttons: the menu / play / game-over state machine, snake
//! movement with wrap-around, self-collision, food placement and the
//! per-tick list of cells that have to be redrawn.
pub mod food;
pub mod game;
pub mod geometry;
pub mod history;
pub mod rng;
pub mod snake;
pub mod status;
