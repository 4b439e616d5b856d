//! A snake game on a wrapped square grid: the snake's body and movement, the
//! placement of food, and the rules of one tick of play.
//!
//! The library decides; it neither draws nor reads input. A tick takes a key
//! code and two random fractions, and hands back the display commands that a
//! host carries out.

pub mod direction;
pub mod display;
pub mod food;
pub mod game;
pub mod grid;
pub mod snake;
