//! The game state that commands read and change.

use vstd::prelude::*;

pub mod command;
pub mod laws;
pub mod player;

verus! {

/// How many of the integers in which lengths are counted make one world unit.
pub const UNIT: i64 = 1000;

/// What a successful horizontal move adds to the player's speed.
pub const ACCELERATION: i64 = 100;

/// The horizontal speed that a move never takes the player beyond.
pub const MAX_VELOCITY: i64 = 2000;

/// The vertical velocity that a jump starts with (up is negative).
pub const JUMP_VELOCITY: i64 = -5000;

/// The depth of the strip behind an obstacle's edge in which the obstacle
/// stops a player that would move further in: ten world units.
pub const OBSTACLE_BAND: i64 = 10 * UNIT;

/// An obstacle in the player's way: its left and right edges, and the
/// height at which a player runs into its side.
#[derive(Clone, Copy, Debug, PartialEq, Eq)]
pub struct Obstacle {
    pub x_left: i64,
    pub x_right: i64,
    pub y_transition_pos: i64,
}

} // verus!
