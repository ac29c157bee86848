//! Player commands for a 2D side-scrolling character.
//!
//! A key press selects a command, and a command changes the player's
//! position, speed, animation frame and collision flags. Lengths and speeds
//! are fixed-point integers: [`state::UNIT`] of them make one world unit.

pub mod state;
