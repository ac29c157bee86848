//! The player: where it is, how fast it moves, and which sprite frame shows.

use vstd::prelude::*;

use minifb::Key;

use crate::state::MAX_VELOCITY;

verus! {

/// The way the player faces.
#[derive(Clone, Copy, Debug, PartialEq, Eq, Structural)]
pub enum Direction {
    Left,
    Right,
}

/// `minifb::Key`, the keys of the keyboard as the window library names
/// them. Nothing is claimed of it here: Verus reads the variants, and the
/// number of each, from the library's own definition.
#[verifier::external_type_specification]
pub struct ExKey(minifb::Key);

/// The player as the game holds it.
#[derive(Clone, Copy, Debug, PartialEq, Eq)]
pub struct Player {
    pub x: i64,
    pub y: i64,
    pub vx: i64,
    pub vy: i64,
    pub is_jumping: bool,
    pub on_ground: bool,
    pub obstacle_left: bool,
    pub obstacle_right: bool,
    pub left_increment: u32,
    pub right_increment: u32,
    pub left_increment_frame_count: u32,
    pub right_increment_frame_count: u32,
    pub direction: Direction,
    pub last_key: Option<Key>,
}

/// The player over unbounded integers: what the contracts speak of.
pub struct PlayerState {
    pub x: int,
    pub y: int,
    pub vx: int,
    pub vy: int,
    pub is_jumping: bool,
    pub on_ground: bool,
    pub obstacle_left: bool,
    pub obstacle_right: bool,
    pub left_increment: nat,
    pub right_increment: nat,
    pub left_increment_frame_count: nat,
    pub right_increment_frame_count: nat,
    pub direction: Direction,
    pub last_key: Option<Key>,
}

impl PlayerState {
    /// The invariant of a player in play: the speed is within the maximum,
    /// the left-facing frame is one of 4 to 7, the right-facing frame one of
    /// 0 to 3, and each cadence counter is below 3.
    pub open spec fn wf(self) -> bool {
        &&& -MAX_VELOCITY <= self.vx <= MAX_VELOCITY
        &&& 4 <= self.left_increment <= 7
        &&& self.right_increment <= 3
        &&& self.left_increment_frame_count < 3
        &&& self.right_increment_frame_count < 3
    }

    /// Every field fits the machine integer that holds it in a [`Player`].
    pub open spec fn representable(self) -> bool {
        &&& i64::MIN <= self.x <= i64::MAX
        &&& i64::MIN <= self.y <= i64::MAX
        &&& i64::MIN <= self.vx <= i64::MAX
        &&& i64::MIN <= self.vy <= i64::MAX
        &&& self.left_increment <= u32::MAX
        &&& self.right_increment <= u32::MAX
        &&& self.left_increment_frame_count <= u32::MAX
        &&& self.right_increment_frame_count <= u32::MAX
    }
}

impl View for Player {
    type V = PlayerState;

    open spec fn view(&self) -> PlayerState {
        PlayerState {
            x: self.x as int,
            y: self.y as int,
            vx: self.vx as int,
            vy: self.vy as int,
            is_jumping: self.is_jumping,
            on_ground: self.on_ground,
            obstacle_left: self.obstacle_left,
            obstacle_right: self.obstacle_right,
            left_increment: self.left_increment as nat,
            right_increment: self.right_increment as nat,
            left_increment_frame_count: self.left_increment_frame_count as nat,
            right_increment_frame_count: self.right_increment_frame_count as nat,
            direction: self.direction,
            last_key: self.last_key,
        }
    }
}

impl Player {
    /// A player at rest on the ground at `(x, y)`, facing right, with both
    /// animations at their first frame.
    pub fn new(x: i64, y: i64) -> (player: Player)
        ensures
            player@ == (PlayerState {
                x: x as int,
                y: y as int,
                vx: 0,
                vy: 0,
                is_jumping: false,
                on_ground: true,
                obstacle_left: false,
                obstacle_right: false,
                left_increment: 4,
                right_increment: 0,
                left_increment_frame_count: 0,
                right_increment_frame_count: 0,
                direction: Direction::Right,
                last_key: None,
            }),
            player@.wf(),
    {
        Player {
            x,
            y,
            vx: 0,
            vy: 0,
            is_jumping: false,
            on_ground: true,
            obstacle_left: false,
            obstacle_right: false,
            left_increment: 4,
            right_increment: 0,
            left_increment_frame_count: 0,
            right_increment_frame_count: 0,
            direction: Direction::Right,
            last_key: None,
        }
    }
}

} // verus!
