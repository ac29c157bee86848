//! What holds of the commands on every player.
//!
//! The laws speak of a command's outcome over unbounded integers, so they
//! leave no player out. `execute` gives a player exactly that outcome
//! wherever the outcome fits the machine integers, and `dispatch` runs
//! nothing where it does not.

use vstd::prelude::*;

use minifb::Key;

use crate::state::command::blocked_left;
use crate::state::command::blocked_right;
use crate::state::command::next_left_frame;
use crate::state::command::next_right_frame;
use crate::state::command::Command;
use crate::state::command::CommandKind;
use crate::state::command::Jump;
use crate::state::command::Kick;
use crate::state::command::MoveLeft;
use crate::state::command::MoveRight;
use crate::state::player::Direction;
use crate::state::player::PlayerState;
use crate::state::Obstacle;
use crate::state::ACCELERATION;
use crate::state::JUMP_VELOCITY;
use crate::state::MAX_VELOCITY;

verus! {

/// A move to the left that no obstacle blocks adds the acceleration to a
/// speed within the maximum, and stops at the maximum: below the maximum the
/// speed grows, and it never passes it.
pub proof fn unblocked_move_left_accelerates(player: PlayerState, obstacles: Seq<Obstacle>)
    requires
        player.vx <= MAX_VELOCITY,
        !blocked_left(player, obstacles),
    ensures
        player.vx + ACCELERATION <= MAX_VELOCITY ==> MoveLeft.outcome(player, obstacles).vx
            == player.vx + ACCELERATION,
        player.vx + ACCELERATION > MAX_VELOCITY ==> MoveLeft.outcome(player, obstacles).vx
            == MAX_VELOCITY,
        player.vx < MAX_VELOCITY ==> MoveLeft.outcome(player, obstacles).vx > player.vx,
        MoveLeft.outcome(player, obstacles).x == player.x - MoveLeft.outcome(player, obstacles).vx,
{
}

/// A move to the right that no obstacle blocks adds the acceleration to a
/// speed within the maximum, and stops at the maximum: below the maximum the
/// speed grows, and it never passes it.
pub proof fn unblocked_move_right_accelerates(player: PlayerState, obstacles: Seq<Obstacle>)
    requires
        player.vx <= MAX_VELOCITY,
        !blocked_right(player, obstacles),
    ensures
        player.vx + ACCELERATION <= MAX_VELOCITY ==> MoveRight.outcome(player, obstacles).vx
            == player.vx + ACCELERATION,
        player.vx + ACCELERATION > MAX_VELOCITY ==> MoveRight.outcome(player, obstacles).vx
            == MAX_VELOCITY,
        player.vx < MAX_VELOCITY ==> MoveRight.outcome(player, obstacles).vx > player.vx,
        MoveRight.outcome(player, obstacles).x == player.x + MoveRight.outcome(
            player,
            obstacles,
        ).vx,
{
}

/// In front of an obstacle a move to the left stops the player, whatever its
/// speed was: only the speed and the mark of the blocked side change.
pub proof fn blocked_move_left_stops(player: PlayerState, obstacles: Seq<Obstacle>)
    requires
        blocked_left(player, obstacles),
    ensures
        MoveLeft.outcome(player, obstacles) == (PlayerState {
            vx: 0,
            obstacle_left: true,
            ..player
        }),
{
}

/// In front of an obstacle a move to the right stops the player, whatever
/// its speed was: only the speed and the mark of the blocked side change.
pub proof fn blocked_move_right_stops(player: PlayerState, obstacles: Seq<Obstacle>)
    requires
        blocked_right(player, obstacles),
    ensures
        MoveRight.outcome(player, obstacles) == (PlayerState {
            vx: 0,
            obstacle_right: true,
            ..player
        }),
{
}

/// No command takes a left-facing frame out of 4 to 7, nor a right-facing
/// frame out of 0 to 3.
pub proof fn frames_stay_in_their_cycles(
    command: CommandKind,
    player: PlayerState,
    obstacles: Seq<Obstacle>,
)
    ensures
        4 <= player.left_increment <= 7 ==> 4 <= command.outcome(player, obstacles).left_increment
            <= 7,
        player.right_increment <= 3 ==> command.outcome(player, obstacles).right_increment <= 3,
{
}

/// Every command keeps the invariant of a player in play.
pub proof fn commands_keep_the_invariant(
    command: CommandKind,
    player: PlayerState,
    obstacles: Seq<Obstacle>,
)
    requires
        player.wf(),
    ensures
        command.outcome(player, obstacles).wf(),
{
}

/// Three moves to the left, none of them blocked, show the next left-facing
/// frame exactly once, and leave the cadence counter where it was.
pub proof fn three_moves_left_advance_one_frame(
    player: PlayerState,
    first: Seq<Obstacle>,
    second: Seq<Obstacle>,
    third: Seq<Obstacle>,
)
    requires
        player.left_increment_frame_count < 3,
        !blocked_left(player, first),
        !blocked_left(MoveLeft.outcome(player, first), second),
        !blocked_left(MoveLeft.outcome(MoveLeft.outcome(player, first), second), third),
    ensures
        ({
            let after = MoveLeft.outcome(
                MoveLeft.outcome(MoveLeft.outcome(player, first), second),
                third,
            );
            &&& after.left_increment == next_left_frame(player.left_increment)
            &&& after.left_increment_frame_count == player.left_increment_frame_count
            &&& after.right_increment == player.right_increment
        }),
{
}

/// Three moves to the right, none of them blocked, show the next
/// right-facing frame exactly once, and leave the cadence counter where it
/// was.
pub proof fn three_moves_right_advance_one_frame(
    player: PlayerState,
    first: Seq<Obstacle>,
    second: Seq<Obstacle>,
    third: Seq<Obstacle>,
)
    requires
        player.right_increment_frame_count < 3,
        !blocked_right(player, first),
        !blocked_right(MoveRight.outcome(player, first), second),
        !blocked_right(MoveRight.outcome(MoveRight.outcome(player, first), second), third),
    ensures
        ({
            let after = MoveRight.outcome(
                MoveRight.outcome(MoveRight.outcome(player, first), second),
                third,
            );
            &&& after.right_increment == next_right_frame(player.right_increment)
            &&& after.right_increment_frame_count == player.right_increment_frame_count
            &&& after.left_increment == player.left_increment
        }),
{
}

/// A jump takes a player off the ground only when it is not in a jump; in a
/// jump it changes nothing, so a second jump after the first is lost.
pub proof fn jump_takes_off_once(player: PlayerState, obstacles: Seq<Obstacle>)
    ensures
        !player.is_jumping ==> Jump.outcome(player, obstacles) == (PlayerState {
            vy: JUMP_VELOCITY as int,
            on_ground: false,
            is_jumping: true,
            last_key: Some(Key::Space),
            ..player
        }),
        player.is_jumping ==> Jump.outcome(player, obstacles) == player,
        Jump.outcome(Jump.outcome(player, obstacles), obstacles) == Jump.outcome(player, obstacles),
{
}

/// A kick shows frame 2 of a player that faces right and frame 5 of one
/// that faces left, and leaves the frame of the other side as it was.
pub proof fn kick_shows_the_frame_of_the_facing_side(
    player: PlayerState,
    obstacles: Seq<Obstacle>,
)
    ensures
        player.direction == Direction::Right ==> Kick.outcome(player, obstacles) == (PlayerState {
            right_increment: 2,
            last_key: Some(Key::X),
            ..player
        }),
        player.direction == Direction::Left ==> Kick.outcome(player, obstacles) == (PlayerState {
            left_increment: 5,
            last_key: Some(Key::X),
            ..player
        }),
{
}

} // verus!
