//! Commands: what a key press does to the player.

use std::collections::HashMap;

use vstd::prelude::*;

use minifb::Key;

use crate::state::player::Direction;
use crate::state::player::Player;
use crate::state::player::PlayerState;
use crate::state::Obstacle;
use crate::state::ACCELERATION;
use crate::state::JUMP_VELOCITY;
use crate::state::MAX_VELOCITY;
use crate::state::OBSTACLE_BAND;

verus! {

/// What the caller still owes the player once a command has run.
#[derive(Clone, Copy, Debug, PartialEq, Eq, Structural)]
pub enum FollowUp {
    /// Nothing: the command is complete.
    Done,
    /// The player has moved sideways: whether it now stands on top of an
    /// obstacle is for the caller to settle.
    ResolveLanding,
}

/// The obstacle stops a move to the left: the player stands to the left of
/// its right edge, by less than the band, and exactly at its height.
pub open spec fn blocks_left(player: PlayerState, obstacle: Obstacle) -> bool {
    &&& player.x < obstacle.x_right
    &&& player.x > obstacle.x_right - OBSTACLE_BAND
    &&& player.y == obstacle.y_transition_pos
}

/// The obstacle stops a move to the right, as the mirror of
/// [`blocks_left`]: the player stands to the right of its left edge, by less
/// than the band, and exactly at its height.
pub open spec fn blocks_right(player: PlayerState, obstacle: Obstacle) -> bool {
    &&& player.x > obstacle.x_left
    &&& player.x < obstacle.x_left + OBSTACLE_BAND
    &&& player.y == obstacle.y_transition_pos
}

/// Some obstacle stops a move to the left.
pub open spec fn blocked_left(player: PlayerState, obstacles: Seq<Obstacle>) -> bool {
    exists|i: int| 0 <= i < obstacles.len() && blocks_left(player, #[trigger] obstacles[i])
}

/// Some obstacle stops a move to the right.
pub open spec fn blocked_right(player: PlayerState, obstacles: Seq<Obstacle>) -> bool {
    exists|i: int| 0 <= i < obstacles.len() && blocks_right(player, #[trigger] obstacles[i])
}

/// The speed after one more step of acceleration: `ACCELERATION` more, but
/// no more than `MAX_VELOCITY`.
pub open spec fn accelerate(vx: int) -> int {
    if vx + ACCELERATION > MAX_VELOCITY {
        MAX_VELOCITY as int
    } else {
        vx + ACCELERATION
    }
}

/// The left-facing frame after `frame`: the frames 4 to 7 in a cycle.
pub open spec fn next_left_frame(frame: nat) -> nat {
    if frame == 7 {
        4
    } else {
        frame + 1
    }
}

/// The right-facing frame after `frame`: the frames 0 to 3 in a cycle.
pub open spec fn next_right_frame(frame: nat) -> nat {
    if frame == 3 {
        0
    } else {
        frame + 1
    }
}

/// The player after a move to the left.
///
/// In front of an obstacle the player stops and is marked as blocked on the
/// left. Otherwise it gains speed, faces left, goes left by its new speed,
/// and on every third such move shows the next left-facing frame.
pub open spec fn move_left(player: PlayerState, obstacles: Seq<Obstacle>) -> PlayerState {
    if blocked_left(player, obstacles) {
        PlayerState { vx: 0, obstacle_left: true, ..player }
    } else {
        let vx = accelerate(player.vx);
        let third = player.left_increment_frame_count + 1 >= 3;
        PlayerState {
            x: player.x - vx,
            vx,
            obstacle_left: false,
            left_increment: if third {
                next_left_frame(player.left_increment)
            } else {
                player.left_increment
            },
            left_increment_frame_count: if third {
                0
            } else {
                player.left_increment_frame_count + 1
            },
            direction: Direction::Left,
            last_key: Some(Key::A),
            ..player
        }
    }
}

/// The player after a move to the right.
///
/// In front of an obstacle the player stops and is marked as blocked on the
/// right. Otherwise it gains speed, faces right, goes right by its new
/// speed, and on every third such move shows the next right-facing frame.
pub open spec fn move_right(player: PlayerState, obstacles: Seq<Obstacle>) -> PlayerState {
    if blocked_right(player, obstacles) {
        PlayerState { vx: 0, obstacle_right: true, ..player }
    } else {
        let vx = accelerate(player.vx);
        let third = player.right_increment_frame_count + 1 >= 3;
        PlayerState {
            x: player.x + vx,
            vx,
            obstacle_right: false,
            right_increment: if third {
                next_right_frame(player.right_increment)
            } else {
                player.right_increment
            },
            right_increment_frame_count: if third {
                0
            } else {
                player.right_increment_frame_count + 1
            },
            direction: Direction::Right,
            last_key: Some(Key::D),
            ..player
        }
    }
}

/// The player after a jump: off the ground with the jump's velocity, unless
/// it is in a jump already, which changes nothing.
pub open spec fn jump(player: PlayerState) -> PlayerState {
    if player.is_jumping {
        player
    } else {
        PlayerState {
            vy: JUMP_VELOCITY as int,
            on_ground: false,
            is_jumping: true,
            last_key: Some(Key::Space),
            ..player
        }
    }
}

/// The player after a kick: the kicking frame of the side it faces.
pub open spec fn kick(player: PlayerState) -> PlayerState {
    match player.direction {
        Direction::Right => PlayerState { right_increment: 2, last_key: Some(Key::X), ..player },
        Direction::Left => PlayerState { left_increment: 5, last_key: Some(Key::X), ..player },
    }
}

/// Whether some obstacle of `obstacles` stops a move to the left.
pub fn obstacle_on_left(player: &Player, obstacles: &Vec<Obstacle>) -> (blocked: bool)
    ensures
        blocked == blocked_left(player@, obstacles@),
{
    let mut i: usize = 0;
    while i < obstacles.len()
        invariant
            i <= obstacles.len(),
            forall|j: int| 0 <= j < i ==> !blocks_left(player@, #[trigger] obstacles@[j]),
        decreases obstacles.len() - i,
    {
        let obstacle = &obstacles[i];
        if player.x < obstacle.x_right && player.x as i128 > obstacle.x_right as i128
            - OBSTACLE_BAND as i128 && player.y == obstacle.y_transition_pos {
            return true;
        }
        i += 1;
    }
    false
}

/// Whether some obstacle of `obstacles` stops a move to the right.
pub fn obstacle_on_right(player: &Player, obstacles: &Vec<Obstacle>) -> (blocked: bool)
    ensures
        blocked == blocked_right(player@, obstacles@),
{
    let mut i: usize = 0;
    while i < obstacles.len()
        invariant
            i <= obstacles.len(),
            forall|j: int| 0 <= j < i ==> !blocks_right(player@, #[trigger] obstacles@[j]),
        decreases obstacles.len() - i,
    {
        let obstacle = &obstacles[i];
        if player.x > obstacle.x_left && (player.x as i128) < obstacle.x_left as i128
            + OBSTACLE_BAND as i128 && player.y == obstacle.y_transition_pos {
            return true;
        }
        i += 1;
    }
    false
}

/// One more step of acceleration on the speed `vx`.
pub fn accelerated(vx: i64) -> (faster: i64)
    ensures
        faster == accelerate(vx as int),
{
    if vx > MAX_VELOCITY - ACCELERATION {
        MAX_VELOCITY
    } else {
        vx + ACCELERATION
    }
}

/// What a key press does: a change of the player, given the obstacles
/// around it.
///
/// A command does not settle where a player lands that it has moved
/// sideways. It says so in what it returns, and the caller, who knows the
/// ground, does the rest.
pub trait Command {
    /// The player after the command, over unbounded integers.
    spec fn outcome(&self, player: PlayerState, obstacles: Seq<Obstacle>) -> PlayerState;

    /// What is left for the caller to do after the command.
    spec fn follow_up(&self, player: PlayerState, obstacles: Seq<Obstacle>) -> FollowUp;

    /// Whether the player after the command fits the machine integers of a
    /// [`Player`], which is what [`Command::execute`] asks for.
    fn can_execute(&self, player: &Player, obstacles: &Vec<Obstacle>) -> (fits: bool)
        ensures
            fits == self.outcome(player@, obstacles@).representable(),
    ;

    /// Carries the command out on `player`. A player in play stays in play.
    fn execute(&self, player: &mut Player, obstacles: &Vec<Obstacle>) -> (follow_up: FollowUp)
        requires
            self.outcome(old(player)@, obstacles@).representable(),
        ensures
            final(player)@ == self.outcome(old(player)@, obstacles@),
            follow_up == self.follow_up(old(player)@, obstacles@),
            old(player)@.wf() ==> final(player)@.wf(),
    ;
}

/// The move to the left.
#[derive(Clone, Copy, Debug)]
pub struct MoveLeft;

impl Command for MoveLeft {
    open spec fn outcome(&self, player: PlayerState, obstacles: Seq<Obstacle>) -> PlayerState {
        move_left(player, obstacles)
    }

    open spec fn follow_up(&self, player: PlayerState, obstacles: Seq<Obstacle>) -> FollowUp {
        if blocked_left(player, obstacles) {
            FollowUp::Done
        } else {
            FollowUp::ResolveLanding
        }
    }

    fn can_execute(&self, player: &Player, obstacles: &Vec<Obstacle>) -> (fits: bool) {
        if obstacle_on_left(player, obstacles) {
            true
        } else {
            let frame_fits = player.left_increment_frame_count < 2 || player.left_increment
                < u32::MAX;
            frame_fits && player.x.checked_sub(accelerated(player.vx)).is_some()
        }
    }

    fn execute(&self, player: &mut Player, obstacles: &Vec<Obstacle>) -> (follow_up: FollowUp) {
        if obstacle_on_left(player, obstacles) {
            player.obstacle_left = true;
            player.vx = 0;
            FollowUp::Done
        } else {
            player.obstacle_left = false;
            player.vx = accelerated(player.vx);
            player.last_key = Some(Key::A);
            player.direction = Direction::Left;
            if player.left_increment_frame_count >= 2 {
                player.left_increment_frame_count = 0;
                if player.left_increment == 7 {
                    player.left_increment = 4;
                } else {
                    player.left_increment = player.left_increment + 1;
                }
            } else {
                player.left_increment_frame_count = player.left_increment_frame_count + 1;
            }
            player.x = player.x - player.vx;
            FollowUp::ResolveLanding
        }
    }
}

/// The move to the right.
#[derive(Clone, Copy, Debug)]
pub struct MoveRight;

impl Command for MoveRight {
    open spec fn outcome(&self, player: PlayerState, obstacles: Seq<Obstacle>) -> PlayerState {
        move_right(player, obstacles)
    }

    open spec fn follow_up(&self, player: PlayerState, obstacles: Seq<Obstacle>) -> FollowUp {
        if blocked_right(player, obstacles) {
            FollowUp::Done
        } else {
            FollowUp::ResolveLanding
        }
    }

    fn can_execute(&self, player: &Player, obstacles: &Vec<Obstacle>) -> (fits: bool) {
        if obstacle_on_right(player, obstacles) {
            true
        } else {
            let frame_fits = player.right_increment_frame_count < 2 || player.right_increment
                < u32::MAX;
            frame_fits && player.x.checked_add(accelerated(player.vx)).is_some()
        }
    }

    fn execute(&self, player: &mut Player, obstacles: &Vec<Obstacle>) -> (follow_up: FollowUp) {
        if obstacle_on_right(player, obstacles) {
            player.obstacle_right = true;
            player.vx = 0;
            FollowUp::Done
        } else {
            player.obstacle_right = false;
            player.vx = accelerated(player.vx);
            player.last_key = Some(Key::D);
            player.direction = Direction::Right;
            if player.right_increment_frame_count >= 2 {
                player.right_increment_frame_count = 0;
                if player.right_increment == 3 {
                    player.right_increment = 0;
                } else {
                    player.right_increment = player.right_increment + 1;
                }
            } else {
                player.right_increment_frame_count = player.right_increment_frame_count + 1;
            }
            player.x = player.x + player.vx;
            FollowUp::ResolveLanding
        }
    }
}

/// The jump.
#[derive(Clone, Copy, Debug)]
pub struct Jump;

impl Command for Jump {
    open spec fn outcome(&self, player: PlayerState, obstacles: Seq<Obstacle>) -> PlayerState {
        jump(player)
    }

    open spec fn follow_up(&self, player: PlayerState, obstacles: Seq<Obstacle>) -> FollowUp {
        FollowUp::Done
    }

    fn can_execute(&self, _player: &Player, _obstacles: &Vec<Obstacle>) -> (fits: bool) {
        true
    }

    fn execute(&self, player: &mut Player, _obstacles: &Vec<Obstacle>) -> (follow_up: FollowUp) {
        if !player.is_jumping {
            player.vy = JUMP_VELOCITY;
            player.on_ground = false;
            player.last_key = Some(Key::Space);
            player.is_jumping = true;
        }
        FollowUp::Done
    }
}

/// The kick.
#[derive(Clone, Copy, Debug)]
pub struct Kick;

impl Command for Kick {
    open spec fn outcome(&self, player: PlayerState, obstacles: Seq<Obstacle>) -> PlayerState {
        kick(player)
    }

    open spec fn follow_up(&self, player: PlayerState, obstacles: Seq<Obstacle>) -> FollowUp {
        FollowUp::Done
    }

    fn can_execute(&self, _player: &Player, _obstacles: &Vec<Obstacle>) -> (fits: bool) {
        true
    }

    fn execute(&self, player: &mut Player, _obstacles: &Vec<Obstacle>) -> (follow_up: FollowUp) {
        player.last_key = Some(Key::X);
        match player.direction {
            Direction::Right => {
                player.right_increment = 2;
            },
            Direction::Left => {
                player.left_increment = 5;
            },
        }
        FollowUp::Done
    }
}

/// One of the four commands, as a value that a table can hold.
#[derive(Clone, Copy, Debug, PartialEq, Eq, Structural)]
pub enum CommandKind {
    MoveLeft,
    MoveRight,
    Jump,
    Kick,
}

impl Command for CommandKind {
    open spec fn outcome(&self, player: PlayerState, obstacles: Seq<Obstacle>) -> PlayerState {
        match self {
            CommandKind::MoveLeft => MoveLeft.outcome(player, obstacles),
            CommandKind::MoveRight => MoveRight.outcome(player, obstacles),
            CommandKind::Jump => Jump.outcome(player, obstacles),
            CommandKind::Kick => Kick.outcome(player, obstacles),
        }
    }

    open spec fn follow_up(&self, player: PlayerState, obstacles: Seq<Obstacle>) -> FollowUp {
        match self {
            CommandKind::MoveLeft => MoveLeft.follow_up(player, obstacles),
            CommandKind::MoveRight => MoveRight.follow_up(player, obstacles),
            CommandKind::Jump => Jump.follow_up(player, obstacles),
            CommandKind::Kick => Kick.follow_up(player, obstacles),
        }
    }

    fn can_execute(&self, player: &Player, obstacles: &Vec<Obstacle>) -> (fits: bool) {
        match self {
            CommandKind::MoveLeft => MoveLeft.can_execute(player, obstacles),
            CommandKind::MoveRight => MoveRight.can_execute(player, obstacles),
            CommandKind::Jump => Jump.can_execute(player, obstacles),
            CommandKind::Kick => Kick.can_execute(player, obstacles),
        }
    }

    fn execute(&self, player: &mut Player, obstacles: &Vec<Obstacle>) -> (follow_up: FollowUp) {
        match self {
            CommandKind::MoveLeft => MoveLeft.execute(player, obstacles),
            CommandKind::MoveRight => MoveRight.execute(player, obstacles),
            CommandKind::Jump => Jump.execute(player, obstacles),
            CommandKind::Kick => Kick.execute(player, obstacles),
        }
    }
}

/// The table from keys to commands. A key is filed under the number that
/// `minifb` gives it.
pub struct CommandMap {
    table: HashMap<u8, CommandKind>,
}

impl View for CommandMap {
    type V = Map<Key, CommandKind>;

    closed spec fn view(&self) -> Map<Key, CommandKind> {
        Map::new(
            |key: Key| self.table@.contains_key(key as u8),
            |key: Key| self.table@[key as u8],
        )
    }
}

impl CommandMap {
    /// The table with no key bound.
    pub fn new() -> (commands: CommandMap)
        ensures
            commands@ == Map::<Key, CommandKind>::empty(),
    {
        let commands = CommandMap { table: HashMap::new() };
        assert(commands@ =~= Map::<Key, CommandKind>::empty());
        commands
    }

    /// Binds `key` to `command`, and returns the command that the key was
    /// bound to before.
    pub fn insert(&mut self, key: Key, command: CommandKind) -> (before: Option<CommandKind>)
        ensures
            final(self)@ == old(self)@.insert(key, command),
            before == if old(self)@.contains_key(key) {
                Some(old(self)@[key])
            } else {
                None
            },
    {
        broadcast use vstd::std_specs::hash::group_hash_axioms;

        let before = self.table.insert(key as u8, command);
        assert(self@ =~= old(self)@.insert(key, command));
        before
    }

    /// The command that `key` is bound to.
    pub fn get(&self, key: Key) -> (command: Option<CommandKind>)
        ensures
            command == if self@.contains_key(key) {
                Some(self@[key])
            } else {
                None
            },
    {
        broadcast use vstd::std_specs::hash::group_hash_axioms;

        let code = key as u8;
        match self.table.get(&code) {
            Some(command) => Some(*command),
            None => None,
        }
    }

    /// Whether pressing `key` runs a command on `player`: the key is bound,
    /// and the player after its command fits the machine integers.
    pub open spec fn runs(&self, key: Key, player: PlayerState, obstacles: Seq<Obstacle>) -> bool {
        self@.contains_key(key) && self@[key].outcome(player, obstacles).representable()
    }

    /// Runs the command that `key` is bound to on `player`, and returns what
    /// it leaves to the caller. Where no command runs, the player stays as
    /// it is.
    pub fn dispatch(
        &self,
        key: Key,
        player: &mut Player,
        obstacles: &Vec<Obstacle>,
    ) -> (ran: Option<FollowUp>)
        ensures
            self.runs(key, old(player)@, obstacles@) ==> {
                &&& final(player)@ == self@[key].outcome(old(player)@, obstacles@)
                &&& ran == Some(self@[key].follow_up(old(player)@, obstacles@))
            },
            !self.runs(key, old(player)@, obstacles@) ==> {
                &&& *final(player) == *old(player)
                &&& ran.is_none()
            },
            old(player)@.wf() ==> final(player)@.wf(),
    {
        match self.get(key) {
            Some(command) => {
                if command.can_execute(player, obstacles) {
                    Some(command.execute(player, obstacles))
                } else {
                    None
                }
            },
            None => None,
        }
    }
}

/// The table of the game: `A` moves left, `D` moves right, `Space` jumps and
/// `X` kicks.
pub fn initialize_command_map() -> (commands: CommandMap)
    ensures
        commands@ == map![
            Key::A => CommandKind::MoveLeft,
            Key::D => CommandKind::MoveRight,
            Key::Space => CommandKind::Jump,
            Key::X => CommandKind::Kick,
        ],
{
    let mut commands = CommandMap::new();
    commands.insert(Key::A, CommandKind::MoveLeft);
    commands.insert(Key::D, CommandKind::MoveRight);
    commands.insert(Key::Space, CommandKind::Jump);
    commands.insert(Key::X, CommandKind::Kick);
    commands
}

} // verus!
