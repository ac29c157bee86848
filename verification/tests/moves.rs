use minifb::Key;
use player_commands::state::command::{
    accelerated, obstacle_on_left, obstacle_on_right, Command, FollowUp, MoveLeft, MoveRight,
};
use player_commands::state::player::{Direction, Player};
use player_commands::state::{Obstacle, ACCELERATION, MAX_VELOCITY, OBSTACLE_BAND, UNIT};

fn obstacle(x_left: i64, x_right: i64, y_transition_pos: i64) -> Obstacle {
    Obstacle { x_left: x_left * UNIT, x_right: x_right * UNIT, y_transition_pos: y_transition_pos * UNIT }
}

#[test]
fn constants_are_in_fixed_point() {
    assert_eq!(UNIT, 1000);
    assert_eq!(ACCELERATION, 100);
    assert_eq!(MAX_VELOCITY, 2000);
    assert_eq!(OBSTACLE_BAND, 10 * UNIT);
}

#[test]
fn move_left_is_blocked_by_an_obstacle_in_the_band() {
    let mut player = Player::new(100 * UNIT, 50 * UNIT);
    let obstacles = vec![obstacle(95, 105, 50)];
    let follow_up = MoveLeft.execute(&mut player, &obstacles);
    assert_eq!(player.vx, 0);
    assert_eq!(player.x, 100 * UNIT);
    assert!(player.obstacle_left);
    assert_eq!(follow_up, FollowUp::Done);
}

#[test]
fn move_left_without_the_obstacle_gains_the_acceleration() {
    let mut player = Player::new(100 * UNIT, 50 * UNIT);
    let follow_up = MoveLeft.execute(&mut player, &Vec::new());
    assert_eq!(player.vx, ACCELERATION);
    assert_eq!(player.x, 100 * UNIT - ACCELERATION);
    assert_eq!(player.x, 99_900);
    assert!(!player.obstacle_left);
    assert_eq!(player.last_key, Some(Key::A));
    assert_eq!(player.direction, Direction::Left);
    assert_eq!(follow_up, FollowUp::ResolveLanding);
}

#[test]
fn blocked_move_left_zeroes_any_speed_and_changes_nothing_else() {
    let mut player = Player::new(100 * UNIT, 50 * UNIT);
    player.vx = 1700;
    player.vy = -300;
    player.left_increment = 6;
    player.left_increment_frame_count = 2;
    player.last_key = Some(Key::D);
    let before = player;
    MoveLeft.execute(&mut player, &vec![obstacle(0, 1, 0), obstacle(95, 105, 50)]);
    assert_eq!(player, Player { vx: 0, obstacle_left: true, ..before });
    assert_eq!(player.direction, Direction::Right);
    assert_eq!(player.last_key, Some(Key::D));

    player.vx = 5 * MAX_VELOCITY;
    MoveLeft.execute(&mut player, &vec![obstacle(95, 105, 50)]);
    assert_eq!(player.vx, 0);
    player.vx = -40;
    MoveLeft.execute(&mut player, &vec![obstacle(95, 105, 50)]);
    assert_eq!(player.vx, 0);
}

#[test]
fn the_left_band_is_open_at_both_ends() {
    let at = |x: i64, y: i64| Player::new(x, y);
    let obstacles = vec![obstacle(95, 105, 50)];
    assert!(obstacle_on_left(&at(105 * UNIT - 1, 50 * UNIT), &obstacles));
    assert!(!obstacle_on_left(&at(105 * UNIT, 50 * UNIT), &obstacles));
    assert!(obstacle_on_left(&at(95 * UNIT + 1, 50 * UNIT), &obstacles));
    assert!(!obstacle_on_left(&at(95 * UNIT, 50 * UNIT), &obstacles));
    assert!(!obstacle_on_left(&at(100 * UNIT, 50 * UNIT + 1), &obstacles));
    assert!(!obstacle_on_left(&at(100 * UNIT, 50 * UNIT - 1), &obstacles));
    assert!(!obstacle_on_left(&at(100 * UNIT, 50 * UNIT), &Vec::new()));
}

#[test]
fn the_right_band_mirrors_the_left_one() {
    let at = |x: i64, y: i64| Player::new(x, y);
    let obstacles = vec![obstacle(95, 105, 50)];
    assert!(obstacle_on_right(&at(95 * UNIT + 1, 50 * UNIT), &obstacles));
    assert!(!obstacle_on_right(&at(95 * UNIT, 50 * UNIT), &obstacles));
    assert!(obstacle_on_right(&at(105 * UNIT - 1, 50 * UNIT), &obstacles));
    assert!(!obstacle_on_right(&at(105 * UNIT, 50 * UNIT), &obstacles));
    assert!(!obstacle_on_right(&at(100 * UNIT, 50 * UNIT + 1), &obstacles));
    assert!(!obstacle_on_right(&at(100 * UNIT, 80 * UNIT), &obstacles));
    assert!(!obstacle_on_right(&at(100 * UNIT, 50 * UNIT - 1), &obstacles));
    assert!(!obstacle_on_right(&at(100 * UNIT, 50 * UNIT), &Vec::new()));
}

#[test]
fn move_right_goes_through_below_an_obstacle() {
    let mut player = Player::new(100 * UNIT, 80 * UNIT);
    player.vx = 1950;
    player.obstacle_right = true;
    let follow_up = MoveRight.execute(&mut player, &vec![obstacle(95, 105, 50)]);
    assert_eq!(player.vx, MAX_VELOCITY);
    assert_eq!(player.x, 100 * UNIT + MAX_VELOCITY);
    assert!(!player.obstacle_right);
    assert_eq!(follow_up, FollowUp::ResolveLanding);

    let mut level = Player::new(100 * UNIT, 80 * UNIT);
    MoveRight.execute(&mut level, &vec![obstacle(95, 105, 50), obstacle(99, 101, 80)]);
    assert_eq!((level.x, level.vx, level.obstacle_right), (100 * UNIT, 0, true));
}

#[test]
fn the_band_is_measured_without_overflow() {
    let far_left = Obstacle { x_left: i64::MIN, x_right: i64::MIN + 5, y_transition_pos: 0 };
    let far_right = Obstacle { x_left: i64::MAX - 5, x_right: i64::MAX, y_transition_pos: 0 };
    assert!(obstacle_on_left(&Player::new(i64::MIN + 1, 0), &vec![far_left]));
    assert!(!obstacle_on_left(&Player::new(i64::MIN + 5, 0), &vec![far_left]));
    assert!(obstacle_on_right(&Player::new(i64::MAX, 0), &vec![far_right]));
    assert!(!obstacle_on_right(&Player::new(i64::MAX - 5, 0), &vec![far_right]));
}

#[test]
fn move_right_is_blocked_by_an_obstacle_in_the_band() {
    let mut player = Player::new(100 * UNIT, 50 * UNIT);
    player.vx = 900;
    let before = player;
    let follow_up = MoveRight.execute(&mut player, &vec![obstacle(95, 120, 50)]);
    assert_eq!(player, Player { vx: 0, obstacle_right: true, ..before });
    assert_eq!(follow_up, FollowUp::Done);
}

#[test]
fn move_right_without_obstacles_gains_the_acceleration() {
    let mut player = Player::new(100 * UNIT, 50 * UNIT);
    player.direction = Direction::Left;
    player.obstacle_right = true;
    let follow_up = MoveRight.execute(&mut player, &vec![obstacle(200, 220, 50)]);
    assert_eq!(player.vx, ACCELERATION);
    assert_eq!(player.x, 100 * UNIT + ACCELERATION);
    assert!(!player.obstacle_right);
    assert_eq!(player.last_key, Some(Key::D));
    assert_eq!(player.direction, Direction::Right);
    assert_eq!(follow_up, FollowUp::ResolveLanding);
}

#[test]
fn speed_grows_by_the_acceleration_up_to_the_maximum() {
    assert_eq!(accelerated(0), 100);
    assert_eq!(accelerated(1850), 1950);
    assert_eq!(accelerated(1900), 2000);
    assert_eq!(accelerated(1901), 2000);
    assert_eq!(accelerated(2000), 2000);
    assert_eq!(accelerated(-250), -150);
    assert_eq!(accelerated(i64::MAX), 2000);
    assert_eq!(accelerated(i64::MIN), i64::MIN + 100);

    let mut player = Player::new(0, 0);
    let mut x = 0;
    for step in 1..=25 {
        MoveRight.execute(&mut player, &Vec::new());
        let expected = std::cmp::min(step * ACCELERATION, MAX_VELOCITY);
        assert_eq!(player.vx, expected);
        x += expected;
        assert_eq!(player.x, x);
    }
    assert_eq!(player.vx, MAX_VELOCITY);
}

#[test]
fn the_left_frame_advances_on_every_third_move_through_4_to_7() {
    let mut player = Player::new(0, 0);
    let mut frames = Vec::new();
    let mut counts = Vec::new();
    for _ in 0..15 {
        MoveLeft.execute(&mut player, &Vec::new());
        frames.push(player.left_increment);
        counts.push(player.left_increment_frame_count);
    }
    assert_eq!(frames, vec![4, 4, 5, 5, 5, 6, 6, 6, 7, 7, 7, 4, 4, 4, 5]);
    assert_eq!(counts, vec![1, 2, 0, 1, 2, 0, 1, 2, 0, 1, 2, 0, 1, 2, 0]);
    assert_eq!(player.right_increment, 0);
    assert_eq!(player.right_increment_frame_count, 0);
}

#[test]
fn the_right_frame_advances_on_every_third_move_through_0_to_3() {
    let mut player = Player::new(0, 0);
    let mut frames = Vec::new();
    let mut counts = Vec::new();
    for _ in 0..15 {
        MoveRight.execute(&mut player, &Vec::new());
        frames.push(player.right_increment);
        counts.push(player.right_increment_frame_count);
    }
    assert_eq!(frames, vec![0, 0, 1, 1, 1, 2, 2, 2, 3, 3, 3, 0, 0, 0, 1]);
    assert_eq!(counts, vec![1, 2, 0, 1, 2, 0, 1, 2, 0, 1, 2, 0, 1, 2, 0]);
    assert_eq!(player.left_increment, 4);
    assert_eq!(player.left_increment_frame_count, 0);
}

#[test]
fn a_blocked_move_does_not_count_towards_the_next_frame() {
    let mut player = Player::new(100 * UNIT, 50 * UNIT);
    player.left_increment_frame_count = 2;
    MoveLeft.execute(&mut player, &vec![obstacle(95, 105, 50)]);
    assert_eq!(player.left_increment, 4);
    assert_eq!(player.left_increment_frame_count, 2);
    MoveLeft.execute(&mut player, &Vec::new());
    assert_eq!(player.left_increment, 5);
    assert_eq!(player.left_increment_frame_count, 0);
}

#[test]
fn a_frame_outside_its_cycle_still_counts_up() {
    let mut player = Player::new(0, 0);
    player.left_increment = 0;
    player.left_increment_frame_count = 9;
    player.right_increment = 8;
    player.right_increment_frame_count = 2;
    MoveLeft.execute(&mut player, &Vec::new());
    assert_eq!((player.left_increment, player.left_increment_frame_count), (1, 0));
    MoveRight.execute(&mut player, &Vec::new());
    assert_eq!((player.right_increment, player.right_increment_frame_count), (9, 0));
}

#[test]
fn a_move_is_refused_only_where_the_result_does_not_fit() {
    let none: Vec<Obstacle> = Vec::new();
    assert!(MoveLeft.can_execute(&Player::new(100 * UNIT, 50 * UNIT), &none));
    assert!(MoveLeft.can_execute(&Player::new(i64::MIN + ACCELERATION, 0), &none));
    assert!(!MoveLeft.can_execute(&Player::new(i64::MIN + ACCELERATION - 1, 0), &none));
    assert!(MoveRight.can_execute(&Player::new(i64::MAX - ACCELERATION, 0), &none));
    assert!(!MoveRight.can_execute(&Player::new(i64::MAX - ACCELERATION + 1, 0), &none));

    let wall = Obstacle { x_left: i64::MIN, x_right: i64::MIN + 5, y_transition_pos: 0 };
    assert!(MoveLeft.can_execute(&Player::new(i64::MIN + 1, 0), &vec![wall]));

    let mut player = Player::new(0, 0);
    player.left_increment = u32::MAX;
    assert!(MoveLeft.can_execute(&player, &none));
    player.left_increment_frame_count = 2;
    assert!(!MoveLeft.can_execute(&player, &none));
    assert!(MoveRight.can_execute(&player, &none));
    player.right_increment = u32::MAX;
    player.right_increment_frame_count = u32::MAX;
    assert!(!MoveRight.can_execute(&player, &none));

    let mut slow = Player::new(i64::MAX, 0);
    slow.vx = i64::MIN;
    assert!(!MoveLeft.can_execute(&slow, &none));
    assert!(MoveRight.can_execute(&slow, &none));
    MoveRight.execute(&mut slow, &none);
    assert_eq!(slow.vx, i64::MIN + ACCELERATION);
    assert_eq!(slow.x, i64::MAX + (i64::MIN + ACCELERATION));
}
