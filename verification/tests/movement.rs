use platformer::input::{Input, Signal};
use platformer::movement::{apply_gravity, drive_horizontal, player_movement};
use platformer::player::{
    Player, PlayerState, Position, GRAVITY, GROUND_Y, JUMP_HEIGHT, JUMP_SPEED, PLAYER_Z, RUN_SPEED,
    STEER_STEP, WALK_SPEED, WORLD_LIMIT,
};

const IDLE: Signal = Signal { pressed: false, just_pressed: false, just_released: false };
const PRESS: Signal = Signal { pressed: true, just_pressed: true, just_released: false };
const HOLD: Signal = Signal { pressed: true, just_pressed: false, just_released: false };
const RELEASE: Signal = Signal { pressed: false, just_pressed: false, just_released: true };
const NOTHING: Input = Input { move_left: IDLE, move_right: IDLE, jump: IDLE, run_modifier: IDLE };

fn player(on_ground: bool, state: PlayerState, x: i64, y: i64) -> Player {
    Player { on_ground, state, position: Position { x, y, z: PLAYER_Z } }
}

#[test]
fn constants_in_tenths_of_a_unit() {
    assert_eq!(GROUND_Y, -640);
    assert_eq!(WALK_SPEED, 10);
    assert_eq!(RUN_SPEED, 15);
    assert_eq!(GRAVITY, 98);
    assert_eq!(JUMP_HEIGHT, 1220);
    assert_eq!(JUMP_SPEED, 147);
    assert_eq!(STEER_STEP, 20);
}

#[test]
fn new_player_walks_on_the_ground() {
    assert_eq!(Player::new(7), player(true, PlayerState::Walking, 7, GROUND_Y));
}

#[test]
fn jump_from_idle_then_fall_then_land() {
    let mut p = player(true, PlayerState::Idle, 0, GROUND_Y);
    let press = Input { jump: PRESS, ..NOTHING };
    let hold = Input { jump: HOLD, ..NOTHING };

    player_movement(&mut p, &press);
    assert_eq!(p.state, PlayerState::Jumping);
    assert!(!p.on_ground);
    assert_eq!(p.position.y, GROUND_Y + JUMP_SPEED);
    apply_gravity(&mut p);

    let mut frames = 0;
    while p.state == PlayerState::Jumping {
        assert!(p.position.y < GROUND_Y + JUMP_HEIGHT);
        player_movement(&mut p, &hold);
        frames += 1;
        assert!(frames < 100);
        if p.state == PlayerState::Jumping {
            apply_gravity(&mut p);
        }
    }
    assert_eq!(p.state, PlayerState::Falling);
    assert_eq!(p.position.y, GROUND_Y + JUMP_HEIGHT);
    assert!(!p.on_ground);
    assert_eq!(frames, 22);

    let mut frames = 0;
    while !p.on_ground {
        assert_eq!(p.state, PlayerState::Falling);
        apply_gravity(&mut p);
        player_movement(&mut p, &hold);
        frames += 1;
        assert!(frames < 100);
    }
    assert_eq!(frames, 13);
    assert_eq!(p.state, PlayerState::Walking);
    assert!(p.on_ground);
    assert_eq!(p.position.y, GROUND_Y);
}

#[test]
fn held_jump_does_not_lift_off_again() {
    let mut p = player(true, PlayerState::Walking, 0, GROUND_Y);
    player_movement(&mut p, &Input { jump: HOLD, ..NOTHING });
    assert_eq!(p, player(true, PlayerState::Walking, 0, GROUND_Y));
}

#[test]
fn jump_needs_the_ground() {
    let mut p = player(false, PlayerState::Falling, 0, 100);
    player_movement(&mut p, &Input { jump: PRESS, ..NOTHING });
    assert_eq!(p, player(false, PlayerState::Falling, 0, 100));
}

#[test]
fn released_jump_stops_rising() {
    let mut p = player(false, PlayerState::Jumping, 0, 0);
    player_movement(&mut p, &NOTHING);
    assert_eq!(p, player(false, PlayerState::Jumping, 0, 0));
    player_movement(&mut p, &Input { jump: HOLD, ..NOTHING });
    assert_eq!(p, player(false, PlayerState::Jumping, 0, JUMP_SPEED));
}

#[test]
fn rising_jump_is_clamped_to_the_ceiling() {
    let ceiling = GROUND_Y + JUMP_HEIGHT;
    let mut p = player(false, PlayerState::Jumping, 0, ceiling - JUMP_SPEED);
    player_movement(&mut p, &Input { jump: HOLD, ..NOTHING });
    assert_eq!(p, player(false, PlayerState::Falling, 0, ceiling));

    let mut p = player(false, PlayerState::Jumping, 0, ceiling - JUMP_SPEED - 1);
    player_movement(&mut p, &Input { jump: HOLD, ..NOTHING });
    assert_eq!(p, player(false, PlayerState::Jumping, 0, ceiling - 1));

    let mut p = player(false, PlayerState::Jumping, 0, i64::MAX);
    player_movement(&mut p, &Input { jump: HOLD, ..NOTHING });
    assert_eq!(p, player(false, PlayerState::Falling, 0, ceiling));
}

#[test]
fn run_modifier_press_then_release() {
    let mut p = player(true, PlayerState::Walking, 0, GROUND_Y);
    player_movement(&mut p, &Input { run_modifier: PRESS, ..NOTHING });
    assert_eq!(p.state, PlayerState::Running);
    player_movement(&mut p, &Input { run_modifier: RELEASE, ..NOTHING });
    assert_eq!(p.state, PlayerState::Walking);
}

#[test]
fn run_modifier_held_keeps_state() {
    let mut p = player(true, PlayerState::Running, 0, GROUND_Y);
    player_movement(&mut p, &Input { run_modifier: HOLD, ..NOTHING });
    assert_eq!(p.state, PlayerState::Running);
    let mut p = player(true, PlayerState::Idle, 0, GROUND_Y);
    player_movement(&mut p, &NOTHING);
    assert_eq!(p.state, PlayerState::Idle);
}

#[test]
fn run_modifier_overrides_airborne_state() {
    let mut p = player(false, PlayerState::Falling, 0, 300);
    player_movement(&mut p, &Input { run_modifier: PRESS, ..NOTHING });
    assert_eq!(p, player(false, PlayerState::Running, 0, 300));

    let mut p = player(true, PlayerState::Walking, 0, GROUND_Y);
    player_movement(&mut p, &Input { jump: PRESS, run_modifier: PRESS, ..NOTHING });
    assert_eq!(p, player(false, PlayerState::Running, 0, GROUND_Y + JUMP_SPEED));

    let mut p = player(false, PlayerState::Jumping, 0, 300);
    player_movement(&mut p, &Input { run_modifier: RELEASE, ..NOTHING });
    assert_eq!(p, player(false, PlayerState::Walking, 0, 300));
}

#[test]
fn run_modifier_press_wins_over_release_in_one_frame() {
    let both = Signal { pressed: false, just_pressed: true, just_released: true };
    let mut p = player(true, PlayerState::Walking, 0, GROUND_Y);
    player_movement(&mut p, &Input { run_modifier: both, ..NOTHING });
    assert_eq!(p.state, PlayerState::Running);
}

#[test]
fn touch_down_overrides_run_modifier() {
    let mut p = player(false, PlayerState::Falling, 5, GROUND_Y - 30);
    player_movement(&mut p, &Input { run_modifier: PRESS, ..NOTHING });
    assert_eq!(p, player(true, PlayerState::Walking, 5, GROUND_Y));
}

#[test]
fn touch_down_at_exact_ground_level() {
    let mut p = player(false, PlayerState::Falling, 0, GROUND_Y);
    player_movement(&mut p, &NOTHING);
    assert_eq!(p, player(true, PlayerState::Walking, 0, GROUND_Y));
    let mut p = player(false, PlayerState::Falling, 0, GROUND_Y + 1);
    player_movement(&mut p, &NOTHING);
    assert_eq!(p, player(false, PlayerState::Falling, 0, GROUND_Y + 1));
}

#[test]
fn steering_keys_move_in_every_state() {
    for state in [
        PlayerState::Idle,
        PlayerState::Walking,
        PlayerState::Running,
        PlayerState::Jumping,
        PlayerState::Falling,
    ] {
        let mut p = player(false, state, 100, 50);
        player_movement(&mut p, &Input { move_left: HOLD, ..NOTHING });
        assert_eq!(p.position.x, 100 - STEER_STEP);
        player_movement(&mut p, &Input { move_right: HOLD, ..NOTHING });
        player_movement(&mut p, &Input { move_right: PRESS, ..NOTHING });
        assert_eq!(p.position.x, 100 + STEER_STEP);
        player_movement(&mut p, &Input { move_left: HOLD, move_right: HOLD, ..NOTHING });
        assert_eq!(p.position.x, 100 + STEER_STEP);
        assert_eq!(p.state, state);
    }
}

#[test]
fn steering_at_the_edge_of_the_number_range() {
    let mut p = player(true, PlayerState::Walking, i64::MAX, GROUND_Y);
    player_movement(&mut p, &Input { move_left: HOLD, move_right: HOLD, ..NOTHING });
    assert_eq!(p.position.x, i64::MAX);
    player_movement(&mut p, &Input { move_left: HOLD, ..NOTHING });
    assert_eq!(p.position.x, i64::MAX - STEER_STEP);
}

#[test]
fn gravity_pulls_only_in_the_air() {
    let mut p = player(false, PlayerState::Jumping, 0, 100);
    apply_gravity(&mut p);
    assert_eq!(p, player(false, PlayerState::Jumping, 0, 100 - GRAVITY));
    let mut p = player(false, PlayerState::Running, 0, 100);
    apply_gravity(&mut p);
    assert_eq!(p.position.y, 2);
    let mut p = player(true, PlayerState::Walking, 0, GROUND_Y);
    apply_gravity(&mut p);
    assert_eq!(p, player(true, PlayerState::Walking, 0, GROUND_Y));
}

#[test]
fn horizontal_speed_depends_on_state() {
    let cases = [
        (PlayerState::Idle, 0),
        (PlayerState::Walking, 10),
        (PlayerState::Running, 15),
        (PlayerState::Jumping, 10),
        (PlayerState::Falling, 10),
    ];
    for (state, speed) in cases {
        let mut p = player(true, state, 3, GROUND_Y);
        assert_eq!(p.horizontal_speed(), speed);
        drive_horizontal(&mut p);
        assert_eq!(p, player(true, state, 3 + speed, GROUND_Y));
    }
}

#[test]
fn within_world_bounds_both_axes() {
    assert_eq!(WORLD_LIMIT, 1_000_000_000_000);
    assert!(player(true, PlayerState::Walking, WORLD_LIMIT, -WORLD_LIMIT).within_world());
    assert!(player(true, PlayerState::Walking, 0, GROUND_Y).within_world());
    assert!(!player(true, PlayerState::Walking, WORLD_LIMIT + 1, 0).within_world());
    assert!(!player(true, PlayerState::Walking, -WORLD_LIMIT - 1, 0).within_world());
    assert!(!player(true, PlayerState::Walking, 0, WORLD_LIMIT + 1).within_world());
    assert!(!player(true, PlayerState::Walking, 0, -WORLD_LIMIT - 1).within_world());
}
