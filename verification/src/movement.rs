//! The player's state machine, the horizontal driver and gravity.
//!
//! Each frame the rules below are applied in a fixed order: jump, steering
//! keys, run modifier, touch-down. Later rules see what earlier ones wrote, so
//! the run modifier overrides a jump's state and a touch-down overrides both.

use vstd::prelude::*;
use crate::input::Input;
use crate::player::{
    Player, PlayerModel, PlayerState, GRAVITY, GROUND_Y, JUMP_HEIGHT, JUMP_SPEED, STEER_STEP, speed_of,
};

verus! {

/// Highest vertical coordinate that a jump reaches.
pub open spec fn ceiling() -> int {
    GROUND_Y + JUMP_HEIGHT
}

/// The jump rule. A newly pressed jump on the ground lifts the player off with
/// one impulse. Otherwise a held jump keeps a jumping player rising until the
/// ceiling, where it is clamped and starts to fall.
pub open spec fn after_jump(p: PlayerModel, input: Input) -> PlayerModel {
    if input.jump.just_pressed && p.on_ground {
        PlayerModel { on_ground: false, state: PlayerState::Jumping, y: p.y + JUMP_SPEED, ..p }
    } else if p.state == PlayerState::Jumping && input.jump.pressed {
        if p.y + JUMP_SPEED >= ceiling() {
            PlayerModel { state: PlayerState::Falling, y: ceiling(), ..p }
        } else {
            PlayerModel { y: p.y + JUMP_SPEED, ..p }
        }
    } else {
        p
    }
}

/// Horizontal distance that the held steering keys add, whatever the state.
pub open spec fn steer_delta(input: Input) -> int {
    (if input.move_right.pressed { STEER_STEP as int } else { 0 })
        - (if input.move_left.pressed { STEER_STEP as int } else { 0 })
}

/// The steering rule.
pub open spec fn after_steer(p: PlayerModel, input: Input) -> PlayerModel {
    PlayerModel { x: p.x + steer_delta(input), ..p }
}

/// The run-modifier rule: its rising edge starts a run, its falling edge a
/// walk, on the ground or in the air alike. The rising edge wins over the
/// falling one.
pub open spec fn after_run_modifier(p: PlayerModel, input: Input) -> PlayerModel {
    if input.run_modifier.just_pressed {
        PlayerModel { state: PlayerState::Running, ..p }
    } else if input.run_modifier.just_released {
        PlayerModel { state: PlayerState::Walking, ..p }
    } else {
        p
    }
}

/// An airborne player at or below the floor touches down.
pub open spec fn touches_down(p: PlayerModel) -> bool {
    p.y <= GROUND_Y && !p.on_ground
}

/// The touch-down rule: the player is put on the floor and walks.
pub open spec fn after_touch_down(p: PlayerModel) -> PlayerModel {
    if touches_down(p) {
        PlayerModel { on_ground: true, state: PlayerState::Walking, y: GROUND_Y as int, ..p }
    } else {
        p
    }
}

/// One frame of the state machine: the four rules in order.
pub open spec fn movement_step(p: PlayerModel, input: Input) -> PlayerModel {
    after_touch_down(after_run_modifier(after_steer(after_jump(p, input), input), input))
}

/// The player touches down in the frame that starts from `p` with `input`.
pub open spec fn lands_this_frame(p: PlayerModel, input: Input) -> bool {
    touches_down(after_jump(p, input))
}

/// One frame of gravity: an airborne player sinks, in every state.
pub open spec fn gravity_step(p: PlayerModel) -> PlayerModel {
    if p.on_ground {
        p
    } else {
        PlayerModel { y: p.y - GRAVITY, ..p }
    }
}

/// One frame of the horizontal driver: the player advances at its state's speed.
pub open spec fn drive_step(p: PlayerModel) -> PlayerModel {
    PlayerModel { x: p.x + speed_of(p.state), ..p }
}

/// Runs the state machine for one frame.
pub fn player_movement(player: &mut Player, input: &Input)
    requires
        movement_step(old(player)@, *input).representable(),
    ensures
        final(player)@ == movement_step(old(player)@, *input),
{
    if input.jump.just_pressed && player.on_ground {
        player.on_ground = false;
        player.state = PlayerState::Jumping;
        player.position.y = player.position.y + JUMP_SPEED;
    } else if player.state == PlayerState::Jumping && input.jump.pressed {
        if player.position.y >= GROUND_Y + JUMP_HEIGHT - JUMP_SPEED {
            player.position.y = GROUND_Y + JUMP_HEIGHT;
            player.state = PlayerState::Falling;
        } else {
            player.position.y = player.position.y + JUMP_SPEED;
        }
    }
    if input.move_left.pressed && !input.move_right.pressed {
        player.position.x = player.position.x - STEER_STEP;
    } else if input.move_right.pressed && !input.move_left.pressed {
        player.position.x = player.position.x + STEER_STEP;
    }
    if input.run_modifier.just_pressed {
        player.state = PlayerState::Running;
    } else if input.run_modifier.just_released {
        player.state = PlayerState::Walking;
    }
    if player.position.y <= GROUND_Y && !player.on_ground {
        player.on_ground = true;
        player.position.y = GROUND_Y;
        player.state = PlayerState::Walking;
    }
}

/// Applies one frame of gravity.
pub fn apply_gravity(player: &mut Player)
    requires
        gravity_step(old(player)@).representable(),
    ensures
        final(player)@ == gravity_step(old(player)@),
{
    if !player.on_ground {
        player.position.y = player.position.y - GRAVITY;
    }
}

/// Advances the player horizontally at the speed of its state.
pub fn drive_horizontal(player: &mut Player)
    requires
        drive_step(old(player)@).representable(),
    ensures
        final(player)@ == drive_step(old(player)@),
{
    let speed: i64 = player.horizontal_speed();
    player.position.x = player.position.x + speed;
}

/// Pressing the run modifier in one frame and releasing it in the next gives
/// `Running` and then `Walking`, from every state, when nothing lands in the
/// first of the two frames.
pub proof fn lemma_run_press_then_release(p: PlayerModel, first: Input, second: Input)
    requires
        first.run_modifier.just_pressed,
        second.run_modifier.just_released,
        !second.run_modifier.just_pressed,
        !lands_this_frame(p, first),
    ensures
        movement_step(p, first).state == PlayerState::Running,
        movement_step(movement_step(p, first), second).state == PlayerState::Walking,
{
}

/// A newly pressed jump takes a player on the ground into the air within the
/// frame, in state `Jumping` unless the run modifier changes in the same frame.
pub proof fn lemma_jump_lifts_off(p: PlayerModel, input: Input)
    requires
        p.on_ground,
        p.y + JUMP_SPEED > GROUND_Y,
        input.jump.just_pressed,
    ensures
        !movement_step(p, input).on_ground,
        !input.run_modifier.just_pressed && !input.run_modifier.just_released
            ==> movement_step(p, input).state == PlayerState::Jumping,
        movement_step(p, input).y == p.y + JUMP_SPEED,
{
}

/// A jumping player whose jump is still held, and whose next rise would reach
/// the ceiling, is put at the ceiling and falls, unless the run modifier
/// changes in the same frame.
pub proof fn lemma_held_jump_turns_at_ceiling(p: PlayerModel, input: Input)
    requires
        !p.on_ground,
        p.state == PlayerState::Jumping,
        input.jump.pressed,
        p.y + JUMP_SPEED >= ceiling(),
    ensures
        movement_step(p, input).y == ceiling(),
        !movement_step(p, input).on_ground,
        !input.run_modifier.just_pressed && !input.run_modifier.just_released
            ==> movement_step(p, input).state == PlayerState::Falling,
{
}

/// An airborne player that has come down to ground level, and does not rise
/// in this frame, stands on the ground and walks at the end of it, whatever
/// the run modifier does.
pub proof fn lemma_touch_down(p: PlayerModel, input: Input)
    requires
        !p.on_ground,
        p.y <= GROUND_Y,
        !(p.state == PlayerState::Jumping && input.jump.pressed),
    ensures
        movement_step(p, input).on_ground,
        movement_step(p, input).state == PlayerState::Walking,
        movement_step(p, input).y == GROUND_Y,
{
}

/// Whatever the input, the player is on the ground after a frame exactly when
/// it stood there and did not jump, or touched down in that frame.
pub proof fn lemma_on_ground_after_step(p: PlayerModel, input: Input)
    ensures
        movement_step(p, input).on_ground <==> (p.on_ground && !input.jump.just_pressed)
            || lands_this_frame(p, input),
        lands_this_frame(p, input) ==> movement_step(p, input).y == GROUND_Y,
{
}

/// A player that is on the ground is at ground level and not jumping.
pub open spec fn stands_at_ground_level(p: PlayerModel) -> bool {
    p.on_ground ==> p.y == GROUND_Y && p.state != PlayerState::Jumping
}

/// After a frame of the state machine the player is on the ground exactly
/// when it is at ground level, provided that a player on the ground stood at
/// ground level before. Gravity and the horizontal driver keep a player on
/// the ground where it stands.
pub proof fn lemma_on_ground_iff_at_ground_level(p: PlayerModel, input: Input)
    requires
        stands_at_ground_level(p),
    ensures
        movement_step(p, input).on_ground <==> movement_step(p, input).y == GROUND_Y,
        stands_at_ground_level(movement_step(p, input)),
        stands_at_ground_level(gravity_step(p)),
        stands_at_ground_level(drive_step(p)),
{
}

/// For a player within the world's limit every rule of a frame, alone or one
/// after another, gives coordinates that can be stored.
pub proof fn lemma_within_world_fits(p: Player, input: Input)
    requires
        p@.within_world(),
    ensures
        movement_step(p@, input).representable(),
        gravity_step(p@).representable(),
        drive_step(p@).representable(),
        gravity_step(movement_step(p@, input)).representable(),
        drive_step(gravity_step(movement_step(p@, input))).representable(),
{
}

} // verus!
