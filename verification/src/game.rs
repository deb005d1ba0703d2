//! The whole game state and the fixed order in which a frame updates it.

use vstd::prelude::*;
use crate::animation::{
    AnimationIndices, FALL_LAST, WALK_FIRST, animate_sprite, change_animation, frame_after_change,
    frame_after_tick, range_after_change,
};
use crate::background::{CameraMove, camera_speed_of, move_camera_system};
use crate::clock::{ANIMATION_PERIOD, AnimationTimer, carried_over};
use crate::input::Input;
use crate::movement::{
    apply_gravity, drive_step, gravity_step, movement_step, player_movement, stands_at_ground_level,
};
use crate::player::{GROUND_Y, PLAYER_Z, Player, PlayerModel, PlayerState};

verus! {

/// The one player, the range of frames that shows it, the frame displayed,
/// and the countdown that paces the animation.
#[derive(Debug, Clone, Copy, PartialEq, Eq, Structural)]
pub struct Game {
    pub player: Player,
    pub indices: AnimationIndices,
    pub frame: usize,
    pub timer: AnimationTimer,
}

/// The player after the state machine and gravity, before it is driven on.
pub open spec fn settled_player(p: PlayerModel, input: Input) -> PlayerModel {
    gravity_step(movement_step(p, input))
}

impl Game {
    /// The range is not empty, the displayed frame lies in it, the countdown
    /// is within its period, and a player on the ground is at ground level.
    pub open spec fn wf(&self) -> bool {
        &&& self.indices.wf()
        &&& self.indices.contains(self.frame as int)
        &&& self.timer.wf()
        &&& stands_at_ground_level(self.player@)
    }

    /// The player's coordinates stay storable through every stage of a frame
    /// with this input.
    pub open spec fn can_update(&self, input: Input) -> bool {
        &&& movement_step(self.player@, input).representable()
        &&& settled_player(self.player@, input).representable()
        &&& drive_step(settled_player(self.player@, input)).representable()
    }

    /// The state at startup: the player walks on the floor at the origin, the
    /// whole sprite sheet is the active range, its first frame is displayed,
    /// and the countdown starts with the animation's period.
    pub fn setup() -> (game: Game)
        ensures
            game.wf(),
            game.player@ == (PlayerModel {
                on_ground: true,
                state: PlayerState::Walking,
                x: 0,
                y: GROUND_Y as int,
                z: PLAYER_Z as int,
            }),
            game.indices == (AnimationIndices { first: WALK_FIRST, last: FALL_LAST }),
            game.frame == WALK_FIRST,
            game.timer == (AnimationTimer { period: ANIMATION_PERIOD, elapsed: 0 }),
    {
        Game {
            player: Player::new(0),
            indices: AnimationIndices { first: WALK_FIRST, last: FALL_LAST },
            frame: WALK_FIRST,
            timer: AnimationTimer::new(ANIMATION_PERIOD),
        }
    }

    /// Runs one frame, `delta` nanoseconds long, in this order: state
    /// machine, gravity, change of the animation range, animation step and
    /// horizontal driver, camera movement. Returns the camera movement.
    pub fn update(&mut self, input: &Input, delta: u64) -> (event: CameraMove)
        requires
            old(self).wf(),
            old(self).can_update(*input),
        ensures
            final(self).wf(),
            final(self).player@ == drive_step(settled_player(old(self).player@, *input)),
            final(self).indices == range_after_change(old(self).indices, final(self).player.state),
            final(self).frame == frame_after_tick(
                final(self).indices,
                final(self).player.state,
                old(self).timer.period as int,
                old(self).timer.elapsed as int,
                frame_after_change(
                    old(self).indices,
                    final(self).player.state,
                    old(self).frame as int,
                ),
                delta as int,
            ),
            final(self).timer.period == old(self).timer.period,
            final(self).timer.elapsed == carried_over(
                old(self).timer.period as int,
                old(self).timer.elapsed as int,
                delta as int,
            ),
            event.speed_x == camera_speed_of(final(self).player.state),
            event.speed_y == 0,
    {
        player_movement(&mut self.player, input);
        apply_gravity(&mut self.player);
        change_animation(&self.player, &mut self.frame, &mut self.indices);
        animate_sprite(delta, &self.indices, &mut self.timer, &mut self.frame, &mut self.player);
        move_camera_system(&self.player)
    }
}

/// A game whose player is within the world's limit can be updated with any
/// input.
pub proof fn lemma_within_world_can_update(game: Game, input: Input)
    requires
        game.player@.within_world(),
    ensures
        game.can_update(input),
{
    crate::movement::lemma_within_world_fits(game.player, input);
}

} // verus!
