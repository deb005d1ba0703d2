//! The player record and the constants of the world it lives in.

use vstd::prelude::*;

verus! {

/// Vertical coordinate of the floor.
pub const GROUND_Y: i64 = -640;

/// Horizontal distance covered per frame while walking, jumping or falling.
pub const WALK_SPEED: i64 = 10;

/// Horizontal distance covered per frame while running.
pub const RUN_SPEED: i64 = 15;

/// Vertical distance lost per frame while airborne.
pub const GRAVITY: i64 = 98;

/// Height of a jump's ceiling above the floor.
pub const JUMP_HEIGHT: i64 = 1220;

/// Vertical distance gained per frame while a jump is rising.
pub const JUMP_SPEED: i64 = 147;

/// Horizontal distance added per frame by a held movement key.
pub const STEER_STEP: i64 = 20;

/// Coordinates no further than this from the origin leave room for every
/// rule of a frame.
pub const WORLD_LIMIT: i64 = 1_000_000_000_000;

/// Depth at which the player is drawn.
pub const PLAYER_Z: i64 = 15;

#[derive(Debug, Clone, Copy, PartialEq, Eq, Structural)]
pub enum PlayerState {
    Idle,
    Walking,
    Jumping,
    Running,
    Falling,
}

#[derive(Debug, Clone, Copy, PartialEq, Eq, Structural)]
pub struct Position {
    pub x: i64,
    pub y: i64,
    pub z: i64,
}

#[derive(Debug, Clone, Copy, PartialEq, Eq, Structural)]
pub struct Player {
    pub on_ground: bool,
    pub state: PlayerState,
    pub position: Position,
}

/// A player whose coordinates are unbounded integers: what the rules are stated over.
pub struct PlayerModel {
    pub on_ground: bool,
    pub state: PlayerState,
    pub x: int,
    pub y: int,
    pub z: int,
}

impl PlayerModel {
    /// The player is no further than `WORLD_LIMIT` from the origin, along
    /// either axis of movement.
    pub open spec fn within_world(self) -> bool {
        &&& -WORLD_LIMIT <= self.x <= WORLD_LIMIT
        &&& -WORLD_LIMIT <= self.y <= WORLD_LIMIT
    }

    /// Every coordinate can be stored in a `Player`.
    pub open spec fn representable(self) -> bool {
        &&& i64::MIN <= self.x <= i64::MAX
        &&& i64::MIN <= self.y <= i64::MAX
        &&& i64::MIN <= self.z <= i64::MAX
    }
}

impl View for Player {
    type V = PlayerModel;

    open spec fn view(&self) -> PlayerModel {
        PlayerModel {
            on_ground: self.on_ground,
            state: self.state,
            x: self.position.x as int,
            y: self.position.y as int,
            z: self.position.z as int,
        }
    }
}

/// Horizontal distance per frame that belongs to a state.
pub open spec fn speed_of(state: PlayerState) -> int {
    match state {
        PlayerState::Idle => 0,
        PlayerState::Running => RUN_SPEED as int,
        _ => WALK_SPEED as int,
    }
}

impl Player {
    /// A player standing at `x` on the floor, walking.
    pub fn new(x: i64) -> (player: Player)
        ensures
            player@ == (PlayerModel {
                on_ground: true,
                state: PlayerState::Walking,
                x: x as int,
                y: GROUND_Y as int,
                z: PLAYER_Z as int,
            }),
    {
        Player {
            on_ground: true,
            state: PlayerState::Walking,
            position: Position { x, y: GROUND_Y, z: PLAYER_Z },
        }
    }

    /// Tells whether the player is within `WORLD_LIMIT` of the origin.
    pub fn within_world(&self) -> (within: bool)
        ensures
            within == self@.within_world(),
    {
        -WORLD_LIMIT <= self.position.x && self.position.x <= WORLD_LIMIT && -WORLD_LIMIT
            <= self.position.y && self.position.y <= WORLD_LIMIT
    }

    /// Horizontal distance that the player's state moves it each frame.
    pub fn horizontal_speed(&self) -> (speed: i64)
        ensures
            speed == speed_of(self.state),
    {
        match self.state {
            PlayerState::Idle => 0,
            PlayerState::Running => RUN_SPEED,
            _ => WALK_SPEED,
        }
    }
}

} // verus!
