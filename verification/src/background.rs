//! Scrolling the background: either two tiles that take turns, or parallax
//! layers driven by one camera movement per frame.

use vstd::prelude::*;
use crate::player::{Player, PlayerState, RUN_SPEED, WALK_SPEED};

verus! {

/// The camera movement announced each frame: a velocity per frame.
#[derive(Debug, Clone, Copy, PartialEq, Eq, Structural)]
pub struct CameraMove {
    pub speed_x: i64,
    pub speed_y: i64,
}

/// Horizontal camera speed that belongs to a state: the running speed while
/// running, the walking speed in every other state.
pub open spec fn camera_speed_of(state: PlayerState) -> int {
    if state == PlayerState::Running {
        RUN_SPEED as int
    } else {
        WALK_SPEED as int
    }
}

/// Chooses this frame's camera movement from the player's state. The
/// movement is horizontal only.
pub fn move_camera_system(player: &Player) -> (event: CameraMove)
    ensures
        event.speed_x == camera_speed_of(player.state),
        event.speed_y == 0,
{
    match player.state {
        PlayerState::Running => CameraMove { speed_x: RUN_SPEED, speed_y: 0 },
        _ => CameraMove { speed_x: WALK_SPEED, speed_y: 0 },
    }
}

/// One parallax layer. `horizontal_speed` is the layer's speed multiplier,
/// in tenths: the share of the camera movement that the layer takes.
#[derive(Debug, Clone, Copy, PartialEq, Eq, Structural)]
pub struct BackgroundLayer {
    pub horizontal_speed: i64,
    pub width: i64,
}

impl BackgroundLayer {
    /// Horizontal velocity of the layer under a camera movement, in
    /// hundredths of a world unit per frame: the camera's speed times the
    /// layer's share.
    pub open spec fn velocity_spec(&self, event: CameraMove) -> int {
        self.horizontal_speed * event.speed_x
    }

    /// Scales a camera movement by the layer's speed.
    pub fn velocity(&self, event: &CameraMove) -> (speed: i64)
        requires
            i64::MIN <= self.velocity_spec(*event) <= i64::MAX,
        ensures
            speed == self.velocity_spec(*event),
    {
        self.horizontal_speed * event.speed_x
    }
}

/// The four parallax layers, nearest first: their shares of the camera
/// movement and the width of their tiles.
pub fn parallax_layers() -> (layers: Vec<BackgroundLayer>)
    ensures
        layers@ == seq![
            BackgroundLayer { horizontal_speed: 1, width: 2880 },
            BackgroundLayer { horizontal_speed: 4, width: 2880 },
            BackgroundLayer { horizontal_speed: 9, width: 2880 },
            BackgroundLayer { horizontal_speed: 10, width: 2880 },
        ],
{
    let layers = vec![
        BackgroundLayer { horizontal_speed: 1, width: 2880 },
        BackgroundLayer { horizontal_speed: 4, width: 2880 },
        BackgroundLayer { horizontal_speed: 9, width: 2880 },
        BackgroundLayer { horizontal_speed: 10, width: 2880 },
    ];
    layers
}

/// Two background tiles of one width that take turns: the one that has
/// scrolled out on the left is put behind the other.
#[derive(Debug, Clone, Copy, PartialEq, Eq, Structural)]
pub struct TilePair {
    /// Left edge of the first tile.
    pub first_x: i64,
    /// Left edge of the second tile.
    pub second_x: i64,
    /// Width of either tile.
    pub width: i64,
    /// Where, relative to the camera, a tile counts as scrolled out.
    pub threshold: i64,
}

/// A tile pair over unbounded integers.
pub struct TileModel {
    pub first_x: int,
    pub second_x: int,
    pub width: int,
    pub threshold: int,
}

impl View for TilePair {
    type V = TileModel;

    open spec fn view(&self) -> TileModel {
        TileModel {
            first_x: self.first_x as int,
            second_x: self.second_x as int,
            width: self.width as int,
            threshold: self.threshold as int,
        }
    }
}

impl TileModel {
    /// The first tile is the leftmost one. Tiles at one place count in order.
    pub open spec fn first_is_leftmost(self) -> bool {
        self.first_x <= self.second_x
    }

    /// Right edge of the leftmost tile.
    pub open spec fn leftmost_right_edge(self) -> int {
        if self.first_is_leftmost() {
            self.first_x + self.width
        } else {
            self.second_x + self.width
        }
    }

    /// The leftmost tile's right edge lies left of the threshold line of a
    /// camera at `camera_x`.
    pub open spec fn scrolled_out(self, camera_x: int) -> bool {
        self.leftmost_right_edge() < camera_x + self.threshold
    }

    /// One frame of tiling: a leftmost tile that has scrolled out moves right
    /// by twice the width, once. Nothing else changes.
    pub open spec fn recycled(self, camera_x: int) -> TileModel {
        if !self.scrolled_out(camera_x) {
            self
        } else if self.first_is_leftmost() {
            TileModel { first_x: self.first_x + 2 * self.width, ..self }
        } else {
            TileModel { second_x: self.second_x + 2 * self.width, ..self }
        }
    }

    /// Both tile positions can be stored in a `TilePair`.
    pub open spec fn representable(self) -> bool {
        &&& i64::MIN <= self.first_x <= i64::MAX
        &&& i64::MIN <= self.second_x <= i64::MAX
    }
}

impl TilePair {
    /// Two tiles side by side, the first starting at `x`.
    pub fn new(x: i64, width: i64, threshold: i64) -> (tiles: TilePair)
        requires
            width > 0,
            x + width <= i64::MAX,
        ensures
            tiles@ == (TileModel {
                first_x: x as int,
                second_x: x + width,
                width: width as int,
                threshold: threshold as int,
            }),
    {
        TilePair { first_x: x, second_x: x + width, width, threshold }
    }

    /// Runs one frame of tiling for a camera at `camera_x`.
    pub fn recycle(&mut self, camera_x: i64)
        requires
            old(self).width > 0,
            old(self)@.recycled(camera_x as int).representable(),
        ensures
            final(self)@ == old(self)@.recycled(camera_x as int),
    {
        let line: i128 = camera_x as i128 + self.threshold as i128;
        if self.first_x <= self.second_x {
            if (self.first_x as i128 + self.width as i128) < line {
                self.first_x = self.first_x + self.width + self.width;
            }
        } else {
            if (self.second_x as i128 + self.width as i128) < line {
                self.second_x = self.second_x + self.width + self.width;
            }
        }
    }
}

/// With tiles of width `width` at 0 and at `width`, once the right edge of
/// the leftmost has passed the threshold line, one frame of tiling moves that
/// tile by exactly twice the width, to the far side of the other, which stays.
pub proof fn lemma_recycle_pair_from_origin(width: int, threshold: int, camera_x: int)
    requires
        width > 0,
        width < camera_x + threshold,
    ensures
        ({
            let tiles = TileModel { first_x: 0, second_x: width, width, threshold };
            tiles.recycled(camera_x) == (TileModel {
                first_x: 2 * width,
                second_x: width,
                width,
                threshold,
            })
        }),
{
}

/// One frame of tiling moves at most one tile, and that one by exactly twice
/// the width, however far the camera is ahead.
pub proof fn lemma_recycle_moves_once(tiles: TileModel, camera_x: int)
    ensures
        ({
            let after = tiles.recycled(camera_x);
            &&& after.width == tiles.width
            &&& after.threshold == tiles.threshold
            &&& if tiles.scrolled_out(camera_x) {
                if tiles.first_is_leftmost() {
                    after.first_x == tiles.first_x + 2 * tiles.width && after.second_x
                        == tiles.second_x
                } else {
                    after.second_x == tiles.second_x + 2 * tiles.width && after.first_x
                        == tiles.first_x
                }
            } else {
                after == tiles
            }
        }),
{
}

/// While the leftmost tile has not scrolled out, tiling changes nothing.
pub proof fn lemma_recycle_waits(tiles: TileModel, camera_x: int)
    requires
        !tiles.scrolled_out(camera_x),
    ensures
        tiles.recycled(camera_x) == tiles,
{
}

} // verus!
