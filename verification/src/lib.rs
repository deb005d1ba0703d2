//! Frame-by-frame rules of a side-scrolling platformer: the player's state
//! machine, sprite animation, gravity, and background scrolling.
//!
//! All lengths and speeds are whole numbers of tenths of a world unit, and all
//! times are whole nanoseconds, so every rule is exact integer arithmetic.

pub mod player;
pub mod input;
pub mod movement;
pub mod clock;
pub mod animation;
pub mod background;
pub mod game;
