//! The four logical input signals, as sampled once per frame.

use vstd::prelude::*;

verus! {

/// One signal: its level this frame and its two edges since the last frame.
#[derive(Debug, Clone, Copy, PartialEq, Eq, Structural)]
pub struct Signal {
    /// The signal is held during this frame.
    pub pressed: bool,
    /// The signal went from not held to held since the last frame.
    pub just_pressed: bool,
    /// The signal went from held to not held since the last frame.
    pub just_released: bool,
}

#[derive(Debug, Clone, Copy, PartialEq, Eq, Structural)]
pub struct Input {
    pub move_left: Signal,
    pub move_right: Signal,
    pub jump: Signal,
    pub run_modifier: Signal,
}

} // verus!
