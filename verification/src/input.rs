//! The per-frame input snapshot: pointer position, button level states and
//! the edit keys the text field reacts to.  The snapshot is supplied by the
//! surrounding application loop once per frame; the core never polls
//! devices.

use vstd::prelude::*;
use crate::geometry::Point;

verus! {

/// The level state of a mouse button, sampled once per frame.  Transitions
/// are inferred by comparing against the state persisted from the previous
/// frame.
#[derive(Clone, Copy, Debug, PartialEq, Eq, Structural)]
pub enum ButtonState {
    Up,
    Down,
}

/// The pointer's sampled state for one frame.
#[derive(Clone, Copy, Debug, PartialEq, Eq, Structural)]
pub struct Mouse {
    pub pos: Point,
    pub left: ButtonState,
    pub right: ButtonState,
}

/// The navigation and edit keys the text field understands.  Any other
/// pressed key is reported as `Other` and ignored.
#[derive(Clone, Copy, Debug, PartialEq, Eq, Structural)]
pub enum Key {
    Backspace,
    Left,
    Right,
    Return,
    Other,
}

} // verus!
