//! A per-tick immutable record of the control intents, decoupling the
//! simulation from any live input-polling mechanism.

use vstd::prelude::*;

verus! {

/// Which controls are held this tick, and which fire-once intents were
/// freshly pressed this tick.
#[derive(Clone, Copy, PartialEq, Eq, Structural, Debug)]
pub struct InputSnapshot {
    pub left: bool,
    pub right: bool,
    pub up: bool,
    pub down: bool,
    pub jump_pressed: bool,
    pub fire_pressed: bool,
}

impl InputSnapshot {
    /// The snapshot with no control active.
    pub fn idle() -> (r: InputSnapshot)
        ensures
            r == (InputSnapshot {
                left: false,
                right: false,
                up: false,
                down: false,
                jump_pressed: false,
                fire_pressed: false,
            }),
    {
        InputSnapshot {
            left: false,
            right: false,
            up: false,
            down: false,
            jump_pressed: false,
            fire_pressed: false,
        }
    }
}

} // verus!
