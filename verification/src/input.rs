//! The per-tick input snapshot the driver hands to the simulation:
//! level-triggered "held" flags for the four directional keys, and
//! edge-triggered "newly pressed" flags for the keys the menus and
//! the spawner consume.

use vstd::prelude::*;

verus! {

/// What the input collaborator read this tick.
#[derive(Clone, Copy, PartialEq, Eq, Structural, Debug)]
pub struct InputState {
    /// Directional key held, level-triggered: moves the player.
    pub held_left: bool,
    pub held_right: bool,
    pub held_up: bool,
    pub held_down: bool,
    /// Directional key newly pressed, edge-triggered: moves a menu
    /// selection.
    pub press_left: bool,
    pub press_right: bool,
    /// Fire key newly pressed: spawns a player shot in Playing and is
    /// the generic "continue" key on the Result screen.
    pub press_fire: bool,
    /// Confirm key newly pressed: consumes the active menu selection.
    pub press_confirm: bool,
}

impl InputState {
    /// A tick on which no key is held and none was newly pressed.
    pub fn idle() -> (r: InputState)
        ensures
            r == (InputState {
                held_left: false,
                held_right: false,
                held_up: false,
                held_down: false,
                press_left: false,
                press_right: false,
                press_fire: false,
                press_confirm: false,
            }),
    {
        InputState {
            held_left: false,
            held_right: false,
            held_up: false,
            held_down: false,
            press_left: false,
            press_right: false,
            press_fire: false,
            press_confirm: false,
        }
    }
}

} // verus!
