//! Global key bindings checked ahead of the per-tick game systems.

use vstd::prelude::*;

verus! {

/// Whether the quit chord is held this tick: both the left control key and
/// the Q key. The host exits the game loop when this holds.
pub fn quit_requested(control_left_pressed: bool, q_pressed: bool) -> (quit: bool)
    ensures
        quit == (control_left_pressed && q_pressed),
{
    control_left_pressed && q_pressed
}

} // verus!
