//! Health upkeep for generic mortal entities (the player has its own death
//! pipeline): void-fall detection drains health, and the kill check despawns
//! an entity once it is dead. There is no event indirection here because
//! nothing respawns.

use vstd::prelude::*;

use crate::components::Health;

verus! {

/// The height below which a mortal entity is considered to have fallen out
/// of the world, in thousandths of a unit.
#[derive(Clone, Copy, PartialEq, Eq, Structural, Debug)]
pub struct VoidHeight(pub i64);

impl Default for VoidHeight {
    fn default() -> (v: VoidHeight)
        ensures
            v.0 == -300_000,
    {
        VoidHeight(-300_000)
    }
}

/// Void-death detection for one mortal entity: at or below the void height
/// its current health drains to zero this tick, otherwise nothing changes.
pub fn void_death_system(translation_y_milli: i64, void_height: &VoidHeight, health: &mut Health)
    ensures
        translation_y_milli <= void_height.0 ==> {
            &&& final(health).current == 0
            &&& final(health).default == old(health).default
        },
        translation_y_milli > void_height.0 ==> *final(health) == *old(health),
{
    if translation_y_milli <= void_height.0 {
        health.current = 0;
    }
}

/// The kill check for one mortal entity: it is despawned exactly when its
/// health says it is dead.
pub fn kill_system(health: &Health) -> (despawn: bool)
    ensures
        despawn == (health.current < 0),
{
    health.is_dead()
}

} // verus!
