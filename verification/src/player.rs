//! The player entity: its markers, facing, death causes, and the two-stage
//! death pipeline. Detection drains health and emits a `PlayerDeath` event;
//! a separate consumer despawns the entity and requests a respawn, so a
//! spawn never happens re-entrantly during a despawn.

use vstd::prelude::*;

use crate::components::Health;

verus! {

/// The player falls out of the world once its height drops to this level,
/// in thousandths of a unit.
pub const PLAYER_VOID_HEIGHT_MILLI: i64 = -200_000;

/// Marker for the player entity.
#[derive(Clone, Copy, PartialEq, Eq, Structural, Debug, Default)]
pub struct Player;

/// Which way the player faces. Sprites are drawn facing right, so a
/// left-facing player has its sprite mirrored.
#[derive(Clone, Copy, PartialEq, Eq, Structural, Debug)]
pub enum Direction {
    L,
    R,
}

impl Default for Direction {
    fn default() -> (d: Direction)
        ensures
            d == Direction::R,
    {
        Direction::R
    }
}

impl Direction {
    /// Whether the sprite should be flipped, reliant on the basis that the
    /// sprites are originally drawn facing right.
    pub fn should_flip_sprite(&self) -> (flip: bool)
        ensures
            flip == (*self is L),
    {
        match self {
            Direction::R => false,
            _ => true,
        }
    }
}

/// Why the player died.
#[derive(Clone, Copy, PartialEq, Eq, Structural, Debug)]
pub enum PlayerDeathCause {
    Void,
    Unknown,
}

/// The event emitted when the player dies: the entity to despawn and the
/// cause the host logs.
#[derive(Clone, Copy, PartialEq, Eq, Structural, Debug)]
pub struct PlayerDeath {
    pub e: u64,
    pub cause: PlayerDeathCause,
}

/// A request to (re)spawn the player.
#[derive(Clone, Copy, PartialEq, Eq, Structural, Debug, Default)]
pub struct SpawnPlayerEvent;

/// Marker resource recording that the initial player spawn has been set up.
#[derive(Clone, Copy, PartialEq, Eq, Structural, Debug, Default)]
pub struct PlayerInitalSpawn;

/// Void-death detection for the player, run once per tick while the player
/// entity exists.
///
/// When the player's height has fallen to the void level, its current health
/// is drained to zero on that same tick and exactly one `PlayerDeath` event
/// with cause `Void` is emitted; above the void level nothing changes. The
/// consumer despawns the entity, so the check cannot fire again for the same
/// fall.
pub fn player_void_death(translation_y_milli: i64, health: &mut Health, entity: u64) -> (death:
    Option<PlayerDeath>)
    ensures
        translation_y_milli <= PLAYER_VOID_HEIGHT_MILLI ==> {
            &&& final(health).current == 0
            &&& final(health).default == old(health).default
            &&& death == Some(PlayerDeath { e: entity, cause: PlayerDeathCause::Void })
        },
        translation_y_milli > PLAYER_VOID_HEIGHT_MILLI ==> {
            &&& *final(health) == *old(health)
            &&& death is None
        },
{
    if translation_y_milli <= PLAYER_VOID_HEIGHT_MILLI {
        health.current = 0;
        Some(PlayerDeath { e: entity, cause: PlayerDeathCause::Void })
    } else {
        None
    }
}

/// The death consumer: for every `PlayerDeath` event of the tick, the dead
/// entity is despawned and one respawn is requested. Returns the entities to
/// despawn, in event order, and the spawn requests — one per death.
pub fn player_death(events: &Vec<PlayerDeath>) -> (out: (Vec<u64>, Vec<SpawnPlayerEvent>))
    ensures
        out.0@.len() == events@.len(),
        forall|i: int| 0 <= i < events@.len() ==> out.0@[i] == events@[i].e,
        out.1@.len() == events@.len(),
{
    let mut despawn: Vec<u64> = Vec::new();
    let mut respawn: Vec<SpawnPlayerEvent> = Vec::new();
    let mut i: usize = 0;
    while i < events.len()
        invariant
            0 <= i <= events@.len(),
            despawn@.len() == i,
            forall|j: int| 0 <= j < i ==> despawn@[j] == events@[j].e,
            respawn@.len() == i,
        decreases events@.len() - i,
    {
        despawn.push(events[i].e);
        respawn.push(SpawnPlayerEvent);
        i = i + 1;
    }
    (despawn, respawn)
}

} // verus!
