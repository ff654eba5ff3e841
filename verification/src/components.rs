//! Components shared by several entity kinds: health, animation sprite
//! ranges, facing direction, and the markers that tag animatable and mortal
//! entities.

use vstd::prelude::*;

verus! {

/// Health in thousandths of a hit point. An entity is dead once its current
/// health has gone strictly below zero; a current health of exactly zero is
/// the "just drained" state that the void sets.
#[derive(Clone, Copy, PartialEq, Eq, Structural, Debug)]
pub struct Health {
    pub default: i64,
    pub current: i64,
}

impl Health {
    /// A fresh health pool: current health starts at the default amount.
    pub fn new(amount: i64) -> (h: Health)
        ensures
            h.default == amount,
            h.current == amount,
    {
        Health { default: amount, current: amount }
    }

    /// Whether the entity has been killed: current health strictly below zero.
    pub fn is_dead(&self) -> (dead: bool)
        ensures
            dead == (self.current < 0),
    {
        self.current < 0
    }
}

/// Marker for entities that die and are despawned when their health runs out.
#[derive(Clone, Copy, PartialEq, Eq, Structural, Debug)]
pub struct Mortal;

/// Marker for entities whose sprite frames are advanced by the animation
/// player.
#[derive(Clone, Copy, PartialEq, Eq, Structural, Debug)]
pub struct Animatable;

/// The contiguous range of sprite-sheet indices that one animation plays,
/// inclusive on both ends.
#[derive(Clone, Copy, PartialEq, Eq, Structural, Debug)]
pub struct SpriteIndices {
    pub first_sprite: usize,
    pub last_sprite: usize,
}

impl SpriteIndices {
    pub fn new(first_sprite: usize, last_sprite: usize) -> (s: SpriteIndices)
        ensures
            s.first_sprite == first_sprite,
            s.last_sprite == last_sprite,
    {
        SpriteIndices { first_sprite, last_sprite }
    }
}

/// Which way an entity is facing. Sprites are drawn facing right, so a
/// left-facing entity has its sprite mirrored.
#[derive(Clone, Copy, PartialEq, Eq, Structural, Debug)]
pub enum EntityDirection {
    L,
    R,
}

impl Default for EntityDirection {
    fn default() -> (d: EntityDirection)
        ensures
            d == EntityDirection::R,
    {
        EntityDirection::R
    }
}

/// Whether the sprite of an entity facing `direction` must be mirrored.
/// Mirror state is a pure function of the facing direction.
pub fn flip_sprite(direction: &EntityDirection) -> (flip_x: bool)
    ensures
        flip_x == (direction is L),
{
    match direction {
        EntityDirection::L => true,
        EntityDirection::R => false,
    }
}

} // verus!
