//! Core logic of a 2D side-scrolling platformer: the player movement
//! controller, the animation state machine and frame playback, death and
//! respawn handling, level transitions, and per-level settings resolution.
//!
//! The engine substrate (entity storage, physics simulation, asset loading,
//! rendering) is an external collaborator; this crate holds the decision
//! logic that runs between those services, stated over plain integer data.
//! Continuous quantities (positions, velocities, health) are carried in
//! thousandths of a world unit so that every rule is exact.

pub mod animation;
pub mod camera;
pub mod components;
pub mod error;
pub mod fields;
pub mod health;
pub mod level;
pub mod level_settings;
pub mod menu;
pub mod movement;
pub mod player;
pub mod util;
pub mod world;
