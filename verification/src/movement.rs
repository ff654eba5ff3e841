//! The player movement controller and the animation state machine.
//!
//! Each simulation tick the controller turns the sampled key state into one
//! `MotionCommand` for the physics character controller, and the state
//! machine derives a discrete `AnimationState` from the speed the controller
//! reports back, swapping the animation configuration only when that state
//! changes.

use vstd::prelude::*;

use crate::animation::AnimationConfig;
use crate::animation::FrameTimer;
use crate::components::EntityDirection;

verus! {

/// Base horizontal speed, in thousandths of a unit per second.
pub const MOVEMENT_FACTOR_MILLI: i64 = 50_000;

/// Holding a sprint key multiplies the intended speed by this factor.
pub const SPRINT_FACTOR: i64 = 3;

/// Ride height of the character controller, in thousandths of a unit: half
/// the player's height plus a small hover margin.
pub const FLOAT_HEIGHT_MILLI: i64 = 14_300;

/// Horizontal acceleration limit, in thousandths of a unit per second squared.
pub const ACCELERATION_MILLI: i64 = 50_000;

/// Airborne acceleration limit: this controller steers equally well in the
/// air, in thousandths of a unit per second squared.
pub const AIR_ACCELERATION_MILLI: i64 = 50_000;

/// Jump apex height, in thousandths of a unit.
pub const JUMP_HEIGHT_MILLI: i64 = 24_000;

/// Reported speeds at or above this are running, in thousandths of a unit
/// per second.
pub const RUNNING_MIN_MILLI: i64 = 80_000;

/// Reported speeds below this are standing still, in thousandths of a unit
/// per second.
pub const WALKING_MIN_MILLI: i64 = 100;

/// The key state sampled for one tick.
#[derive(Clone, Copy, PartialEq, Eq, Structural, Debug)]
pub struct KeyState {
    pub left: bool,
    pub right: bool,
    pub sprint: bool,
    pub jump: bool,
}

/// The one command the controller sends to the physics character controller
/// each tick. Movement never mutates velocity directly; the physics engine
/// owns integration, collision and grounding.
#[derive(Clone, Copy, PartialEq, Eq, Structural, Debug)]
pub struct MotionCommand {
    /// Desired horizontal velocity, signed, in thousandths of a unit per
    /// second.
    pub desired_velocity_x: i64,
    pub float_height: i64,
    pub acceleration: i64,
    pub air_acceleration: i64,
    /// Raised only on the rising edge of a jump key while grounded.
    pub jump_requested: bool,
    pub jump_height: i64,
}

/// What the physics character controller reports back: the magnitude of the
/// running velocity, in thousandths of a unit per second, and whether the
/// controller stands on something.
#[derive(Clone, Copy, PartialEq, Eq, Structural, Debug)]
pub struct ControllerFeedback {
    pub running_speed_milli: u64,
    pub standing_on_something: bool,
}

/// The horizontal direction the keys ask for this tick, if any. When both
/// direction keys are held, right takes precedence: the right key is examined
/// first and the left key only otherwise.
pub open spec fn spec_intended_direction(keys: KeyState) -> Option<EntityDirection> {
    if keys.right {
        Some(EntityDirection::R)
    } else if keys.left {
        Some(EntityDirection::L)
    } else {
        None
    }
}

/// The facing committed after a tick: the intended direction when there is
/// one, otherwise the facing is left as it was.
pub open spec fn spec_new_facing(prev: EntityDirection, keys: KeyState) -> EntityDirection {
    match spec_intended_direction(keys) {
        Some(d) => d,
        None => prev,
    }
}

/// The sign of the intended horizontal velocity: +1 right, -1 left, 0 idle.
pub open spec fn spec_intent_sign(keys: KeyState) -> int {
    if keys.right {
        1
    } else if keys.left {
        -1
    } else {
        0
    }
}

/// The magnitude of the intended horizontal velocity, in thousandths of a
/// unit per second.
pub open spec fn spec_speed_magnitude(keys: KeyState) -> int {
    if keys.sprint {
        SPRINT_FACTOR * MOVEMENT_FACTOR_MILLI
    } else {
        MOVEMENT_FACTOR_MILLI as int
    }
}

/// One tick of the movement controller.
///
/// Combines the key state into the tick's `MotionCommand`, commits the new
/// facing, and derives the jump request from the rising edge of the jump key:
/// a jump fires only when the key was up on the previous tick and the
/// controller stands on something, so a held key never repeats the jump.
pub fn move_player(
    keys: &KeyState,
    grounded: bool,
    direction: &mut EntityDirection,
    jump_was_held: &mut bool,
) -> (cmd: MotionCommand)
    ensures
        *final(direction) == spec_new_facing(*old(direction), *keys),
        *final(jump_was_held) == keys.jump,
        cmd.desired_velocity_x == spec_intent_sign(*keys) * spec_speed_magnitude(*keys),
        cmd.float_height == FLOAT_HEIGHT_MILLI,
        cmd.acceleration == ACCELERATION_MILLI,
        cmd.air_acceleration == AIR_ACCELERATION_MILLI,
        cmd.jump_height == JUMP_HEIGHT_MILLI,
        cmd.jump_requested == (keys.jump && !*old(jump_was_held) && grounded),
{
    let mut sign: i64 = 0;

    if keys.right {
        sign = 1;
        *direction = EntityDirection::R;
    } else if keys.left {
        sign = -1;
        *direction = EntityDirection::L;
    }

    let magnitude: i64 = if keys.sprint {
        SPRINT_FACTOR * MOVEMENT_FACTOR_MILLI
    } else {
        MOVEMENT_FACTOR_MILLI
    };

    let jump_requested = keys.jump && !*jump_was_held && grounded;
    *jump_was_held = keys.jump;

    MotionCommand {
        desired_velocity_x: sign * magnitude,
        float_height: FLOAT_HEIGHT_MILLI,
        acceleration: ACCELERATION_MILLI,
        air_acceleration: AIR_ACCELERATION_MILLI,
        jump_requested,
        jump_height: JUMP_HEIGHT_MILLI,
    }
}

/// The facing flips on a tick if and only if the keys intend a horizontal
/// direction and it differs from the facing committed on the previous tick;
/// with no horizontal intent the facing never changes.
pub proof fn lemma_facing_flips_iff(prev: EntityDirection, keys: KeyState)
    ensures
        (spec_new_facing(prev, keys) != prev) <==> (spec_intended_direction(keys) matches Some(d)
            && d != prev),
{
}

/// The discrete state the player's animation is in, derived from how fast
/// the character controller reports it is actually moving.
#[derive(Clone, Copy, PartialEq, Eq, Structural, Debug)]
pub enum AnimationState {
    Idle,
    Walking,
    Running,
}

/// The animation state is a pure function of the reported speed against the
/// two fixed thresholds.
pub open spec fn spec_animation_state(speed_milli: int) -> AnimationState {
    if speed_milli < WALKING_MIN_MILLI {
        AnimationState::Idle
    } else if speed_milli < RUNNING_MIN_MILLI {
        AnimationState::Walking
    } else {
        AnimationState::Running
    }
}

/// Classifies a reported speed, in thousandths of a unit per second.
pub fn animation_state_for_speed(speed_milli: u64) -> (state: AnimationState)
    ensures
        state == spec_animation_state(speed_milli as int),
{
    if speed_milli < WALKING_MIN_MILLI as u64 {
        AnimationState::Idle
    } else if speed_milli < RUNNING_MIN_MILLI as u64 {
        AnimationState::Walking
    } else {
        AnimationState::Running
    }
}

/// The animation state depends on the reported speed alone: below the
/// walking threshold the player stands idle, from there up to the running
/// threshold it walks, and at or above the running threshold it runs.
pub proof fn lemma_animation_state_bands(speed_milli: int)
    ensures
        0 <= speed_milli < WALKING_MIN_MILLI ==> spec_animation_state(speed_milli) is Idle,
        WALKING_MIN_MILLI <= speed_milli < RUNNING_MIN_MILLI ==> spec_animation_state(speed_milli)
            is Walking,
        speed_milli >= RUNNING_MIN_MILLI ==> spec_animation_state(speed_milli) is Running,
{
}

/// The previously observed animation state of one entity. Keeping it makes
/// state changes edge-triggered: the animation configuration is replaced
/// only on the tick the state differs from the last observed one.
#[derive(Clone, Copy, PartialEq, Eq, Structural, Debug)]
pub struct AnimatingState {
    pub prev: Option<AnimationState>,
}

impl Default for AnimatingState {
    /// Before the first observation no state has been seen, so the first
    /// observed state always counts as a change.
    fn default() -> (s: AnimatingState)
        ensures
            s.prev is None,
    {
        AnimatingState { prev: None }
    }
}

/// The fixed animation for each state, chosen once at startup and read-only
/// afterwards.
#[derive(Clone, Copy, PartialEq, Eq, Structural, Debug)]
pub struct PlayerAnimationPresets {
    pub idle: AnimationConfig,
    pub walk: AnimationConfig,
    pub run: AnimationConfig,
}

impl PlayerAnimationPresets {
    pub open spec fn wf(self) -> bool {
        &&& self.idle.wf()
        &&& self.walk.wf()
        &&& self.run.wf()
    }

    /// The startup presets: idle plays sprites 0..=7 at 2 frames per second,
    /// walk plays 16..=19 at 7, run plays 24..=31 at 9; each timer starts at
    /// one full frame and no preset starts marked as changed.
    pub open spec fn spec_default() -> PlayerAnimationPresets {
        PlayerAnimationPresets {
            idle: AnimationConfig {
                first: 0,
                last: 7,
                fps: 2,
                frame_timer: FrameTimer { remaining_micros: 500_000 },
                animation_changed: false,
            },
            walk: AnimationConfig {
                first: 16,
                last: 19,
                fps: 7,
                frame_timer: FrameTimer { remaining_micros: 142_857 },
                animation_changed: false,
            },
            run: AnimationConfig {
                first: 24,
                last: 31,
                fps: 9,
                frame_timer: FrameTimer { remaining_micros: 111_111 },
                animation_changed: false,
            },
        }
    }
}

impl Default for PlayerAnimationPresets {
    fn default() -> (p: PlayerAnimationPresets)
        ensures
            p == PlayerAnimationPresets::spec_default(),
            p.wf(),
    {
        PlayerAnimationPresets {
            idle: AnimationConfig::new(0, 7, 2, None),
            walk: AnimationConfig::new(16, 19, 7, None),
            run: AnimationConfig::new(24, 31, 9, None),
        }
    }
}

/// The preset an animation state selects.
pub open spec fn spec_preset_for(presets: PlayerAnimationPresets, state: AnimationState)
    -> AnimationConfig {
    match state {
        AnimationState::Idle => presets.idle,
        AnimationState::Walking => presets.walk,
        AnimationState::Running => presets.run,
    }
}

/// One tick of the animation state machine for the player.
///
/// With no feedback from the physics controller (not yet initialized this
/// tick) nothing is touched. Otherwise the reported speed is classified; on
/// the tick the state differs from the last observed one — and only then —
/// the animation configuration is replaced wholesale by the preset for the
/// new state with the animation-changed flag raised. While the state merely
/// persists, the configuration is left alone, so the frame timer is never
/// restarted mid-animation.
pub fn animate_player(
    animating_state: &mut AnimatingState,
    feedback: Option<ControllerFeedback>,
    presets: &PlayerAnimationPresets,
    config: &mut AnimationConfig,
) -> (swapped: bool)
    ensures
        feedback is None ==> {
            &&& *final(animating_state) == *old(animating_state)
            &&& *final(config) == *old(config)
            &&& !swapped
        },
        feedback matches Some(fb) ==> {
            let new_state = spec_animation_state(fb.running_speed_milli as int);
            &&& *final(animating_state) == (AnimatingState { prev: Some(new_state) })
            &&& swapped == (old(animating_state).prev != Some(new_state))
            &&& swapped ==> *final(config) == (AnimationConfig {
                animation_changed: true,
                ..spec_preset_for(*presets, new_state)
            })
            &&& !swapped ==> *final(config) == *old(config)
        },
{
    let fb = match feedback {
        Some(fb) => fb,
        None => {
            return false;
        },
    };

    let new_state = animation_state_for_speed(fb.running_speed_milli);
    let maintained = match animating_state.prev {
        Some(p) => p == new_state,
        None => false,
    };
    animating_state.prev = Some(new_state);

    if maintained {
        return false;
    }

    *config = match new_state {
        AnimationState::Idle => presets.idle,
        AnimationState::Walking => presets.walk,
        AnimationState::Running => presets.run,
    };
    config.animation_changed = true;
    true
}

/// An order from the level loader to snap the camera onto the player, sent
/// when play crosses a level seam so the camera never interpolates across it.
#[derive(Clone, Copy, PartialEq, Eq, Structural, Debug, Default)]
pub struct SyncCameraWithPlayer;

} // verus!
