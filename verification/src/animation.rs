//! Sprite animation playback: a one-shot frame timer measured in
//! microseconds, the per-entity animation configuration, and the system that
//! advances the sprite index each time the timer completes.

use vstd::prelude::*;

verus! {

pub const MICROS_PER_SECOND: u64 = 1_000_000;

/// A one-shot countdown. It completes on the tick during which the remaining
/// time reaches zero, and stays idle afterwards until it is rebuilt.
#[derive(Clone, Copy, PartialEq, Eq, Structural, Debug)]
pub struct FrameTimer {
    pub remaining_micros: u64,
}

impl FrameTimer {
    pub fn new(duration_micros: u64) -> (t: FrameTimer)
        ensures
            t.remaining_micros == duration_micros,
    {
        FrameTimer { remaining_micros: duration_micros }
    }

    /// Whether the countdown has already reached zero.
    pub fn finished(&self) -> (done: bool)
        ensures
            done == (self.remaining_micros == 0),
    {
        self.remaining_micros == 0
    }

    /// Advances the countdown by `delta_micros`. Returns true exactly when
    /// this call is the one that completes the countdown; a timer that was
    /// already finished reports false, so completion fires once.
    pub fn tick(&mut self, delta_micros: u64) -> (just_finished: bool)
        ensures
            old(self).remaining_micros == 0 ==> {
                &&& final(self).remaining_micros == 0
                &&& !just_finished
            },
            old(self).remaining_micros > 0 ==> {
                &&& final(self).remaining_micros == (if delta_micros
                    >= old(self).remaining_micros {
                    0u64
                } else {
                    (old(self).remaining_micros - delta_micros) as u64
                })
                &&& just_finished == (final(self).remaining_micros == 0)
            },
    {
        if self.remaining_micros == 0 {
            return false;
        }
        if delta_micros >= self.remaining_micros {
            self.remaining_micros = 0;
            true
        } else {
            self.remaining_micros = self.remaining_micros - delta_micros;
            false
        }
    }
}

/// One animation: the inclusive sprite-index range `[first, last]`, the
/// playback rate, the countdown until the next frame, and the flag that marks
/// a configuration freshly swapped in by the animation state machine.
#[derive(Clone, Copy, PartialEq, Eq, Structural, Debug)]
pub struct AnimationConfig {
    pub first: usize,
    pub last: usize,
    pub fps: u16,
    pub frame_timer: FrameTimer,
    pub animation_changed: bool,
}

impl AnimationConfig {
    /// A well-formed animation plays at least one frame per second over a
    /// non-empty index range.
    pub open spec fn wf(self) -> bool {
        &&& self.first <= self.last
        &&& self.fps >= 1
    }

    pub fn new(first: usize, last: usize, fps: u16, frame_timer: Option<FrameTimer>) -> (c:
        AnimationConfig)
        requires
            first <= last,
            fps >= 1,
        ensures
            c.first == first,
            c.last == last,
            c.fps == fps,
            c.frame_timer == (match frame_timer {
                Some(t) => t,
                None => FrameTimer { remaining_micros: MICROS_PER_SECOND / fps as u64 },
            }),
            !c.animation_changed,
            c.wf(),
    {
        let timer = match frame_timer {
            Some(t) => t,
            None => Self::timer_from_fps(fps),
        };
        AnimationConfig { first, last, fps, frame_timer: timer, animation_changed: false }
    }

    /// The countdown for one frame at `fps` frames per second.
    pub fn timer_from_fps(fps: u16) -> (t: FrameTimer)
        requires
            fps >= 1,
        ensures
            t.remaining_micros == MICROS_PER_SECOND / fps as u64,
    {
        FrameTimer::new(MICROS_PER_SECOND / fps as u64)
    }

    /// Rebuilds the frame countdown from the playback rate. The timer is
    /// reconstructed rather than rewound, so each completion fires once.
    pub fn reset_timer(&mut self)
        requires
            old(self).fps >= 1,
        ensures
            *final(self) == (AnimationConfig {
                frame_timer: FrameTimer {
                    remaining_micros: MICROS_PER_SECOND / old(self).fps as u64,
                },
                ..*old(self)
            }),
    {
        self.frame_timer = Self::timer_from_fps(self.fps);
    }
}

/// Where playback goes when a frame completes at sprite index `index`: the
/// next index and the animation-changed flag after the step.
///
/// On the final frame the index wraps to `first` (wrap, not clamp). When a
/// new animation was just swapped in and the inherited index does not fall
/// inside `[first, last)`, the index snaps to `first` instead of advancing,
/// so no torn frame outside the new range is ever shown; the snap consumes
/// the flag.
pub open spec fn spec_next_frame(first: int, last: int, changed: bool, index: int) -> (int, bool) {
    if index == last || (changed && !(first <= index && index < last)) {
        (first, false)
    } else {
        (index + 1, changed)
    }
}

/// The frame-index invariant the animation player maintains: between
/// completions the index stays inside `[first, last]`, except in the window
/// right after a configuration swap, which the raised flag marks.
pub open spec fn frame_index_ok(config: AnimationConfig, index: int) -> bool {
    config.animation_changed || (config.first <= index && index <= config.last)
}

/// One playback step for one entity: advance the frame countdown, and on
/// completion move the sprite index as `spec_next_frame` says and restart the
/// countdown. Returns whether this step completed the countdown.
pub fn execute_animations(config: &mut AnimationConfig, atlas_index: &mut usize, delta_micros: u64)
    -> (advanced: bool)
    requires
        old(config).wf(),
        frame_index_ok(*old(config), *old(atlas_index) as int),
    ensures
        final(config).first == old(config).first,
        final(config).last == old(config).last,
        final(config).fps == old(config).fps,
        final(config).wf(),
        frame_index_ok(*final(config), *final(atlas_index) as int),
        advanced == (old(config).frame_timer.remaining_micros > 0
            && delta_micros >= old(config).frame_timer.remaining_micros),
        !advanced ==> {
            &&& *final(atlas_index) == *old(atlas_index)
            &&& final(config).animation_changed == old(config).animation_changed
        },
        advanced ==> {
            &&& (*final(atlas_index) as int, final(config).animation_changed)
                == spec_next_frame(
                old(config).first as int,
                old(config).last as int,
                old(config).animation_changed,
                *old(atlas_index) as int,
            )
            &&& final(config).frame_timer.remaining_micros == MICROS_PER_SECOND / old(
                config,
            ).fps as u64
        },
{
    let just_finished = config.frame_timer.tick(delta_micros);
    if !just_finished {
        return false;
    }

    if *atlas_index == config.last || (config.animation_changed && !(config.first <= *atlas_index
        && *atlas_index < config.last)) {
        *atlas_index = config.first;
        config.animation_changed = false;
    } else {
        *atlas_index = *atlas_index + 1;
    }

    config.reset_timer();
    true
}

/// Frame playback round-trips inside `[first, last]`: from any index the
/// player can reach, the next index is again inside the range and never
/// exceeds `last`, and from `last` the next index is `first` — a wrap, not a
/// clamp.
pub proof fn lemma_frame_index_round_trip(first: int, last: int, changed: bool, index: int)
    requires
        first <= last,
        changed || (first <= index && index <= last),
    ensures
        first <= spec_next_frame(first, last, changed, index).0,
        spec_next_frame(first, last, changed, index).0 <= last,
        index == last ==> spec_next_frame(first, last, changed, index).0 == first,
        !changed && first <= index && index < last ==> spec_next_frame(
            first,
            last,
            changed,
            index,
        ).0 == index + 1,
{
}

} // verus!
