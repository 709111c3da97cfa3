//! Sprite animations: a range of frames in a sprite sheet, shown at a number of frames per
//! second.

use crate::timer::{Timer, TimerMode, TimerView};
use vstd::prelude::*;

verus! {

/// The nanoseconds of one second.
pub const NANOS_PER_SECOND: u64 = 1_000_000_000;

/// The animation that the player shows.
#[derive(Clone, Copy, Debug, PartialEq, Eq, Structural)]
pub enum AnimationState {
    Idle,
}

impl Default for AnimationState {
    fn default() -> (state: AnimationState)
        ensures
            state == AnimationState::Idle,
    {
        AnimationState::Idle
    }
}

/// The whole nanoseconds for which one frame is shown at `fps` frames per second.
pub open spec fn frame_nanos(fps: u8) -> nat
    recommends
        fps > 0,
{
    (NANOS_PER_SECOND / fps as u64) as nat
}

/// The mode of the frame timer of an animation that does or does not loop.
pub open spec fn frame_mode(looping: bool) -> TimerMode {
    if looping {
        TimerMode::Repeating
    } else {
        TimerMode::Once
    }
}

/// The frame that follows `index` in a looping animation from `first` to `last`: the next
/// one, or `first` again from `last` on.
pub open spec fn next_frame(index: usize, first: usize, last: usize) -> usize {
    if index >= last {
        first
    } else {
        (index + 1) as usize
    }
}

/// A looping sprite animation.
#[derive(Clone, Copy, Debug)]
pub struct SpriteAnimation {
    /// The index of the first frame in the sprite sheet.
    pub first: usize,
    /// The index of the last frame in the sprite sheet.
    pub last: usize,
    /// The timer that runs out once per frame.
    pub timer: Timer,
}

impl SpriteAnimation {
    /// An animation of the frames from `first` to `last` at `fps` frames per second.
    pub fn new(first: usize, last: usize, fps: u8) -> (animation: SpriteAnimation)
        requires
            fps > 0,
        ensures
            animation.first == first,
            animation.last == last,
            animation.timer@ == TimerView::fresh(frame_nanos(fps), TimerMode::Repeating),
    {
        SpriteAnimation { first, last, timer: AnimationConfig::timer_from_fps(fps, true) }
    }
}

/// The animation of the player's sprite.
#[derive(Clone, Copy, Debug)]
pub struct AnimationConfig {
    pub first_sprite_index: usize,
    pub last_sprite_index: usize,
    pub fps: u8,
    pub looping: bool,
    pub frame_timer: Timer,
}

impl AnimationConfig {
    /// An animation of the frames from `first` to `last` at `fps` frames per second, with
    /// the frame timer that goes with it.
    pub fn new(first: usize, last: usize, fps: u8, looping: bool) -> (config: AnimationConfig)
        requires
            fps > 0,
        ensures
            config.first_sprite_index == first,
            config.last_sprite_index == last,
            config.fps == fps,
            config.looping == looping,
            config.frame_timer@ == TimerView::fresh(frame_nanos(fps), frame_mode(looping)),
    {
        AnimationConfig {
            first_sprite_index: first,
            last_sprite_index: last,
            fps,
            looping,
            frame_timer: Self::timer_from_fps(fps, looping),
        }
    }

    /// The timer that runs out once per frame at `fps` frames per second: again and again
    /// for a looping animation, once for another.
    pub fn timer_from_fps(fps: u8, looping: bool) -> (timer: Timer)
        requires
            fps > 0,
        ensures
            timer@ == TimerView::fresh(frame_nanos(fps), frame_mode(looping)),
    {
        Timer::new(
            NANOS_PER_SECOND / fps as u64,
            if looping {
                TimerMode::Repeating
            } else {
                TimerMode::Once
            },
        )
    }
}

/// Advances an animation by `delta_nanos` nanoseconds and tells which frame to show, given
/// the frame that is shown now: the following frame if the frame timer ran out in this tick,
/// the same frame otherwise. However long the tick, the animation moves by one frame at most.
pub fn animate_sprites(animation: &mut SpriteAnimation, delta_nanos: u64, index: usize) -> (next:
    usize)
    ensures
        final(animation).first == old(animation).first,
        final(animation).last == old(animation).last,
        final(animation).timer@ == old(animation).timer@.tick(delta_nanos as nat),
        next == (if final(animation).timer@.just_finished() {
            next_frame(index, old(animation).first, old(animation).last)
        } else {
            index
        }),
{
    animation.timer.tick(delta_nanos);
    if animation.timer.just_finished() {
        if index >= animation.last {
            animation.first
        } else {
            index + 1
        }
    } else {
        index
    }
}

/// From any frame at or after `first`, the animation is within its range after one change
/// of frame, if `first` is not beyond `last`.
pub proof fn lemma_next_frame_in_range(index: usize, first: usize, last: usize)
    requires
        first <= last,
        first <= index,
    ensures
        first <= next_frame(index, first, last) <= last,
{
}

} // verus!
