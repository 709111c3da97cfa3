//! Timers that count elapsed nanoseconds towards a duration.
//!
//! The arithmetic of a tick is done by the engine's own timer; this module keeps the
//! timer's state as plain integers so that the rules built on it can be reasoned about.

use core::time::Duration;
use vstd::prelude::*;

verus! {

/// What a timer does once its duration is reached.
#[derive(Clone, Copy, Debug, PartialEq, Eq, Structural)]
pub enum TimerMode {
    /// Run once and stay finished.
    Once,
    /// Start over each time the duration is reached.
    Repeating,
}

/// The mathematical state of a [`Timer`].
pub struct TimerView {
    pub duration: nat,
    pub elapsed: nat,
    pub mode: TimerMode,
    pub finished: bool,
    pub times_finished_this_tick: nat,
}

/// The largest count of completions that one tick reports.
pub open spec fn max_times() -> nat {
    0xffff_ffff
}

/// Elapsed time after ticking an unfinished timer by `delta`.
pub open spec fn elapsed_after(duration: nat, mode: TimerMode, elapsed: nat, delta: nat) -> nat {
    let total = elapsed + delta;
    if total < duration {
        total
    } else if mode == TimerMode::Once {
        duration
    } else if duration == 0 {
        0
    } else {
        total % duration
    }
}

/// How many times the duration was completed by ticking an unfinished timer by `delta`.
/// A repeating timer reports the count reduced modulo 2^32.
pub open spec fn completions(duration: nat, mode: TimerMode, elapsed: nat, delta: nat) -> nat {
    let total = elapsed + delta;
    if total < duration {
        0
    } else if mode == TimerMode::Once {
        1
    } else if duration == 0 {
        max_times()
    } else {
        (total / duration) % 0x1_0000_0000
    }
}

impl TimerView {
    /// A timer that has not been ticked yet.
    pub open spec fn fresh(duration: nat, mode: TimerMode) -> TimerView {
        TimerView { duration, elapsed: 0, mode, finished: false, times_finished_this_tick: 0 }
    }

    /// True exactly on a tick in which the duration was reached.
    pub open spec fn just_finished(self) -> bool {
        self.times_finished_this_tick > 0
    }

    /// True for a one-shot timer that runs for `duration` and has `elapsed` of it behind it.
    pub open spec fn is_running(self, duration: nat, elapsed: nat) -> bool {
        &&& self.mode == TimerMode::Once
        &&& self.duration == duration
        &&& self.elapsed == elapsed
        &&& elapsed < duration
        &&& !self.finished
        &&& self.times_finished_this_tick == 0
    }

    /// A one-shot timer that already finished ignores further ticks.
    pub open spec fn is_spent(self) -> bool {
        self.mode == TimerMode::Once && self.finished
    }

    /// The state after advancing the timer by `delta` nanoseconds.
    pub open spec fn tick(self, delta: nat) -> TimerView {
        if self.is_spent() {
            TimerView { times_finished_this_tick: 0, ..self }
        } else {
            TimerView {
                duration: self.duration,
                elapsed: elapsed_after(self.duration, self.mode, self.elapsed, delta),
                mode: self.mode,
                finished: self.elapsed + delta >= self.duration,
                times_finished_this_tick: completions(
                    self.duration,
                    self.mode,
                    self.elapsed,
                    delta,
                ),
            }
        }
    }

    /// What every timer made by [`Timer::new`] and advanced by [`Timer::tick`] satisfies.
    pub open spec fn wf(self) -> bool {
        &&& self.elapsed <= self.duration
        &&& self.times_finished_this_tick <= max_times()
        &&& self.just_finished() ==> self.finished
        &&& self.mode == TimerMode::Once ==> {
            &&& self.times_finished_this_tick <= 1
            &&& self.finished ==> self.elapsed == self.duration
        }
        &&& self.mode == TimerMode::Repeating && self.duration > 0 ==> self.elapsed < self.duration
    }
}

/// A timer measured in whole nanoseconds.
#[derive(Clone, Copy, Debug)]
pub struct Timer {
    duration: u64,
    elapsed: u64,
    mode: TimerMode,
    finished: bool,
    times_finished_this_tick: u32,
}

impl View for Timer {
    type V = TimerView;

    closed spec fn view(&self) -> TimerView {
        TimerView {
            duration: self.duration as nat,
            elapsed: self.elapsed as nat,
            mode: self.mode,
            finished: self.finished,
            times_finished_this_tick: self.times_finished_this_tick as nat,
        }
    }
}

/// Runs one tick of `bevy::time::Timer` on a timer that is rebuilt, unpaused and unfinished,
/// from `duration`, `mode` and `elapsed`.
///
/// Trusted: the result is the elapsed time, the finished flag and the completion count that
/// `Timer::tick` leaves behind. The timer adds `delta` to the elapsed time and compares the sum
/// with the duration; below it nothing else happens. From the duration on, a one-shot timer
/// stops at the duration and counts one completion, while a repeating timer keeps the remainder
/// of the division by the duration and counts the quotient cut to 32 bits (with a zero
/// duration: no remainder and the largest count).
#[verifier::external_body]
fn engine_tick(duration: u64, mode: TimerMode, elapsed: u64, delta: u64) -> (r: (u64, bool, u32))
    ensures
        r.0 == elapsed_after(duration as nat, mode, elapsed as nat, delta as nat),
        r.1 == (elapsed + delta >= duration),
        r.2 == completions(duration as nat, mode, elapsed as nat, delta as nat),
{
    let engine_mode = match mode {
        TimerMode::Once => bevy::time::TimerMode::Once,
        TimerMode::Repeating => bevy::time::TimerMode::Repeating,
    };
    let mut timer = bevy::time::Timer::new(Duration::from_nanos(duration), engine_mode);
    timer.set_elapsed(Duration::from_nanos(elapsed));
    timer.tick(Duration::from_nanos(delta));
    (timer.elapsed().as_nanos() as u64, timer.is_finished(), timer.times_finished_this_tick())
}

impl Timer {
    #[verifier::type_invariant]
    spec fn inv(self) -> bool {
        self@.wf()
    }

    /// A timer of `duration_nanos` nanoseconds with nothing elapsed.
    pub fn new(duration_nanos: u64, mode: TimerMode) -> (timer: Timer)
        ensures
            timer@ == TimerView::fresh(duration_nanos as nat, mode),
    {
        Timer { duration: duration_nanos, elapsed: 0, mode, finished: false, times_finished_this_tick: 0 }
    }

    /// Advances the timer by `delta_nanos` nanoseconds.
    pub fn tick(&mut self, delta_nanos: u64)
        ensures
            final(self)@ == old(self)@.tick(delta_nanos as nat),
    {
        proof {
            use_type_invariant(&*self);
            lemma_tick_keeps_wf(self@, delta_nanos as nat);
        }
        let spent = match self.mode {
            TimerMode::Once => self.finished,
            TimerMode::Repeating => false,
        };
        if spent {
            self.times_finished_this_tick = 0;
        } else {
            let r = engine_tick(self.duration, self.mode, self.elapsed, delta_nanos);
            *self = Timer {
                duration: self.duration,
                elapsed: r.0,
                mode: self.mode,
                finished: r.1,
                times_finished_this_tick: r.2,
            };
        }
    }

    /// True only on the tick in which the timer reached its duration.
    pub fn just_finished(&self) -> (b: bool)
        ensures
            b == self@.just_finished(),
    {
        self.times_finished_this_tick > 0
    }

    /// True once the timer has reached its duration; for a repeating timer only on that tick.
    pub fn is_finished(&self) -> (b: bool)
        ensures
            b == self@.finished,
    {
        self.finished
    }

    /// Nanoseconds counted so far.
    pub fn elapsed_nanos(&self) -> (n: u64)
        ensures
            n == self@.elapsed,
    {
        self.elapsed
    }

    /// Nanoseconds the timer runs for.
    pub fn duration_nanos(&self) -> (n: u64)
        ensures
            n == self@.duration,
    {
        self.duration
    }

    /// The timer's mode.
    pub fn mode(&self) -> (m: TimerMode)
        ensures
            m == self@.mode,
    {
        self.mode
    }

    /// How often the duration was completed in the last tick.
    pub fn times_finished_this_tick(&self) -> (n: u32)
        ensures
            n == self@.times_finished_this_tick,
    {
        self.times_finished_this_tick
    }
}

/// Ticking keeps a timer well formed.
pub proof fn lemma_tick_keeps_wf(timer: TimerView, delta: nat)
    requires
        timer.wf(),
    ensures
        timer.tick(delta).wf(),
{
    let total = timer.elapsed + delta;
    if !timer.is_spent() && total >= timer.duration && timer.mode == TimerMode::Repeating
        && timer.duration > 0 {
        assert(total % timer.duration < timer.duration) by (nonlinear_arith)
            requires
                timer.duration > 0,
        ;
        assert((total / timer.duration) % 0x1_0000_0000 <= 0xffff_ffff);
    }
}

} // verus!
