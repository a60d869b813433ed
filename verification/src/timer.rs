//! A countdown with tick, finished and reset semantics.

use vstd::prelude::*;

verus! {

/// Nanoseconds in one second.
pub const NANOS_PER_SECOND: u64 = 1_000_000_000;

/// What a timer does once its duration has elapsed.
#[derive(Clone, Copy, Debug, PartialEq, Eq, Structural)]
pub enum TimerMode {
    /// The timer finishes on reaching its duration and ignores ticks until
    /// it is reset.
    Once,
    /// The elapsed time wraps around the duration and keeps running.
    Repeating,
}

/// The mathematical state of a [`Timer`].
pub struct TimerView {
    pub duration: nat,
    pub elapsed: nat,
    pub mode: TimerMode,
    pub finished: bool,
}

impl TimerView {
    /// The duration fits a `u64`. A finished one-shot timer has reached it;
    /// every other timer is strictly short of it, or both are zero.
    pub open spec fn wf(self) -> bool {
        &&& self.duration <= u64::MAX
        &&& if self.mode == TimerMode::Once && self.finished {
            self.elapsed >= self.duration
        } else if self.duration == 0 {
            self.elapsed == 0
        } else {
            self.elapsed < self.duration
        }
    }

    /// A count of nanoseconds as a timer holds it: the largest `u64` stands
    /// for everything beyond.
    pub open spec fn held(time: nat) -> nat {
        if time > u64::MAX {
            u64::MAX as nat
        } else {
            time
        }
    }

    /// A fresh timer: nothing elapsed, not finished.
    pub open spec fn fresh(duration: nat, mode: TimerMode) -> TimerView {
        TimerView { duration, elapsed: 0, mode, finished: false }
    }

    /// Whether a tick by `delta` reaches the duration.
    pub open spec fn reaches(self, delta: nat) -> bool {
        self.elapsed + delta >= self.duration
    }

    /// The state after a tick by `delta`.
    ///
    /// A finished one-shot timer does not move. Otherwise time advances by
    /// all of `delta`; on reaching the duration the timer becomes finished.
    /// A one-shot timer then shows the whole time since its last reset,
    /// however far beyond the duration; a repeating one keeps the remainder.
    /// Only `reset` clears `finished`.
    pub open spec fn tick(self, delta: nat) -> TimerView {
        if self.mode == TimerMode::Once && self.finished {
            self
        } else if self.reaches(delta) {
            TimerView {
                elapsed: if self.mode == TimerMode::Once {
                    Self::held(self.elapsed + delta)
                } else if self.duration == 0 {
                    0
                } else {
                    (self.elapsed + delta) % self.duration
                },
                finished: true,
                ..self
            }
        } else {
            TimerView { elapsed: self.elapsed + delta, ..self }
        }
    }

    /// The state after a reset: nothing elapsed, not finished.
    pub open spec fn reset(self) -> TimerView {
        TimerView { elapsed: 0, finished: false, ..self }
    }
}

/// Ticks and resets keep a timer well formed.
pub proof fn lemma_timer_stays_well_formed(timer: TimerView, delta: nat)
    requires
        timer.wf(),
    ensures
        timer.tick(delta).wf(),
        timer.reset().wf(),
        TimerView::fresh(timer.duration, timer.mode).wf(),
{
    if timer.duration > 0 {
        assert((timer.elapsed + delta) % timer.duration < timer.duration);
    }
}

/// A running timer finishes on the tick with which the time counted since
/// the last reset reaches the duration, and on no tick before.
pub proof fn lemma_finishes_at_duration(timer: TimerView, delta: nat)
    requires
        timer.wf(),
        !timer.finished,
    ensures
        timer.tick(delta).finished <==> timer.elapsed + delta >= timer.duration,
        !timer.tick(delta).finished ==> timer.tick(delta).elapsed == timer.elapsed + delta,
{
}

/// A finished timer stays finished whatever ticks follow; only a reset
/// makes it run again, from zero.
pub proof fn lemma_finished_until_reset(timer: TimerView, delta: nat)
    requires
        timer.finished,
    ensures
        timer.tick(delta).finished,
        timer.mode == TimerMode::Once ==> timer.tick(delta) == timer,
        !timer.reset().finished,
        timer.reset().elapsed == 0,
{
}

/// A one-shot timer only counts the total: after two ticks it has finished
/// exactly if one tick by their sum finishes it, and while it runs it shows
/// the same time. The tick that finishes it shows all the time since the
/// last reset, held at the largest `u64`.
pub proof fn lemma_one_shot_ticks_add_up(timer: TimerView, first: nat, second: nat)
    requires
        timer.mode == TimerMode::Once,
    ensures
        timer.tick(first).tick(second).finished == timer.tick(first + second).finished,
        !timer.tick(first + second).finished ==> timer.tick(first).tick(second) == timer.tick(
            first + second,
        ),
        !timer.finished && timer.tick(first).finished ==> timer.tick(first).elapsed
            == TimerView::held(timer.elapsed + first),
{
}

/// A countdown over nanoseconds.
#[derive(Clone, Copy, Debug)]
pub struct Timer {
    duration: u64,
    elapsed: u64,
    mode: TimerMode,
    finished: bool,
}

impl View for Timer {
    type V = TimerView;

    closed spec fn view(&self) -> TimerView {
        TimerView {
            duration: self.duration as nat,
            elapsed: self.elapsed as nat,
            mode: self.mode,
            finished: self.finished,
        }
    }
}

impl Timer {
    /// Every timer is well formed.
    #[verifier::type_invariant]
    pub open spec fn inv(self) -> bool {
        self@.wf()
    }

    /// A fresh timer of `duration` nanoseconds.
    pub fn new(duration: u64, mode: TimerMode) -> (timer: Timer)
        ensures
            timer@ == TimerView::fresh(duration as nat, mode),
    {
        Timer { duration, elapsed: 0, mode, finished: false }
    }

    /// A fresh timer of `seconds` whole seconds.
    pub fn from_seconds(seconds: u32, mode: TimerMode) -> (timer: Timer)
        ensures
            timer@ == TimerView::fresh(seconds as nat * NANOS_PER_SECOND as nat, mode),
    {
        let duration: u64 = seconds as u64 * NANOS_PER_SECOND;
        Timer::new(duration, mode)
    }

    /// The configured duration, in nanoseconds.
    pub fn duration(&self) -> (duration: u64)
        ensures
            duration == self@.duration,
    {
        self.duration
    }

    /// The time elapsed since the last reset, in nanoseconds.
    pub fn elapsed(&self) -> (elapsed: u64)
        ensures
            elapsed == self@.elapsed,
            self@.wf(),
    {
        proof {
            use_type_invariant(self);
        }
        self.elapsed
    }

    /// The timer's mode.
    pub fn mode(&self) -> (mode: TimerMode)
        ensures
            mode == self@.mode,
    {
        self.mode
    }

    /// Whether the duration has been reached since the last reset.
    pub fn finished(&self) -> (finished: bool)
        ensures
            finished == self@.finished,
            self@.wf(),
    {
        proof {
            use_type_invariant(self);
        }
        self.finished
    }

    /// Advances the timer by `delta` nanoseconds.
    pub fn tick(&mut self, delta: u64)
        ensures
            final(self)@ == old(self)@.tick(delta as nat),
            final(self)@.wf(),
    {
        proof {
            use_type_invariant(&*self);
        }
        let once = match self.mode {
            TimerMode::Once => true,
            TimerMode::Repeating => false,
        };
        if once && self.finished {
            return ;
        }
        let total: u128 = self.elapsed as u128 + delta as u128;
        if total >= self.duration as u128 {
            let elapsed: u64 = if once {
                if total > u64::MAX as u128 {
                    u64::MAX
                } else {
                    total as u64
                }
            } else if self.duration == 0 {
                0
            } else {
                (total % self.duration as u128) as u64
            };
            *self = Timer { duration: self.duration, elapsed, mode: self.mode, finished: true };
        } else {
            *self = Timer {
                duration: self.duration,
                elapsed: total as u64,
                mode: self.mode,
                finished: self.finished,
            };
        }
    }

    /// Zeroes the elapsed time and clears `finished`.
    pub fn reset(&mut self)
        ensures
            final(self)@ == old(self)@.reset(),
            final(self)@.wf(),
    {
        *self = Timer { duration: self.duration, elapsed: 0, mode: self.mode, finished: false };
    }
}

} // verus!
