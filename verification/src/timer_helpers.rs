//! Countdown timer primitive and the helper operations shared by the
//! grace-window timers.
//!
//! Time is measured in whole milliseconds.  A timer advances only while
//! unpaused, saturates at its configured duration in one-shot mode, and wraps
//! with the remainder carried over in repeating mode.  Every operation is
//! total.

use vstd::prelude::*;

verus! {

/// Whether a timer stops at its duration or wraps and runs again.
#[derive(Clone, Copy, Debug, PartialEq, Eq, Structural)]
pub enum TimerMode {
    Once,
    Repeating,
}

/// A countdown with pause/resume/restart semantics.
///
/// `finished` records whether the countdown reached its duration: in one-shot
/// mode it stays set once the duration is reached, in repeating mode it says
/// whether a cycle completed during the most recent tick.
#[derive(Clone, Copy, Debug, PartialEq, Eq, Structural)]
pub struct Timer {
    pub duration_ms: u64,
    pub elapsed_ms: u64,
    pub mode: TimerMode,
    pub paused: bool,
    pub finished: bool,
}

/// The timer after a tick of `delta_ms`: untouched while paused; saturated at
/// the duration in one-shot mode; wrapped with the remainder carried over in
/// repeating mode.  `finished` records whether the countdown reached its
/// duration during or before this tick (for a repeating timer, whether a
/// cycle completed during this tick).
pub open spec fn spec_ticked(t: Timer, delta_ms: u64) -> Timer {
    if t.paused {
        t
    } else {
        match t.mode {
            TimerMode::Once => Timer {
                elapsed_ms: if t.elapsed_ms + delta_ms <= t.duration_ms {
                    (t.elapsed_ms + delta_ms) as u64
                } else {
                    t.duration_ms
                },
                finished: t.elapsed_ms + delta_ms >= t.duration_ms,
                ..t
            },
            TimerMode::Repeating => if t.duration_ms == 0 {
                Timer { elapsed_ms: 0, finished: true, ..t }
            } else {
                Timer {
                    elapsed_ms: ((t.elapsed_ms + delta_ms) % (t.duration_ms as int)) as u64,
                    finished: t.elapsed_ms + delta_ms >= t.duration_ms,
                    ..t
                }
            },
        }
    }
}

impl Timer {
    /// Elapsed time never runs past the configured duration.
    pub open spec fn wf(self) -> bool {
        self.elapsed_ms <= self.duration_ms
    }

    /// A stopped timer is paused or has finished its countdown.
    pub open spec fn spec_stopped(self) -> bool {
        self.paused || self.finished
    }

    /// A fresh, running timer with nothing elapsed.
    pub fn new(duration_ms: u64, mode: TimerMode) -> (t: Timer)
        ensures
            t == (Timer { duration_ms, elapsed_ms: 0, mode, paused: false, finished: false }),
            t.wf(),
    {
        Timer { duration_ms, elapsed_ms: 0, mode, paused: false, finished: false }
    }

    /// Advance the countdown by `delta_ms`.  A paused timer is left untouched.
    /// In one-shot mode the elapsed time saturates at the duration; in
    /// repeating mode it wraps, carrying the remainder into the next cycle.
    pub fn tick(&mut self, delta_ms: u64)
        requires
            old(self).wf(),
        ensures
            final(self).wf(),
            *final(self) == spec_ticked(*old(self), delta_ms),
    {
        if !self.paused {
            match self.mode {
                TimerMode::Once => {
                    let remaining = self.duration_ms - self.elapsed_ms;
                    if delta_ms >= remaining {
                        self.elapsed_ms = self.duration_ms;
                        self.finished = true;
                    } else {
                        self.elapsed_ms = self.elapsed_ms + delta_ms;
                        self.finished = false;
                    }
                }
                TimerMode::Repeating => {
                    if self.duration_ms == 0 {
                        self.elapsed_ms = 0;
                        self.finished = true;
                    } else {
                        let total: u128 = self.elapsed_ms as u128 + delta_ms as u128;
                        let dur: u128 = self.duration_ms as u128;
                        self.finished = total >= dur;
                        let rem: u128 = total % dur;
                        assert(rem < dur);
                        self.elapsed_ms = rem as u64;
                    }
                }
            }
        }
    }

    /// Stop advancing; the elapsed time is left untouched.
    pub fn pause(&mut self)
        ensures
            *final(self) == (Timer { paused: true, ..*old(self) }),
    {
        self.paused = true;
    }

    /// Resume advancing; the elapsed time is left untouched.
    pub fn unpause(&mut self)
        ensures
            *final(self) == (Timer { paused: false, ..*old(self) }),
    {
        self.paused = false;
    }

    /// Rewind to the start of the countdown without changing the pause state.
    pub fn reset(&mut self)
        ensures
            *final(self) == (Timer { elapsed_ms: 0, finished: false, ..*old(self) }),
    {
        self.elapsed_ms = 0;
        self.finished = false;
    }

    /// Whether the countdown has reached its duration (for a repeating timer,
    /// whether a cycle completed during the most recent tick).
    pub fn finished(&self) -> (r: bool)
        ensures
            r == self.finished,
    {
        self.finished
    }

    /// Whether the timer is currently paused.
    pub fn paused(&self) -> (r: bool)
        ensures
            r == self.paused,
    {
        self.paused
    }
}

/// The timer after a restart: rewound to zero and running, with its duration
/// and mode kept.
pub open spec fn spec_restarted(t: Timer) -> Timer {
    Timer { elapsed_ms: 0, paused: false, finished: false, duration_ms: t.duration_ms, mode: t.mode }
}

/// The timer after a pause: everything kept but no longer running.
pub open spec fn spec_paused(t: Timer) -> Timer {
    Timer { paused: true, ..t }
}

/// The timer after a whole sequence of ticks, oldest first.
pub open spec fn spec_ticked_all(t: Timer, deltas: Seq<u64>) -> Timer
    decreases deltas.len(),
{
    if deltas.len() <= 0 {
        t
    } else {
        spec_ticked(spec_ticked_all(t, deltas.drop_last()), deltas.last())
    }
}

/// The total time of a sequence of ticks.
pub open spec fn spec_sum(deltas: Seq<u64>) -> int
    decreases deltas.len(),
{
    if deltas.len() <= 0 {
        0
    } else {
        spec_sum(deltas.drop_last()) + deltas.last()
    }
}

/// A restarted one-shot countdown, ticked by any sequence of frame deltas,
/// has elapsed exactly their total (saturated at its duration), and it is
/// stopped precisely when that total has reached the duration.
pub proof fn lemma_once_timer_elapsed(t0: Timer, deltas: Seq<u64>)
    requires
        t0.mode is Once,
        t0.duration_ms > 0,
    ensures
        ({
            let t = spec_ticked_all(spec_restarted(t0), deltas);
            &&& t.mode is Once
            &&& !t.paused
            &&& t.duration_ms == t0.duration_ms
            &&& t.elapsed_ms == if spec_sum(deltas) <= t0.duration_ms {
                spec_sum(deltas)
            } else {
                t0.duration_ms as int
            }
            &&& (t.spec_stopped() <==> spec_sum(deltas) >= t0.duration_ms)
        }),
    decreases deltas.len(),
{
    if deltas.len() > 0 {
        lemma_once_timer_elapsed(t0, deltas.drop_last());
        assert(spec_sum(deltas.drop_last()) >= 0) by {
            lemma_sum_nonneg(deltas.drop_last());
        }
    }
}

/// A tick total is never negative.
proof fn lemma_sum_nonneg(deltas: Seq<u64>)
    ensures
        spec_sum(deltas) >= 0,
    decreases deltas.len(),
{
    if deltas.len() > 0 {
        lemma_sum_nonneg(deltas.drop_last());
    }
}

/// The operations the grace-window timers share: rearming a countdown and
/// asking whether it is currently counting.
pub trait TimerHelper {
    /// The countdown the helper operations act on.
    spec fn timer(&self) -> Timer;

    /// Rewind to zero and start running.
    fn restart(&mut self)
        ensures
            final(self).timer() == spec_restarted(old(self).timer());

    /// Paused or finished: either way the countdown is not running.
    fn is_stopped(&self) -> (r: bool)
        ensures
            r == self.timer().spec_stopped();
}

impl TimerHelper for Timer {
    open spec fn timer(&self) -> Timer {
        *self
    }

    fn restart(&mut self) {
        self.reset();
        self.unpause();
    }

    fn is_stopped(&self) -> (r: bool) {
        self.paused || self.finished
    }
}

} // verus!
