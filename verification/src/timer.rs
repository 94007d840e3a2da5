//! The repeating timer that paces the snake's steps.
//!
//! The timer's state is held as plain nanosecond counts, so that contracts can
//! speak of it; the arithmetic of a tick is done by `bevy::time::Timer`.

use vstd::prelude::*;
use bevy::time::{Timer, TimerMode};
use std::time::Duration;

verus! {

/// Default interval between two steps of the snake: 0.15 s.
pub const STEP_PERIOD_NANOS: u64 = 150_000_000;

/// What a repeating timer of period `period_nanos` that has run for
/// `elapsed_nanos` holds after `delta_nanos` more: the time run in the new
/// period, and whether the timer reports that it has just finished.
///
/// The timer finishes when the time run reaches the period, and carries the
/// remainder into the next period. It counts the periods completed within the
/// tick in 32 bits and reports "just finished" when that count is not zero; a
/// period of zero completes `u32::MAX` times in every tick.
pub open spec fn spec_repeating_tick(period_nanos: u64, elapsed_nanos: u64, delta_nanos: u64) -> (u64, bool) {
    let total: int = elapsed_nanos + delta_nanos;
    if total < period_nanos {
        (total as u64, false)
    } else if period_nanos == 0 {
        (0u64, true)
    } else {
        ((total % (period_nanos as int)) as u64, (total / (period_nanos as int)) % 0x1_0000_0000 != 0)
    }
}

/// Runs `bevy::time::Timer::tick` on a repeating, unpaused timer of the given
/// period that has the given time on it, and reads the timer back.
///
/// Trusted: the contract restates `Timer::tick` for `TimerMode::Repeating`.
/// The stopwatch adds `delta` to the elapsed time; if the sum has reached the
/// duration, the timer sets `times_finished_this_tick` to the quotient of the
/// two, cast to `u32` (`u32::MAX` for a zero duration), and the elapsed time
/// to the remainder (zero for a zero duration); otherwise the count is zero.
/// `Timer::just_finished` is `times_finished_this_tick > 0`.
#[verifier::external_body]
fn repeating_tick(period_nanos: u64, elapsed_nanos: u64, delta_nanos: u64) -> (after: (u64, bool))
    ensures
        after == spec_repeating_tick(period_nanos, elapsed_nanos, delta_nanos),
{
    let mut timer = Timer::new(Duration::from_nanos(period_nanos), TimerMode::Repeating);
    timer.set_elapsed(Duration::from_nanos(elapsed_nanos));
    timer.tick(Duration::from_nanos(delta_nanos));
    (timer.elapsed().as_nanos() as u64, timer.just_finished())
}

/// A repeating timer: the length of its period and the time run in the
/// current period, in nanoseconds.
#[derive(Clone, Copy, Debug, PartialEq, Eq, Structural)]
pub struct StepTimer {
    pub period_nanos: u64,
    pub elapsed_nanos: u64,
}

impl StepTimer {
    /// The timer after `delta_nanos` more have passed.
    pub open spec fn spec_ticked(self, delta_nanos: u64) -> StepTimer {
        StepTimer {
            period_nanos: self.period_nanos,
            elapsed_nanos: spec_repeating_tick(self.period_nanos, self.elapsed_nanos, delta_nanos).0,
        }
    }

    /// Whether the timer fires when `delta_nanos` more have passed.
    pub open spec fn spec_fires(self, delta_nanos: u64) -> bool {
        spec_repeating_tick(self.period_nanos, self.elapsed_nanos, delta_nanos).1
    }

    /// The timer at the start of a period.
    pub open spec fn spec_reset(self) -> StepTimer {
        StepTimer { period_nanos: self.period_nanos, elapsed_nanos: 0 }
    }

    /// A timer of the given period with no time on it.
    pub fn new(period_nanos: u64) -> (timer: StepTimer)
        ensures
            timer == (StepTimer { period_nanos, elapsed_nanos: 0 }),
    {
        StepTimer { period_nanos, elapsed_nanos: 0 }
    }

    /// Advances the timer by `delta_nanos` and says whether it fired.
    pub fn tick(&mut self, delta_nanos: u64) -> (fired: bool)
        ensures
            *final(self) == old(self).spec_ticked(delta_nanos),
            fired == old(self).spec_fires(delta_nanos),
    {
        let after: (u64, bool) = repeating_tick(self.period_nanos, self.elapsed_nanos, delta_nanos);
        self.elapsed_nanos = after.0;
        after.1
    }

    /// Starts the current period anew.
    pub fn reset(&mut self)
        ensures
            *final(self) == old(self).spec_reset(),
    {
        self.elapsed_nanos = 0;
    }
}

/// While less than a period has accumulated the timer keeps counting and
/// stays silent. When the time run reaches the period within fewer than
/// 2^32 periods, the timer fires and keeps only the remainder, which is less
/// than the period.
pub proof fn lemma_timer_fires_at_period(timer: StepTimer, delta_nanos: u64)
    requires
        timer.period_nanos > 0,
    ensures
        timer.elapsed_nanos + delta_nanos < timer.period_nanos ==> !timer.spec_fires(delta_nanos)
            && timer.spec_ticked(delta_nanos).elapsed_nanos == timer.elapsed_nanos + delta_nanos,
        timer.period_nanos <= timer.elapsed_nanos + delta_nanos < 0x1_0000_0000 * timer.period_nanos
            ==> timer.spec_fires(delta_nanos),
        timer.elapsed_nanos + delta_nanos >= timer.period_nanos ==> timer.spec_ticked(
            delta_nanos,
        ).elapsed_nanos < timer.period_nanos,
{
    let total: int = timer.elapsed_nanos + delta_nanos;
    let period: int = timer.period_nanos as int;
    if total >= period {
        vstd::arithmetic::div_mod::lemma_mod_bound(total, period);
        if total < 0x1_0000_0000 * period {
            vstd::arithmetic::div_mod::lemma_div_is_ordered(period, total, period);
            vstd::arithmetic::div_mod::lemma_div_by_multiple_is_strongly_ordered(
                total, 0x1_0000_0000 * period, 0x1_0000_0000, period);
            vstd::arithmetic::div_mod::lemma_div_multiples_vanish(0x1_0000_0000, period);
            vstd::arithmetic::div_mod::lemma_div_basics(period);
        }
    }
}

} // verus!
