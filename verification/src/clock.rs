//! The repeating countdown that paces the sprite animation.
//!
//! The countdown itself is the engine's `Timer`; this module keeps its period
//! and elapsed time as plain nanosecond counts and states what one tick does.

use vstd::prelude::*;
use std::time::Duration;
use bevy::time::{Timer, TimerMode};

verus! {

/// Period of the sprite animation: a tenth of a second.
pub const ANIMATION_PERIOD: u64 = 100_000_000;

/// How many whole periods end during a tick of `delta` on a countdown that
/// had run for `elapsed`.
pub open spec fn completions(period: int, elapsed: int, delta: int) -> int {
    (elapsed + delta) / period
}

/// Time into the current period after that tick.
pub open spec fn carried_over(period: int, elapsed: int, delta: int) -> int {
    (elapsed + delta) % period
}

/// Whether the countdown reports that tick as one on which it finished. The
/// engine counts a tick's completions in 32 bits and reports a nonzero count.
pub open spec fn fires(period: int, elapsed: int, delta: int) -> bool {
    completions(period, elapsed, delta) % 0x1_0000_0000 != 0
}

/// A repeating countdown: `elapsed` nanoseconds into a period of `period`.
#[derive(Debug, Clone, Copy, PartialEq, Eq, Structural)]
pub struct AnimationTimer {
    pub period: u64,
    pub elapsed: u64,
}

/// One tick of the engine's countdown, on plain nanosecond counts: builds a
/// repeating `bevy::time::Timer` of the given period with `Timer::new`, puts
/// it `elapsed` into the period with `Timer::set_elapsed`, calls
/// `Timer::tick` with `delta`, and returns `Timer::elapsed` and
/// `Timer::just_finished` as they are afterwards.
///
/// The contract is taken on trust from the timer's source: a repeating timer
/// that is not paused adds `delta` to its elapsed time, keeps the remainder of
/// that sum modulo its period, and counts the quotient in 32 bits;
/// `just_finished` tells whether that count is nonzero. A period of zero is
/// left out, since there is nothing to divide by.
#[verifier::external_body]
fn tick_repeating(period: u64, elapsed: u64, delta: u64) -> (out: (u64, bool))
    requires
        period > 0,
    ensures
        out.0 == carried_over(period as int, elapsed as int, delta as int),
        out.1 == fires(period as int, elapsed as int, delta as int),
{
    let mut timer = Timer::new(Duration::from_nanos(period), TimerMode::Repeating);
    timer.set_elapsed(Duration::from_nanos(elapsed));
    timer.tick(Duration::from_nanos(delta));
    (timer.elapsed().as_nanos() as u64, timer.just_finished())
}

impl AnimationTimer {
    /// The period is positive and the elapsed time lies within it.
    pub open spec fn wf(&self) -> bool {
        0 <= self.elapsed < self.period
    }

    /// A countdown of the given period that has not run yet.
    pub fn new(period: u64) -> (timer: AnimationTimer)
        requires
            period > 0,
        ensures
            timer.wf(),
            timer.period == period,
            timer.elapsed == 0,
    {
        AnimationTimer { period, elapsed: 0 }
    }

    /// Lets `delta` nanoseconds pass and tells whether the countdown finished
    /// during them. What is left over after the last whole period is kept.
    pub fn tick(&mut self, delta: u64) -> (fired: bool)
        requires
            old(self).wf(),
        ensures
            final(self).wf(),
            final(self).period == old(self).period,
            final(self).elapsed == carried_over(
                old(self).period as int,
                old(self).elapsed as int,
                delta as int,
            ),
            fired == fires(old(self).period as int, old(self).elapsed as int, delta as int),
    {
        let (elapsed, fired) = tick_repeating(self.period, self.elapsed, delta);
        self.elapsed = elapsed;
        fired
    }
}

/// A tick that stays within the period does not fire, and a tick that ends
/// exactly one period does; either way the time left over is carried on.
pub proof fn lemma_fires_once(period: int, elapsed: int, delta: int)
    requires
        0 <= elapsed < period,
        0 <= delta,
    ensures
        0 <= carried_over(period, elapsed, delta) < period,
        elapsed + delta < period ==> {
            &&& completions(period, elapsed, delta) == 0
            &&& !fires(period, elapsed, delta)
            &&& carried_over(period, elapsed, delta) == elapsed + delta
        },
        period <= elapsed + delta < 2 * period ==> {
            &&& completions(period, elapsed, delta) == 1
            &&& fires(period, elapsed, delta)
            &&& carried_over(period, elapsed, delta) == elapsed + delta - period
        },
{
    let total = elapsed + delta;
    vstd::arithmetic::div_mod::lemma_mod_bound(total, period);
    if total < period {
        vstd::arithmetic::div_mod::lemma_fundamental_div_mod_converse(total, period, 0, total);
    } else if total < 2 * period {
        vstd::arithmetic::div_mod::lemma_fundamental_div_mod_converse(total, period, 1, total - period);
    }
}

} // verus!
