//! The repeating boost-recharge timer.
//!
//! Each frame advances the timer by the elapsed time; whenever a full
//! period has passed the timer fires and wraps.  Actively boosting resets
//! the countdown, so recharge ticks are entirely suppressed during
//! continuous boost use and the first tick after release always takes a
//! full period.

use vstd::prelude::*;
use crate::{BOOST_RECHARGE_INTERVAL, DT_MAX};

verus! {

/// Bound on a timer period, in milliseconds.
pub const PERIOD_MAX: u64 = 1_000_000_000;

/// A repeating countdown: `elapsed` milliseconds accumulated against a
/// fixed `period`.
#[derive(Clone, Copy, PartialEq, Eq, Structural, Debug)]
pub struct BoostTimer {
    pub elapsed: u64,
    pub period: u64,
}

/// The period is positive and bounded, and the accumulated time has
/// already been wrapped below it.
pub open spec fn wf_timer(t: BoostTimer) -> bool {
    &&& 0 < t.period <= PERIOD_MAX
    &&& t.elapsed < t.period
}

/// One advance of the timer by `dt`: the timer fires iff a full period has
/// accumulated, and then wraps the remainder.
pub open spec fn tick_step(t: BoostTimer, dt: u64) -> (BoostTimer, bool) {
    if t.elapsed + dt >= t.period {
        (BoostTimer { elapsed: ((t.elapsed + dt) % (t.period as int)) as u64, period: t.period },
        true)
    } else {
        (BoostTimer { elapsed: (t.elapsed + dt) as u64, period: t.period }, false)
    }
}

/// The timer after a whole sequence of advances, applied in order.
pub open spec fn run_ticks(t: BoostTimer, dts: Seq<u64>) -> BoostTimer
    decreases dts.len(),
{
    if dts.len() == 0 {
        t
    } else {
        tick_step(run_ticks(t, dts.drop_last()), dts.last()).0
    }
}

/// Whether any advance in the sequence fired the timer.
pub open spec fn any_tick_fired(t: BoostTimer, dts: Seq<u64>) -> bool
    decreases dts.len(),
{
    if dts.len() == 0 {
        false
    } else {
        any_tick_fired(t, dts.drop_last()) || tick_step(
            run_ticks(t, dts.drop_last()),
            dts.last(),
        ).1
    }
}

/// The total elapsed time of a sequence of advances.
pub open spec fn total_time(dts: Seq<u64>) -> int
    decreases dts.len(),
{
    if dts.len() == 0 {
        0
    } else {
        total_time(dts.drop_last()) + dts.last()
    }
}

impl BoostTimer {
    /// A fresh repeating timer with the given period and nothing
    /// accumulated.
    pub fn new(period: u64) -> (t: BoostTimer)
        requires
            0 < period <= PERIOD_MAX,
        ensures
            t == (BoostTimer { elapsed: 0, period }),
            wf_timer(t),
    {
        BoostTimer { elapsed: 0, period }
    }

    /// The recharge timer of a fresh world, with the fixed recharge
    /// interval.
    pub fn recharge() -> (t: BoostTimer)
        ensures
            t == (BoostTimer { elapsed: 0, period: BOOST_RECHARGE_INTERVAL }),
            wf_timer(t),
    {
        BoostTimer::new(BOOST_RECHARGE_INTERVAL)
    }

    /// Restart the countdown from the full period.
    pub fn reset(&mut self)
        ensures
            final(self).elapsed == 0,
            final(self).period == old(self).period,
    {
        self.elapsed = 0;
    }

    /// Advance the timer by `dt` milliseconds; returns whether it fired.
    pub fn tick(&mut self, dt: u64) -> (fired: bool)
        requires
            wf_timer(*old(self)),
            dt <= DT_MAX,
        ensures
            *final(self) == tick_step(*old(self), dt).0,
            fired == tick_step(*old(self), dt).1,
            fired == (old(self).elapsed + dt >= old(self).period),
            wf_timer(*final(self)),
    {
        let accumulated: u64 = self.elapsed + dt;
        if accumulated >= self.period {
            self.elapsed = accumulated % self.period;
            true
        } else {
            self.elapsed = accumulated;
            false
        }
    }
}

/// After a reset, the timer does not fire until a full period has passed:
/// over any sequence of advances whose total time is under the period,
/// no tick fires and the accumulated time is exactly that total; the next
/// advance fires iff it completes the full period.  So the first recharge
/// after releasing boost comes at exactly one period after release, never
/// before.
pub proof fn lemma_recharge_waits_full_period(t: BoostTimer, dts: Seq<u64>, dt: u64)
    requires
        wf_timer(t),
        t.elapsed == 0,
        total_time(dts) < t.period,
    ensures
        !any_tick_fired(t, dts),
        run_ticks(t, dts).elapsed == total_time(dts),
        run_ticks(t, dts).period == t.period,
        tick_step(run_ticks(t, dts), dt).1 <==> total_time(dts) + dt >= t.period,
    decreases dts.len(),
{
    if dts.len() > 0 {
        lemma_recharge_waits_full_period(t, dts.drop_last(), dts.last());
    }
}

} // verus!
