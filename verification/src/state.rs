//! The simulation's shared state: boost meter and current window bounds.

use vstd::prelude::*;
use crate::geom::iclamp;
use crate::{BOOST_DRAIN, BOOST_MAX, BOOST_RECHARGE, DT_MAX, WINDOW_HEIGHT, WINDOW_MAX, WINDOW_WIDTH};

verus! {

/// Shared per-world state: the boost meter in milli-points and the current
/// window dimensions in milli-pixels.
#[derive(Clone, Copy, PartialEq, Eq, Structural, Debug)]
pub struct State {
    pub boost: i64,
    pub window_height: u64,
    pub window_width: u64,
}

/// The boost meter is clamped into `[0, BOOST_MAX]` and the window bounds
/// are within the machine limit.
pub open spec fn wf_state(s: State) -> bool {
    &&& 0 <= s.boost <= BOOST_MAX
    &&& s.window_width <= WINDOW_MAX
    &&& s.window_height <= WINDOW_MAX
}

/// One mutation of the boost meter: a continuous drain over an elapsed
/// time, or one discrete recharge increment.
#[derive(Clone, Copy, PartialEq, Eq, Structural, Debug)]
pub enum BoostOp {
    Drain { dt: u64 },
    Recharge,
}

/// The boost meter after one operation; every mutation is clamped back into
/// `[0, BOOST_MAX]`.
pub open spec fn boost_step(boost: i64, op: BoostOp) -> i64 {
    match op {
        BoostOp::Drain { dt } => iclamp(boost - BOOST_DRAIN * dt, 0, BOOST_MAX as int) as i64,
        BoostOp::Recharge => iclamp(boost + BOOST_RECHARGE, 0, BOOST_MAX as int) as i64,
    }
}

/// The boost meter after a whole sequence of operations, applied in order.
pub open spec fn boost_run(boost: i64, ops: Seq<BoostOp>) -> i64
    decreases ops.len(),
{
    if ops.len() == 0 {
        boost
    } else {
        boost_step(boost_run(boost, ops.drop_last()), ops.last())
    }
}

/// The boost meter is always in `[0, BOOST_MAX]` after any sequence of
/// drain and recharge operations, regardless of their order: every step
/// clamps, so the clamp law holds of every prefix.
pub proof fn lemma_boost_meter_bounded(boost: i64, ops: Seq<BoostOp>)
    requires
        0 <= boost <= BOOST_MAX,
    ensures
        0 <= boost_run(boost, ops) <= BOOST_MAX,
    decreases ops.len(),
{
    if ops.len() > 0 {
        lemma_boost_meter_bounded(boost, ops.drop_last());
    }
}

impl State {
    /// Drain the boost meter for an elapsed time at the fixed drain rate,
    /// clamping at empty.
    pub fn drain_boost(&mut self, dt: u64)
        requires
            wf_state(*old(self)),
            dt <= DT_MAX,
        ensures
            final(self).boost == boost_step(old(self).boost, BoostOp::Drain { dt }),
            final(self).window_width == old(self).window_width,
            final(self).window_height == old(self).window_height,
            wf_state(*final(self)),
    {
        let drained: i64 = self.boost - BOOST_DRAIN * (dt as i64);
        self.boost = if drained < 0 {
            0
        } else {
            drained
        };
    }

    /// Add one recharge increment to the boost meter, clamping at full.
    pub fn recharge_boost(&mut self)
        requires
            wf_state(*old(self)),
        ensures
            final(self).boost == boost_step(old(self).boost, BoostOp::Recharge),
            final(self).window_width == old(self).window_width,
            final(self).window_height == old(self).window_height,
            wf_state(*final(self)),
    {
        let raised: i64 = self.boost + BOOST_RECHARGE;
        self.boost = if raised > BOOST_MAX {
            BOOST_MAX
        } else {
            raised
        };
    }
}

impl Default for State {
    /// A fresh world: a full boost meter and the default window bounds.
    fn default() -> (s: State)
        ensures
            s == (State {
                boost: BOOST_MAX,
                window_height: WINDOW_HEIGHT,
                window_width: WINDOW_WIDTH,
            }),
            wf_state(s),
    {
        State { boost: BOOST_MAX, window_height: WINDOW_HEIGHT, window_width: WINDOW_WIDTH }
    }
}

} // verus!
