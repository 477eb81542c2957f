//! Fixed-step scheduler.
//!
//! Simulation logic runs at a constant time delta regardless of the render
//! frame rate. Each render frame adds its wall-clock delta to an
//! accumulator; one fixed step runs for every whole delta accumulated (zero
//! on a fast frame, several on a slow one), and the remainder stays in the
//! accumulator — it is never discarded. The remainder over the fixed delta
//! is the overstep fraction in `[0, 1)` used for render interpolation.
//!
//! Catch-up is deliberately uncapped: after a long stall every elapsed step
//! runs. Time is counted in integer ticks whose length the caller chooses.

use vstd::prelude::*;
use crate::rational::{rat_le, rat_lt, rat_one, rat_zero, Q, Rat};

verus! {

/// The accumulator of leftover frame time, against a fixed step delta.
pub struct FixedStepScheduler {
    pub delta: u64,
    pub accumulator: u64,
}

impl FixedStepScheduler {
    /// The accumulator always holds strictly less than one fixed delta.
    pub open spec fn wf(&self) -> bool {
        self.delta > 0 && self.accumulator < self.delta
    }

    pub fn new(delta: u64) -> (r: FixedStepScheduler)
        requires
            delta > 0,
        ensures
            r.wf(),
            r.delta == delta,
            r.accumulator == 0,
    {
        FixedStepScheduler { delta, accumulator: 0 }
    }

    /// Add one render frame's delta and return how many fixed steps now run
    /// before that frame's interpolation: the whole fixed deltas
    /// accumulated. The remainder stays accumulated.
    pub fn advance(&mut self, frame_delta: u64) -> (steps: u64)
        requires
            old(self).wf(),
            old(self).accumulator + frame_delta <= u64::MAX,
        ensures
            final(self).wf(),
            final(self).delta == old(self).delta,
            steps == (old(self).accumulator + frame_delta) / old(self).delta as int,
            final(self).accumulator == (old(self).accumulator + frame_delta) % old(self).delta as int,
            old(self).accumulator + frame_delta == steps * old(self).delta + final(self).accumulator,
    {
        let total = self.accumulator + frame_delta;
        let steps = total / self.delta;
        self.accumulator = total % self.delta;
        proof {
            assert(total == steps * self.delta + self.accumulator) by (nonlinear_arith)
                requires
                    self.delta > 0,
                    steps == total / self.delta,
                    self.accumulator == total % self.delta,
            ;
        }
        steps
    }

    /// The overstep fraction for the current render frame: the accumulated
    /// remainder over the fixed delta, always in `[0, 1)`.
    pub fn overstep_fraction(&self) -> (r: Q)
        requires
            self.wf(),
            self.delta <= i64::MAX,
        ensures
            r.wf(),
            r@ == (Rat { n: self.accumulator as int, d: self.delta as int }),
            rat_le(rat_zero(), r@),
            rat_lt(r@, rat_one()),
    {
        Q::new(self.accumulator as i64, self.delta as i64)
    }
}

} // verus!
