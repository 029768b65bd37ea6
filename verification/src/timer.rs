//! A repeating countdown timer that paces target spawning.
//!
//! The timer accumulates elapsed milliseconds; when the accumulated time
//! reaches the period it fires, consumes exactly one period's worth of
//! accumulated time, and stays armed for the next period.

use vstd::prelude::*;

verus! {

#[derive(Clone, Copy, PartialEq, Eq, Structural, Debug)]
pub struct Timer {
    /// The fixed period, in milliseconds.
    pub period_ms: u64,
    /// Elapsed time accumulated towards the next firing, in milliseconds.
    pub acc_ms: u64,
}

impl Timer {
    pub open spec fn wf(self) -> bool {
        self.period_ms >= 1
    }

    /// Whether a tick of `elapsed_ms` makes the timer fire.
    pub open spec fn fires_after(self, elapsed_ms: u64) -> bool {
        self.acc_ms + elapsed_ms >= self.period_ms
    }

    /// A freshly armed timer with the given period.
    pub fn new(period_ms: u64) -> (t: Timer)
        requires
            period_ms >= 1,
        ensures
            t.period_ms == period_ms,
            t.acc_ms == 0,
            t.wf(),
    {
        Timer { period_ms, acc_ms: 0 }
    }

    /// Advance the timer by one frame's elapsed time. Returns whether the
    /// timer fired; firing consumes exactly one period of accumulated time
    /// and leaves the timer armed.
    pub fn tick(&mut self, elapsed_ms: u64) -> (fired: bool)
        requires
            old(self).wf(),
            old(self).acc_ms + elapsed_ms <= u64::MAX,
        ensures
            final(self).period_ms == old(self).period_ms,
            final(self).wf(),
            fired == old(self).fires_after(elapsed_ms),
            fired ==> final(self).acc_ms == old(self).acc_ms + elapsed_ms - old(self).period_ms,
            !fired ==> final(self).acc_ms == old(self).acc_ms + elapsed_ms,
    {
        let total: u64 = self.acc_ms + elapsed_ms;
        if total >= self.period_ms {
            self.acc_ms = total - self.period_ms;
            true
        } else {
            self.acc_ms = total;
            false
        }
    }
}

} // verus!
