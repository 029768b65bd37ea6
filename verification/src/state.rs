//! The host-owned game state: scores, the spawn counter, and the spawn
//! timer. Created once with all-default fields and mutated only by the
//! per-frame update.

use vstd::prelude::*;
use crate::timer::Timer;

verus! {

/// The spawn timer's fixed period: one time-unit, in milliseconds.
pub const SPAWN_PERIOD_MS: u64 = 1000;

pub struct GameState {
    /// Best score seen so far; monotonically non-decreasing, never reset.
    pub high_score: u32,
    /// Current run score; resettable to zero by the reset key.
    pub score: u32,
    /// Monotonically increasing counter used to derive unique target names;
    /// never reused, even after a target is removed.
    pub ferris_index: i32,
    /// Repeating countdown pacing target spawning; always armed.
    pub spawn_timer: Timer,
}

impl GameState {
    /// Well-formedness: the high score bounds the score, the spawn counter
    /// never went negative, and the timer keeps its fixed period.
    pub open spec fn wf(self) -> bool {
        &&& self.score <= self.high_score
        &&& self.ferris_index >= 0
        &&& self.spawn_timer.period_ms == SPAWN_PERIOD_MS
    }
}

impl Default for GameState {
    /// The start state: both scores zero, the counter at zero, and the
    /// spawn timer freshly armed with its fixed period.
    fn default() -> (s: Self)
        ensures
            s.high_score == 0,
            s.score == 0,
            s.ferris_index == 0,
            s.spawn_timer.acc_ms == 0,
            s.spawn_timer.period_ms == SPAWN_PERIOD_MS,
            s.wf(),
    {
        GameState {
            high_score: 0,
            score: 0,
            ferris_index: 0,
            spawn_timer: Timer::new(SPAWN_PERIOD_MS),
        }
    }
}

} // verus!
