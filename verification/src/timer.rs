//! Elapsed-time tracking.
//!
//! Every timed rule of the simulation (damage flash, projectile lifetime,
//! projectile spawn cadence) is an elapsed accumulator compared against a
//! threshold constant, advanced once per tick by the elapsed time.

use vstd::prelude::*;
use crate::fx::{FX_LIMIT, DT_LIMIT, clamp_fx, add_fx};

verus! {

/// An elapsed-time accumulator in raw fixed-point seconds.
#[derive(Clone, Copy, PartialEq, Eq, Structural, Debug)]
pub struct Stopwatch {
    pub elapsed: i64,
}

/// The accumulator never goes negative and never leaves the stored range.
pub open spec fn stopwatch_wf(w: Stopwatch) -> bool {
    0 <= w.elapsed <= FX_LIMIT
}

/// The accumulator after one tick of `dt` raw seconds: it saturates rather
/// than wrap, so a long-running watch simply stays at the bound.
pub open spec fn spec_advance(w: Stopwatch, dt: int) -> Stopwatch {
    Stopwatch { elapsed: clamp_fx(w.elapsed + dt) as i64 }
}

impl Stopwatch {
    /// A watch that has just been started.
    pub fn new() -> (r: Stopwatch)
        ensures
            r == (Stopwatch { elapsed: 0i64 }),
    {
        Stopwatch { elapsed: 0 }
    }

    /// Advance the watch by one tick's elapsed time.
    pub fn advance(&mut self, dt: i64)
        requires
            stopwatch_wf(*old(self)),
            0 <= dt <= DT_LIMIT,
        ensures
            *final(self) == spec_advance(*old(self), dt as int),
            stopwatch_wf(*final(self)),
    {
        self.elapsed = add_fx(self.elapsed, dt);
    }

    /// Start the watch over.
    pub fn reset(&mut self)
        ensures
            *final(self) == (Stopwatch { elapsed: 0i64 }),
            stopwatch_wf(*final(self)),
    {
        self.elapsed = 0;
    }

    /// Raw seconds accumulated so far.
    pub fn elapsed(&self) -> (r: i64)
        ensures
            r == self.elapsed,
    {
        self.elapsed
    }
}

} // verus!
