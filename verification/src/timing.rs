//! Frame timing: the render loop's single evolving scalar.
//!
//! The loop advances an elapsed-time accumulator by one fixed step per
//! frame. Time is held in microseconds, so the step of five thousandths of
//! a second is the exact integer 5000 and accumulation is exact.

use vstd::prelude::*;

verus! {

/// The fixed time step added after every frame, in microseconds
/// (five thousandths of a second).
pub const TIME_STEP_MICROS: u64 = 5000;

/// Elapsed animation time together with the number of completed frames.
#[derive(Clone, Copy, PartialEq, Eq, Structural, Debug)]
pub struct TimeAccumulator {
    /// Elapsed time in microseconds.
    pub micros: u64,
    /// Number of completed frames.
    pub frames: u64,
}

impl TimeAccumulator {
    /// After any number of frames, the accumulator is exactly the frame
    /// count times the fixed step.
    pub open spec fn wf(self) -> bool {
        self.micros == self.frames * TIME_STEP_MICROS
    }

    /// A fresh accumulator: no frames completed, no time elapsed.
    pub fn new() -> (t: Self)
        ensures
            t.wf(),
            t.frames == 0,
            t.micros == 0,
    {
        TimeAccumulator { micros: 0, frames: 0 }
    }

    /// Complete one frame: elapsed time grows by exactly one step.
    pub fn advance(&mut self)
        requires
            old(self).wf(),
            old(self).micros + TIME_STEP_MICROS <= u64::MAX,
        ensures
            final(self).wf(),
            final(self).frames == old(self).frames + 1,
            final(self).micros == old(self).micros + TIME_STEP_MICROS,
    {
        proof {
            let f = old(self).frames as int;
            assert(f <= f * (TIME_STEP_MICROS as int)) by (nonlinear_arith)
                requires f >= 0;
        }
        self.micros = self.micros + TIME_STEP_MICROS;
        self.frames = self.frames + 1;
    }
}

} // verus!
