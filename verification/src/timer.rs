//! A countdown timer: it accumulates elapsed time toward a fixed target and
//! reports completion once the accumulated time reaches the target.

use vstd::prelude::*;

verus! {

/// How long the loading screen stays up, in milliseconds.
pub const LOADING_DURATION_MILLIS: u64 = 3000;

/// `base` moved by `amount`, clamped into the range of `u64`.
pub open spec fn clamped_add(base: u64, amount: int) -> u64 {
    if base + amount > u64::MAX {
        u64::MAX
    } else if base + amount < 0 {
        0
    } else {
        (base + amount) as u64
    }
}

/// A countdown toward a fixed target duration. Accumulation is monotone and
/// never resets, so completion, once reached, is permanent.
pub struct CountdownTimer {
    /// Total elapsed time fed in so far, in milliseconds.
    pub elapsed: u64,
    /// The duration to count down, in milliseconds.
    pub target: u64,
}

impl CountdownTimer {
    /// Whether the accumulated time has reached the target.
    pub open spec fn complete(self) -> bool {
        self.elapsed >= self.target
    }

    pub fn new(target: u64) -> (t: CountdownTimer)
        ensures
            t.elapsed == 0,
            t.target == target,
    {
        CountdownTimer { elapsed: 0, target }
    }

    /// Adds a frame's elapsed time. Saturates at the top of the range rather
    /// than wrapping, which keeps accumulation monotone.
    pub fn advance(&mut self, delta: u64)
        ensures
            final(self).target == old(self).target,
            final(self).elapsed == clamped_add(old(self).elapsed, delta as int),
    {
        self.elapsed = self.elapsed.saturating_add(delta);
    }

    /// True once accumulated elapsed time has reached the target, and on every
    /// later frame after that.
    pub fn is_complete(&self) -> (r: bool)
        ensures
            r == self.complete(),
    {
        self.elapsed >= self.target
    }
}

/// Accumulation only grows: a timer that is complete stays complete through
/// any further `advance`.
pub proof fn lemma_completion_is_permanent(t: CountdownTimer, delta: u64)
    requires
        t.complete(),
    ensures
        (CountdownTimer { elapsed: clamped_add(t.elapsed, delta as int), ..t }).complete(),
{
}

} // verus!
