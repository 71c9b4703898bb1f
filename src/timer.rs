//! Repeating countdown timers on a millisecond clock.
use vstd::prelude::*;

verus! {

/// A timer that completes once every `duration_ms` and starts over.
#[derive(Clone, Copy, Debug, PartialEq, Eq, Structural)]
pub struct RepeatingTimer {
    pub duration_ms: u64,
    pub elapsed_ms: u64,
}

impl RepeatingTimer {
    pub open spec fn wf(self) -> bool {
        self.duration_ms > 0 && self.elapsed_ms < self.duration_ms
    }

    /// Whether advancing by `delta_ms` completes a period.
    pub open spec fn completes(self, delta_ms: int) -> bool {
        self.elapsed_ms + delta_ms >= self.duration_ms
    }

    /// The timer after advancing by `delta_ms`.
    pub open spec fn advanced(self, delta_ms: int) -> RepeatingTimer {
        RepeatingTimer {
            duration_ms: self.duration_ms,
            elapsed_ms: ((self.elapsed_ms + delta_ms) % (self.duration_ms as int)) as u64,
        }
    }

    pub fn new(duration_ms: u64) -> (r: RepeatingTimer)
        requires
            duration_ms > 0,
        ensures
            r.wf(),
            r.duration_ms == duration_ms,
            r.elapsed_ms == 0,
    {
        RepeatingTimer { duration_ms, elapsed_ms: 0 }
    }

    /// Advances the timer by `delta_ms` and tells whether a period completed;
    /// the time past the end of the period carries over.
    pub fn tick(&mut self, delta_ms: u64) -> (finished: bool)
        requires
            old(self).wf(),
        ensures
            final(self).wf(),
            *final(self) == old(self).advanced(delta_ms as int),
            finished == old(self).completes(delta_ms as int),
    {
        let total: u128 = self.elapsed_ms as u128 + delta_ms as u128;
        let d: u128 = self.duration_ms as u128;
        let rest: u128 = total % d;
        self.elapsed_ms = rest as u64;
        total >= d
    }
}

} // verus!
