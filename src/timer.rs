//! A repeating countdown measured in milliseconds.
use vstd::prelude::*;

verus! {

/// A repeating timer: it fires each time `duration` milliseconds have run, and carries
/// the rest of the time over into the next period.
#[derive(Clone, Copy, Debug, PartialEq, Eq, Structural)]
pub struct CadenceTimer {
    /// Length of one period, in milliseconds.
    pub duration: u64,
    /// Time run since the last firing, in milliseconds.
    pub elapsed: u64,
}

impl CadenceTimer {
    pub open spec fn wf(self) -> bool {
        0 < self.duration <= u32::MAX && self.elapsed < self.duration
    }

    /// A timer that has just been started with the given period.
    pub open spec fn armed(millis: u32) -> CadenceTimer {
        CadenceTimer { duration: millis as u64, elapsed: 0 }
    }

    /// Starts a timer with a period of `millis` milliseconds.
    pub fn from_millis(millis: u32) -> (r: CadenceTimer)
        requires
            millis > 0,
        ensures
            r == CadenceTimer::armed(millis),
            r.wf(),
    {
        CadenceTimer { duration: millis as u64, elapsed: 0 }
    }

    /// Runs the timer for `dt` milliseconds and returns how many times it fired.
    pub fn tick(&mut self, dt: u32) -> (fired: u64)
        requires
            old(self).wf(),
        ensures
            final(self).wf(),
            final(self).duration == old(self).duration,
            fired == (old(self).elapsed + dt) / (old(self).duration as int),
            final(self).elapsed == (old(self).elapsed + dt) % (old(self).duration as int),
    {
        let total: u64 = self.elapsed + dt as u64;
        self.elapsed = total % self.duration;
        total / self.duration
    }
}

} // verus!
