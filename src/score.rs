//! The player's score.
use vstd::prelude::*;

verus! {

/// Points collected in the current run.
#[derive(Clone, Copy, Debug, PartialEq, Eq, Structural)]
pub struct Score {
    pub score: i32,
}

impl Score {
    /// A score of zero.
    pub fn new() -> (r: Score)
        ensures
            r.score == 0,
    {
        Score { score: 0 }
    }

    /// Sets the score back to zero.
    pub fn reset(&mut self)
        ensures
            final(self).score == 0,
    {
        self.score = 0;
    }

    /// Adds the delta of a scoring region the player passed through.
    pub fn add(&mut self, delta: i32)
        requires
            i32::MIN <= old(self).score + delta <= i32::MAX,
        ensures
            final(self).score == old(self).score + delta,
    {
        self.score = self.score + delta;
    }
}

} // verus!
