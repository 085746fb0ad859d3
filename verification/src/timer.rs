//! Countdown timers, driven by the elapsed time of each tick.

use vstd::prelude::*;

verus! {

/// A countdown: the time left until it fires. It fires once the time left
/// is zero, and stays fired until it is reset.
#[derive(Clone, Copy, Debug, PartialEq, Eq, Structural)]
pub struct Countdown {
    pub remaining: u64,
}

impl Countdown {
    /// The countdown after `elapsed` more time has passed: the time left
    /// shrinks by `elapsed` and stops at zero.
    pub open spec fn ticked(self, elapsed: u64) -> Countdown {
        Countdown {
            remaining: if elapsed >= self.remaining {
                0
            } else {
                (self.remaining - elapsed) as u64
            },
        }
    }

    /// The countdown has fired.
    pub open spec fn is_finished(self) -> bool {
        self.remaining == 0
    }

    /// A countdown that fires after `duration`.
    pub fn new(duration: u64) -> (c: Countdown)
        ensures
            c.remaining == duration,
    {
        Countdown { remaining: duration }
    }

    /// Lets `elapsed` time pass and says whether the countdown has fired.
    pub fn tick(&mut self, elapsed: u64) -> (fired: bool)
        ensures
            *final(self) == old(self).ticked(elapsed),
            fired == final(self).is_finished(),
    {
        self.remaining = self.remaining.saturating_sub(elapsed);
        self.remaining == 0
    }

    /// Says whether the countdown has fired.
    pub fn finished(&self) -> (fired: bool)
        ensures
            fired == self.is_finished(),
    {
        self.remaining == 0
    }

    /// Arms the countdown anew, to fire after `duration`.
    pub fn reset(&mut self, duration: u64)
        ensures
            final(self).remaining == duration,
    {
        self.remaining = duration;
    }
}

} // verus!
