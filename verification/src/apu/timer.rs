//! The divider that clocks a channel's sequencer.

use vstd::prelude::*;

verus! {

/// A down-counter that reloads from `period` when it has reached zero.
#[derive(Debug, Clone, Copy, PartialEq, Eq, Structural)]
pub struct TimerDao {
    pub period: u16,
    pub value: u16,
}

impl TimerDao {
    /// The timer after one cycle.
    pub open spec fn stepped(self) -> TimerDao {
        if self.value == 0 {
            TimerDao { value: self.period, ..self }
        } else {
            TimerDao { value: (self.value - 1) as u16, ..self }
        }
    }

    pub fn new() -> (r: Self)
        ensures
            r == (TimerDao { period: 0, value: 0 }),
    {
        TimerDao { period: 0, value: 0 }
    }

    pub fn reset(&mut self)
        ensures
            *final(self) == (TimerDao { period: 0, value: 0 }),
    {
        self.period = 0;
        self.value = 0;
    }

    pub fn set_period(&mut self, period: u16)
        ensures
            *final(self) == (TimerDao { period, ..*old(self) }),
    {
        self.period = period;
    }

    /// Counts one cycle down; answers whether the counter was at zero, in
    /// which case it reloads and the sequencer is to be clocked.
    pub fn step_timer(&mut self) -> (clock: bool)
        ensures
            *final(self) == old(self).stepped(),
            clock == (old(self).value == 0),
    {
        if self.value == 0 {
            self.value = self.period;
            true
        } else {
            self.value = self.value - 1;
            false
        }
    }
}

} // verus!
