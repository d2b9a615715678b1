//! The envelope generator: a volume that is constant or decays.

use vstd::prelude::*;

verus! {

/// An envelope. `enabled` selects the decaying volume `counter` over the
/// constant volume, which is `period`; `period` is also what the divider
/// reloads from.
#[derive(Debug, Clone, Copy, PartialEq, Eq, Structural)]
pub struct EnvelopeDao {
    pub enabled: bool,
    pub start: bool,
    pub period: u8,
    pub divider: u8,
    pub counter: u8,
}

impl EnvelopeDao {
    /// The envelope at power-on and after a reset.
    pub open spec fn initial() -> EnvelopeDao {
        EnvelopeDao { enabled: false, start: false, period: 0, divider: 0, counter: 0 }
    }

    /// The envelope after a quarter-frame tick. After a restart the decay
    /// begins anew at 15. Else the divider counts down, and when it was at
    /// zero it reloads and the decay goes one down, or, at zero, back to
    /// 15 when `looped`.
    pub open spec fn ticked(self, looped: bool) -> EnvelopeDao {
        if self.start {
            EnvelopeDao { start: false, counter: 15, divider: self.period, ..self }
        } else if self.divider == 0 {
            EnvelopeDao {
                divider: self.period,
                counter: if self.counter > 0 {
                    (self.counter - 1) as u8
                } else if looped {
                    15
                } else {
                    0
                },
                ..self
            }
        } else {
            EnvelopeDao { divider: (self.divider - 1) as u8, ..self }
        }
    }

    /// What holds of every envelope: both volumes stay in four bits.
    pub open spec fn wf(self) -> bool {
        self.period <= 15 && self.counter <= 15
    }

    /// The volume that the envelope puts out.
    pub open spec fn volume(self) -> u8 {
        if self.enabled {
            self.counter
        } else {
            self.period
        }
    }

    pub fn new() -> (r: Self)
        ensures
            r == Self::initial(),
    {
        EnvelopeDao { enabled: false, start: false, period: 0, divider: 0, counter: 0 }
    }

    pub fn reset(&mut self)
        ensures
            *final(self) == Self::initial(),
    {
        *self = EnvelopeDao::new();
    }

    pub fn set_enabled(&mut self, enabled: bool)
        ensures
            *final(self) == (EnvelopeDao { enabled, ..*old(self) }),
    {
        self.enabled = enabled;
    }

    pub fn set_period(&mut self, period: u8)
        requires
            period <= 15,
        ensures
            *final(self) == (EnvelopeDao { period, ..*old(self) }),
    {
        self.period = period;
    }

    pub fn restart(&mut self)
        ensures
            *final(self) == (EnvelopeDao { start: true, ..*old(self) }),
    {
        self.start = true;
    }

    pub fn step_envelope(&mut self, looped: bool)
        ensures
            *final(self) == old(self).ticked(looped),
            old(self).wf() ==> final(self).wf(),
    {
        if self.start {
            self.start = false;
            self.counter = 15;
            self.divider = self.period;
        } else if self.divider == 0 {
            self.divider = self.period;
            if self.counter > 0 {
                self.counter = self.counter - 1;
            } else if looped {
                self.counter = 15;
            }
        } else {
            self.divider = self.divider - 1;
        }
    }

    pub fn get_volume(&self) -> (r: u8)
        ensures
            r == self.volume(),
            self.wf() ==> r <= 15,
    {
        if self.enabled {
            self.counter
        } else {
            self.period
        }
    }
}

} // verus!
