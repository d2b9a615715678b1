//! The counter that silences a channel when it has run down.

use vstd::prelude::*;

verus! {

/// The count that each of the 32 load indices stands for.
pub open spec fn length_of(index: u8) -> u8 {
    match index % 32 {
        0 => 10,
        1 => 254,
        2 => 20,
        3 => 2,
        4 => 40,
        5 => 4,
        6 => 80,
        7 => 6,
        8 => 160,
        9 => 8,
        10 => 60,
        11 => 10,
        12 => 14,
        13 => 12,
        14 => 26,
        15 => 14,
        16 => 12,
        17 => 16,
        18 => 24,
        19 => 18,
        20 => 48,
        21 => 20,
        22 => 96,
        23 => 22,
        24 => 192,
        25 => 24,
        26 => 72,
        27 => 26,
        28 => 16,
        29 => 28,
        30 => 32,
        _ => 30,
    }
}

pub fn length_table(index: u8) -> (r: u8)
    ensures
        r == length_of(index),
        r > 0,
{
    match index % 32 {
        0 => 10,
        1 => 254,
        2 => 20,
        3 => 2,
        4 => 40,
        5 => 4,
        6 => 80,
        7 => 6,
        8 => 160,
        9 => 8,
        10 => 60,
        11 => 10,
        12 => 14,
        13 => 12,
        14 => 26,
        15 => 14,
        16 => 12,
        17 => 16,
        18 => 24,
        19 => 18,
        20 => 48,
        21 => 20,
        22 => 96,
        23 => 22,
        24 => 192,
        25 => 24,
        26 => 72,
        27 => 26,
        28 => 16,
        29 => 28,
        30 => 32,
        _ => 30,
    }
}

/// A length counter. Writes to its registers take effect at the next CPU
/// cycle: `new_halt` waits to become `halt`, and a load waits in
/// `reload_value` (zero: none) and is dropped if the counter was clocked
/// in between, which `prev_value` tells.
#[derive(Debug, Clone, Copy, PartialEq, Eq, Structural)]
pub struct LengthCounterDao {
    pub enabled: bool,
    pub halt: bool,
    pub new_halt: bool,
    pub value: u8,
    pub prev_value: u8,
    pub reload_value: u8,
}

impl LengthCounterDao {
    /// The counter at power-on and after a reset.
    pub open spec fn initial() -> LengthCounterDao {
        LengthCounterDao {
            enabled: false,
            halt: false,
            new_halt: false,
            value: 0,
            prev_value: 0,
            reload_value: 0,
        }
    }

    /// The counter after a load of `index` was written: ignored while the
    /// channel is disabled.
    pub open spec fn loaded(self, index: u8) -> LengthCounterDao {
        if self.enabled {
            LengthCounterDao { reload_value: length_of(index), prev_value: self.value, ..self }
        } else {
            self
        }
    }

    /// The counter after a CPU cycle: what was written takes effect.
    pub open spec fn settled(self) -> LengthCounterDao {
        LengthCounterDao {
            value: if self.reload_value != 0 && self.value == self.prev_value {
                self.reload_value
            } else {
                self.value
            },
            reload_value: 0,
            halt: self.new_halt,
            ..self
        }
    }

    /// The counter after a half-frame tick: one less, unless it is halted
    /// or at zero.
    pub open spec fn ticked(self) -> LengthCounterDao {
        if self.value > 0 && !self.halt {
            LengthCounterDao { value: (self.value - 1) as u8, ..self }
        } else {
            self
        }
    }

    /// The counter after the channel was enabled or disabled: disabling
    /// clears it.
    pub open spec fn switched(self, enabled: bool) -> LengthCounterDao {
        LengthCounterDao {
            enabled,
            value: if enabled {
                self.value
            } else {
                0
            },
            ..self
        }
    }

    pub fn new() -> (r: Self)
        ensures
            r == Self::initial(),
    {
        LengthCounterDao {
            enabled: false,
            halt: false,
            new_halt: false,
            value: 0,
            prev_value: 0,
            reload_value: 0,
        }
    }

    pub fn reset(&mut self)
        ensures
            *final(self) == Self::initial(),
    {
        *self = LengthCounterDao::new();
    }

    pub fn set_halt(&mut self, halt: bool)
        ensures
            *final(self) == (LengthCounterDao { new_halt: halt, ..*old(self) }),
    {
        self.new_halt = halt;
    }

    pub fn set_load(&mut self, index: u8)
        ensures
            *final(self) == old(self).loaded(index),
    {
        if self.enabled {
            self.reload_value = length_table(index);
            self.prev_value = self.value;
        }
    }

    pub fn step_length_counter(&mut self)
        ensures
            *final(self) == old(self).settled(),
    {
        if self.reload_value != 0 && self.value == self.prev_value {
            self.value = self.reload_value;
        }
        self.reload_value = 0;
        self.halt = self.new_halt;
    }

    /// The half-frame tick. The counter never goes below zero.
    pub fn step_length(&mut self)
        ensures
            *final(self) == old(self).ticked(),
            final(self).value <= old(self).value,
    {
        if self.value > 0 && !self.halt {
            self.value = self.value - 1;
        }
    }

    /// Whether the counter has not run down.
    pub fn get_status(&self) -> (r: bool)
        ensures
            r == (self.value > 0),
    {
        self.value > 0
    }

    pub fn set_enabled(&mut self, enabled: bool)
        ensures
            *final(self) == old(self).switched(enabled),
    {
        if !enabled {
            self.value = 0;
        }
        self.enabled = enabled;
    }
}

} // verus!
