//! Colours as the display takes them.

use vstd::prelude::*;
use vstd::std_specs::convert::FromSpecImpl;

verus! {

/// A colour of eight bits each of red, green and blue.
#[derive(Debug, Clone, Copy, PartialEq, Eq, Structural)]
pub struct RGB {
    pub red: u8,
    pub green: u8,
    pub blue: u8,
}

/// The colour that the 24-bit number `value` stands for: red in bits 23
/// to 16, green in bits 15 to 8, blue in bits 7 to 0. Higher bits do not
/// count.
pub open spec fn rgb_of(value: u32) -> RGB {
    RGB {
        red: ((value / 0x10000) % 0x100) as u8,
        green: ((value / 0x100) % 0x100) as u8,
        blue: (value % 0x100) as u8,
    }
}

impl From<u32> for RGB {
    fn from(value: u32) -> (r: RGB) {
        RGB {
            red: ((value / 0x10000) % 0x100) as u8,
            green: ((value / 0x100) % 0x100) as u8,
            blue: (value % 0x100) as u8,
        }
    }
}

impl FromSpecImpl<u32> for RGB {
    open spec fn obeys_from_spec() -> bool {
        true
    }

    open spec fn from_spec(value: u32) -> RGB {
        rgb_of(value)
    }
}

impl RGB {
    /// The 24-bit number that stands for the colour.
    pub open spec fn packed(self) -> u32 {
        (self.red * 0x10000 + self.green * 0x100 + self.blue) as u32
    }

    /// The 24-bit number that stands for the colour: see [`RGB::packed`].
    pub fn to_u32(&self) -> (r: u32)
        ensures
            r == self.packed(),
            r <= 0xFF_FFFF,
    {
        (self.red as u32) * 0x10000 + (self.green as u32) * 0x100 + (self.blue as u32)
    }
}

/// A colour packed into a number and taken out again is the same colour.
pub proof fn lemma_rgb_round_trip(colour: RGB)
    ensures
        rgb_of(colour.packed()) == colour,
{
}

} // verus!
