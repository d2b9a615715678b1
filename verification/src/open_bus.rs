//! Reads that drive only some of the data bus's eight lines.

use vstd::prelude::*;

verus! {

/// What a device answers to a read: the byte it drives, and which of the
/// bits it drives. The other bits keep what was last on the bus.
#[derive(Debug, Clone, Copy, PartialEq, Eq, Structural)]
pub struct OpenBusReadResult {
    pub data: u8,
    pub mask: u8,
}

impl OpenBusReadResult {
    /// The byte that the bus carries after the read, when `open` was on it
    /// before: the device's bits where it drives, the old bits elsewhere.
    pub open spec fn resolved(self, open: u8) -> u8 {
        (self.data & self.mask) | (open & !self.mask)
    }

    pub fn new(data: u8, mask: u8) -> (r: Self)
        ensures
            r == (OpenBusReadResult { data, mask }),
    {
        OpenBusReadResult { data, mask }
    }

    /// The byte on the bus after the read: see
    /// [`OpenBusReadResult::resolved`].
    pub fn resolve(&self, open: u8) -> (r: u8)
        ensures
            r == self.resolved(open),
    {
        (self.data & self.mask) | (open & !self.mask)
    }
}

} // verus!
