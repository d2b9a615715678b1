//! The standard pad: eight buttons behind a shift register.

use super::Controller;
use crate::open_bus::OpenBusReadResult;
use crate::save::bytes::{bool_byte, byte_of_bool};
use vstd::prelude::*;

verus! {

/// The address of the first port, which is also that of the strobe
/// register.
pub const PORT1: u16 = 0x4016;

/// The address of the second port.
pub const PORT2: u16 = 0x4017;

/// The lines of the data bus that a port drives.
pub const PORT_MASK: u8 = 0x1F;

/// A set of buttons, one bit each. The bits are in the order in which a
/// pad reports them, lowest first.
#[derive(Debug, Clone, Copy, PartialEq, Eq, Structural)]
pub struct Buttons {
    pub bits: u8,
}

impl Buttons {
    pub const A: u8 = 0x01;

    pub const B: u8 = 0x02;

    pub const SELECT: u8 = 0x04;

    pub const START: u8 = 0x08;

    pub const UP: u8 = 0x10;

    pub const DOWN: u8 = 0x20;

    pub const LEFT: u8 = 0x40;

    pub const RIGHT: u8 = 0x80;

    /// No button.
    pub fn empty() -> (r: Self)
        ensures
            r.bits == 0,
    {
        Buttons { bits: 0 }
    }

    pub fn from_bits(bits: u8) -> (r: Self)
        ensures
            r.bits == bits,
    {
        Buttons { bits }
    }

    pub fn bits(&self) -> (r: u8)
        ensures
            r == self.bits,
    {
        self.bits
    }

    /// Whether every button of `code` is in the set.
    pub fn contains(&self, code: u8) -> (r: bool)
        ensures
            r == (self.bits & code == code),
    {
        self.bits & code == code
    }

    /// The set after the buttons of `code` went down (`pressed`) or up.
    pub open spec fn with(self, code: u8, pressed: bool) -> Buttons {
        if pressed {
            Buttons { bits: self.bits | code }
        } else {
            Buttons { bits: self.bits & !code }
        }
    }

    /// The set after a key went down or up: see [`Buttons::with`].
    pub fn key(&self, code: u8, pressed: bool) -> (r: Buttons)
        ensures
            r == self.with(code, pressed),
    {
        if pressed {
            Buttons { bits: self.bits | code }
        } else {
            Buttons { bits: self.bits & !code }
        }
    }
}

/// The bit that a shift register reports next.
pub open spec fn reported(register: u8) -> u8 {
    register % 2
}

/// A shift register after it reported a bit: the rest moves one place
/// down and a one enters at the top.
pub open spec fn shifted_out(register: u8) -> u8 {
    (register / 2 + 128) as u8
}

/// Two standard pads. While `strobe` is high each shift register follows
/// its pad; when it falls the registers keep what the pads showed, and
/// each read of a port reports one button and shifts.
#[derive(Debug, Clone, Copy, PartialEq, Eq, Structural)]
pub struct StandardController {
    pub pad1: Buttons,
    pub pad2: Buttons,
    pub strobe: bool,
    pub register1: u8,
    pub register2: u8,
}

impl View for StandardController {
    type V = StandardController;

    open spec fn view(&self) -> StandardController {
        *self
    }
}

impl StandardController {
    /// The controller after a read of the port at `address`, and the bit
    /// reported. An address that is no port reports nothing.
    pub open spec fn read_port(self, address: u16) -> (StandardController, OpenBusReadResult) {
        if address == PORT1 {
            if self.strobe {
                (self, OpenBusReadResult { data: reported(self.pad1.bits), mask: PORT_MASK })
            } else {
                (
                    StandardController { register1: shifted_out(self.register1), ..self },
                    OpenBusReadResult { data: reported(self.register1), mask: PORT_MASK },
                )
            }
        } else if address == PORT2 {
            if self.strobe {
                (self, OpenBusReadResult { data: reported(self.pad2.bits), mask: PORT_MASK })
            } else {
                (
                    StandardController { register2: shifted_out(self.register2), ..self },
                    OpenBusReadResult { data: reported(self.register2), mask: PORT_MASK },
                )
            }
        } else {
            (self, OpenBusReadResult { data: 0, mask: 0 })
        }
    }

    /// The controller after `value` was written to the strobe register:
    /// bit 0 is the strobe, and while it is high the registers take what
    /// the pads show.
    pub open spec fn strobed(self, value: u8) -> StandardController {
        if value % 2 == 1 {
            StandardController {
                strobe: true,
                register1: self.pad1.bits,
                register2: self.pad2.bits,
                ..self
            }
        } else {
            StandardController { strobe: false, ..self }
        }
    }

    /// The controller after the host set what the first pad shows: while
    /// the strobe is high the pad's register follows.
    pub open spec fn with_pad1(self, buttons: Buttons) -> StandardController {
        StandardController {
            pad1: buttons,
            register1: if self.strobe {
                buttons.bits
            } else {
                self.register1
            },
            ..self
        }
    }

    /// The controller after the host set what the second pad shows.
    pub open spec fn with_pad2(self, buttons: Buttons) -> StandardController {
        StandardController {
            pad2: buttons,
            register2: if self.strobe {
                buttons.bits
            } else {
                self.register2
            },
            ..self
        }
    }

    /// Two pads with no button down.
    pub fn new() -> (r: Self)
        ensures
            r == (StandardController {
                pad1: Buttons { bits: 0 },
                pad2: Buttons { bits: 0 },
                strobe: false,
                register1: 0,
                register2: 0,
            }),
    {
        StandardController {
            pad1: Buttons::empty(),
            pad2: Buttons::empty(),
            strobe: false,
            register1: 0,
            register2: 0,
        }
    }

    pub fn set_pad1(&mut self, buttons: Buttons)
        ensures
            *final(self) == old(self).with_pad1(buttons),
    {
        self.pad1 = buttons;
        if self.strobe {
            self.register1 = buttons.bits;
        }
    }

    pub fn set_pad2(&mut self, buttons: Buttons)
        ensures
            *final(self) == old(self).with_pad2(buttons),
    {
        self.pad2 = buttons;
        if self.strobe {
            self.register2 = buttons.bits;
        }
    }
}

impl Controller for StandardController {
    open spec fn read_spec(controller: StandardController, address: u16) -> (
        StandardController,
        OpenBusReadResult,
    ) {
        controller.read_port(address)
    }

    open spec fn write_spec(controller: StandardController, value: u8) -> StandardController {
        controller.strobed(value)
    }

    fn read(&mut self, address: u16) -> (r: OpenBusReadResult) {
        if address == PORT1 {
            if self.strobe {
                OpenBusReadResult::new(self.pad1.bits % 2, PORT_MASK)
            } else {
                let bit = self.register1 % 2;
                self.register1 = self.register1 / 2 + 128;
                OpenBusReadResult::new(bit, PORT_MASK)
            }
        } else if address == PORT2 {
            if self.strobe {
                OpenBusReadResult::new(self.pad2.bits % 2, PORT_MASK)
            } else {
                let bit = self.register2 % 2;
                self.register2 = self.register2 / 2 + 128;
                OpenBusReadResult::new(bit, PORT_MASK)
            }
        } else {
            OpenBusReadResult::new(0, 0)
        }
    }

    fn write(&mut self, value: u8) {
        if value % 2 == 1 {
            self.strobe = true;
            self.register1 = self.pad1.bits;
            self.register2 = self.pad2.bits;
        } else {
            self.strobe = false;
        }
    }

    /// Five bytes: the two pads, the strobe, the two shift registers.
    open spec fn saved(controller: StandardController) -> Seq<u8> {
        seq![
            controller.pad1.bits,
            controller.pad2.bits,
            bool_byte(controller.strobe),
            controller.register1,
            controller.register2,
        ]
    }

    open spec fn restored(controller: StandardController, bytes: Seq<u8>) -> Option<
        StandardController,
    > {
        if bytes.len() == 5 && bytes[2] <= 1 {
            Some(
                StandardController {
                    pad1: Buttons { bits: bytes[0] },
                    pad2: Buttons { bits: bytes[1] },
                    strobe: bytes[2] == 1,
                    register1: bytes[3],
                    register2: bytes[4],
                },
            )
        } else {
            None
        }
    }

    open spec fn same_image(controller: StandardController, other: StandardController) -> bool {
        true
    }

    fn save(&self) -> (out: Vec<u8>) {
        let mut out: Vec<u8> = Vec::new();
        out.push(self.pad1.bits);
        out.push(self.pad2.bits);
        out.push(byte_of_bool(self.strobe));
        out.push(self.register1);
        out.push(self.register2);
        proof {
            assert(out@ =~= Self::saved(self@));
        }
        out
    }

    fn restorable(&self, bytes: &Vec<u8>) -> (r: bool) {
        bytes.len() == 5 && bytes[2] <= 1
    }

    fn restore(&mut self, bytes: &Vec<u8>) -> (done: bool) {
        if bytes.len() == 5 && bytes[2] <= 1 {
            self.pad1 = Buttons { bits: bytes[0] };
            self.pad2 = Buttons { bits: bytes[1] };
            self.strobe = bytes[2] == 1;
            self.register1 = bytes[3];
            self.register2 = bytes[4];
            true
        } else {
            false
        }
    }

    proof fn lemma_restores(fresh: StandardController, controller: StandardController) {
    }
}

/// A shift register after `reads` bits were reported.
pub open spec fn shifted_out_times(register: u8, reads: nat) -> u8
    decreases reads,
{
    if reads == 0 {
        register
    } else {
        shifted_out(shifted_out_times(register, (reads - 1) as nat))
    }
}

/// Once a pad has reported its eight buttons it is exhausted: every
/// further read reports a one.
pub proof fn lemma_exhausted_reports_one(register: u8, reads: nat)
    requires
        reads >= 8,
    ensures
        reported(shifted_out_times(register, reads)) == 1,
    decreases reads,
{
    reveal_with_fuel(shifted_out_times, 9);
    if reads > 8 {
        lemma_exhausted_reports_one(register, (reads - 1) as nat);
        lemma_exhausted_stays(register, (reads - 1) as nat);
    }
}

/// After eight reads the shift register holds ones only, and stays so.
pub proof fn lemma_exhausted_stays(register: u8, reads: nat)
    requires
        reads >= 8,
    ensures
        shifted_out_times(register, reads) == 0xFF,
    decreases reads,
{
    reveal_with_fuel(shifted_out_times, 9);
    if reads > 8 {
        lemma_exhausted_stays(register, (reads - 1) as nat);
    }
}

} // verus!
