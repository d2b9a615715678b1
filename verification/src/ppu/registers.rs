//! The eight registers through which the CPU reaches the picture unit.

use super::state::{PpuState, CTRL_INCREMENT, CTRL_NMI, VBL_LINE};
use super::{Ppu, PpuView};
use crate::cartridge::Cartridge;
use crate::cpu::interrupt::Interrupt;
use crate::memory::{byte_at, load, store, stored};
use crate::ppu::address::PALETTE_BASE;
use crate::ppu::address::ADDRESS_SPACE;
use vstd::prelude::*;

verus! {

impl PpuView {
    /// The picture unit with `value` on its data lines.
    pub open spec fn driven(self, value: u8) -> PpuView {
        PpuView { state: PpuState { open_bus: value, ..self.state }, ..self }
    }

    /// What a read of the status register returns: the three flags, and
    /// below them what was last on the data lines.
    pub open spec fn status_byte(self) -> u8 {
        (self.state.status_bits() + self.state.open_bus % 32) as u8
    }

    /// The picture unit after a read of the status register: vertical
    /// blanking and the write toggle are cleared. A read on the dot
    /// before vertical blanking begins keeps it from beginning in this
    /// frame.
    pub open spec fn status_read(self) -> PpuView {
        PpuView {
            state: PpuState {
                vbl: false,
                scroll: super::scroll::Scroll { w: false, ..self.state.scroll },
                suppress_vbl: self.state.suppress_vbl || (self.state.scanline == VBL_LINE
                    && self.state.dot == 1),
                open_bus: self.status_byte(),
                ..self.state
            },
            ..self
        }
    }

    /// Whether a read of the status register takes back the NMI: it comes
    /// on one of the two dots after vertical blanking began.
    pub open spec fn status_read_takes_back(self) -> bool {
        self.state.scanline == VBL_LINE && (self.state.dot == 2 || self.state.dot == 3)
    }

    /// The picture unit after `value` was written to the control register.
    pub open spec fn control_written(self, value: u8) -> PpuView {
        PpuView {
            state: PpuState {
                ctrl: value,
                scroll: self.state.scroll.control_written(value),
                open_bus: value,
                ..self.state
            },
            ..self
        }
    }

    /// Whether a write of `value` to the control register pulls the NMI
    /// line: it turns the interrupt on while vertical blanking is flagged.
    pub open spec fn control_write_raises(self, value: u8) -> bool {
        value & CTRL_NMI != 0 && self.state.ctrl & CTRL_NMI == 0 && self.state.vbl
    }

    /// The picture unit after `value` was written to sprite memory through
    /// its data register: the address moves on by one.
    pub open spec fn oam_written(self, value: u8) -> PpuView {
        PpuView {
            oam: stored(self.oam, self.state.oam_addr as int, value),
            state: PpuState {
                oam_addr: self.state.oam_addr.wrapping_add(1),
                open_bus: value,
                ..self.state
            },
            ..self
        }
    }

    /// The byte that a read of the data register returns: for the palette
    /// the entry itself above what was on the two highest data lines, for
    /// everything else what the read before it fetched.
    pub open spec fn data_byte(self) -> u8 {
        let a = self.state.scroll.v % ADDRESS_SPACE;
        if a >= PALETTE_BASE {
            (self.palette_read(a) % 64 + (self.state.open_bus / 64) * 64) as u8
        } else {
            self.state.read_buffer
        }
    }

    /// The address that a read of the data register fetches from for the
    /// read after it: for the palette the nametable byte that lies under
    /// it.
    pub open spec fn data_source(self) -> u16 {
        let a = self.state.scroll.v % ADDRESS_SPACE;
        if a >= PALETTE_BASE {
            (a - 0x1000) as u16
        } else {
            a
        }
    }

    /// The picture unit and the cartridge after a read of the data
    /// register.
    pub open spec fn data_read<G: Cartridge>(self, cartridge: G::V) -> (PpuView, G::V) {
        let (c, fetched) = self.vram_read::<G>(cartridge, self.data_source());
        (
            PpuView {
                state: PpuState {
                    read_buffer: fetched,
                    open_bus: self.data_byte(),
                    scroll: self.state.scroll.accessed(self.state.ctrl & CTRL_INCREMENT != 0),
                    ..self.state
                },
                ..self
            },
            c,
        )
    }

    /// The picture unit and the cartridge after `value` was written to the
    /// data register.
    pub open spec fn data_written<G: Cartridge>(self, cartridge: G::V, value: u8) -> (
        PpuView,
        G::V,
    ) {
        let (p, c) = self.vram_written::<G>(cartridge, self.state.scroll.v, value);
        (
            PpuView {
                state: PpuState {
                    open_bus: value,
                    scroll: p.state.scroll.accessed(p.state.ctrl & CTRL_INCREMENT != 0),
                    ..p.state
                },
                ..p
            },
            c,
        )
    }

    /// The picture unit, the cartridge and the interrupt lines after a
    /// read of the register at `address`, and the byte read. Registers
    /// repeat every 8 addresses. Those that cannot be read return what was
    /// last on the data lines.
    pub open spec fn register_read<G: Cartridge>(
        self,
        cartridge: G::V,
        interrupt: Interrupt,
        address: u16,
    ) -> (PpuView, G::V, Interrupt, u8) {
        match address % 8 {
            2 => (
                self.status_read(),
                cartridge,
                if self.status_read_takes_back() {
                    Interrupt { nmi: false, ..interrupt }
                } else {
                    interrupt
                },
                self.status_byte(),
            ),
            4 => (
                self.driven(byte_at(self.oam, self.state.oam_addr as int)),
                cartridge,
                interrupt,
                byte_at(self.oam, self.state.oam_addr as int),
            ),
            7 => {
                let (p, c) = self.data_read::<G>(cartridge);
                (p, c, interrupt, self.data_byte())
            },
            _ => (self, cartridge, interrupt, self.state.open_bus),
        }
    }

    /// The picture unit, the cartridge and the interrupt lines after
    /// `value` was written to the register at `address`.
    pub open spec fn register_written<G: Cartridge>(
        self,
        cartridge: G::V,
        interrupt: Interrupt,
        address: u16,
        value: u8,
    ) -> (PpuView, G::V, Interrupt) {
        match address % 8 {
            0 => (
                self.control_written(value),
                cartridge,
                if self.control_write_raises(value) {
                    Interrupt { nmi: true, ..interrupt }
                } else {
                    interrupt
                },
            ),
            1 => (
                PpuView {
                    state: PpuState { mask: value, open_bus: value, ..self.state },
                    ..self
                },
                cartridge,
                interrupt,
            ),
            3 => (
                PpuView {
                    state: PpuState { oam_addr: value, open_bus: value, ..self.state },
                    ..self
                },
                cartridge,
                interrupt,
            ),
            4 => (self.oam_written(value), cartridge, interrupt),
            5 => (
                PpuView {
                    state: PpuState {
                        scroll: self.state.scroll.scroll_written(value),
                        open_bus: value,
                        ..self.state
                    },
                    ..self
                },
                cartridge,
                interrupt,
            ),
            6 => (
                PpuView {
                    state: PpuState {
                        scroll: self.state.scroll.address_written(value),
                        open_bus: value,
                        ..self.state
                    },
                    ..self
                },
                cartridge,
                interrupt,
            ),
            7 => {
                let (p, c) = self.data_written::<G>(cartridge, value);
                (p, c, interrupt)
            },
            _ => (self.driven(value), cartridge, interrupt),
        }
    }
}

impl Ppu {
    /// Reads the status register: see [`PpuView::status_read`].
    pub fn read_status(&mut self, interrupt: &mut Interrupt) -> (value: u8)
        ensures
            final(self)@.extent() == old(self)@.extent(),
            final(self)@ == old(self)@.status_read(),
            value == old(self)@.status_byte(),
            *final(interrupt) == (if old(self)@.status_read_takes_back() {
                Interrupt { nmi: false, ..*old(interrupt) }
            } else {
                *old(interrupt)
            }),
            !final(self).state.vbl,
            !final(self).state.scroll.w,
    {
        let value = self.state.get_status_bits() + self.state.open_bus % 32;
        if self.state.scanline == VBL_LINE {
            if self.state.dot == 1 {
                self.state.suppress_vbl = true;
            } else if self.state.dot == 2 || self.state.dot == 3 {
                interrupt.nmi = false;
            }
        }
        self.state.vbl = false;
        self.state.scroll.w = false;
        self.state.open_bus = value;
        value
    }

    /// Reads sprite memory through its data register.
    pub fn read_oam_data(&mut self) -> (value: u8)
        ensures
            final(self)@.extent() == old(self)@.extent(),
            value == byte_at(old(self)@.oam, old(self).state.oam_addr as int),
            final(self)@ == old(self)@.driven(value),
    {
        let value = load(&self.oam, self.state.oam_addr as usize);
        self.state.open_bus = value;
        value
    }

    /// Reads the data register: see [`PpuView::data_read`].
    pub fn read_data<G: Cartridge>(&mut self, cartridge: &mut G) -> (value: u8)
        ensures
            final(self)@.extent() == old(self)@.extent(),
            (final(self)@, final(cartridge)@) == old(self)@.data_read::<G>(old(cartridge)@),
            value == old(self)@.data_byte(),
    {
        let a = self.state.scroll.v % ADDRESS_SPACE;
        let value = if a >= PALETTE_BASE {
            self.read_palette(a) % 64 + (self.state.open_bus / 64) * 64
        } else {
            self.state.read_buffer
        };
        let source = if a >= PALETTE_BASE {
            a - 0x1000
        } else {
            a
        };
        let fetched = self.read_vram(source, cartridge);
        self.state.read_buffer = fetched;
        self.state.open_bus = value;
        self.state.scroll.access(self.state.ctrl & CTRL_INCREMENT != 0);
        value
    }

    /// Writes the control register: see [`PpuView::control_written`].
    pub fn write_control(&mut self, value: u8, interrupt: &mut Interrupt)
        ensures
            final(self)@.extent() == old(self)@.extent(),
            final(self)@ == old(self)@.control_written(value),
            *final(interrupt) == (if old(self)@.control_write_raises(value) {
                Interrupt { nmi: true, ..*old(interrupt) }
            } else {
                *old(interrupt)
            }),
    {
        if value & CTRL_NMI != 0 && self.state.ctrl & CTRL_NMI == 0 && self.state.vbl {
            interrupt.nmi = true;
        }
        self.state.ctrl = value;
        self.state.scroll.write_control(value);
        self.state.open_bus = value;
    }

    /// Writes sprite memory through its data register: see
    /// [`PpuView::oam_written`].
    pub fn write_oam_data(&mut self, value: u8)
        ensures
            final(self)@.extent() == old(self)@.extent(),
            final(self)@ == old(self)@.oam_written(value),
    {
        store(&mut self.oam, self.state.oam_addr as usize, value);
        self.state.oam_addr = self.state.oam_addr.wrapping_add(1);
        self.state.open_bus = value;
    }

    /// Writes the data register: see [`PpuView::data_written`].
    pub fn write_data<G: Cartridge>(&mut self, value: u8, cartridge: &mut G)
        ensures
            final(self)@.extent() == old(self)@.extent(),
            (final(self)@, final(cartridge)@) == old(self)@.data_written::<G>(
                old(cartridge)@,
                value,
            ),
    {
        let address = self.state.scroll.v;
        self.write_vram(address, value, cartridge);
        self.state.open_bus = value;
        self.state.scroll.access(self.state.ctrl & CTRL_INCREMENT != 0);
    }

    /// Reads the register at `address`: see [`PpuView::register_read`].
    pub fn read_register<G: Cartridge>(
        &mut self,
        address: u16,
        cartridge: &mut G,
        interrupt: &mut Interrupt,
    ) -> (value: u8)
        ensures
            final(self)@.extent() == old(self)@.extent(),
            (final(self)@, final(cartridge)@, *final(interrupt), value) == old(
                self,
            )@.register_read::<G>(old(cartridge)@, *old(interrupt), address),
    {
        match address % 8 {
            2 => self.read_status(interrupt),
            4 => self.read_oam_data(),
            7 => self.read_data(cartridge),
            _ => self.state.open_bus,
        }
    }

    /// Writes the register at `address`: see
    /// [`PpuView::register_written`].
    pub fn write_register<G: Cartridge>(
        &mut self,
        address: u16,
        value: u8,
        cartridge: &mut G,
        interrupt: &mut Interrupt,
    )
        ensures
            final(self)@.extent() == old(self)@.extent(),
            (final(self)@, final(cartridge)@, *final(interrupt)) == old(
                self,
            )@.register_written::<G>(old(cartridge)@, *old(interrupt), address, value),
    {
        match address % 8 {
            0 => self.write_control(value, interrupt),
            1 => {
                self.state.mask = value;
                self.state.open_bus = value;
            },
            3 => {
                self.state.oam_addr = value;
                self.state.open_bus = value;
            },
            4 => self.write_oam_data(value),
            5 => {
                self.state.scroll.write_scroll(value);
                self.state.open_bus = value;
            },
            6 => {
                self.state.scroll.write_address(value);
                self.state.open_bus = value;
            },
            7 => self.write_data(value, cartridge),
            _ => {
                self.state.open_bus = value;
            },
        }
    }
}

/// The race between a read of the status register and the beginning of
/// vertical blanking. A read on the dot before blanking begins finds the
/// flag clear, and when that dot has run the flag is still clear and the
/// NMI line has not been pulled; without the read the dot sets the flag,
/// and pulls the line if the control register asks for it.
pub proof fn lemma_status_read_race<G: Cartridge>(
    ppu: PpuView,
    cartridge: G::V,
    interrupt: Interrupt,
)
    requires
        ppu.state.scanline == VBL_LINE,
        ppu.state.dot == 1,
        !ppu.state.suppress_vbl,
    ensures
        !ppu.status_read().state.vbl,
        !ppu.status_read().state.scroll.w,
        !ppu.status_read().dot_stepped::<G>(cartridge, interrupt).0.state.vbl,
        ppu.status_read().dot_stepped::<G>(cartridge, interrupt).2 == interrupt,
        ppu.dot_stepped::<G>(cartridge, interrupt).0.state.vbl,
        ppu.state.ctrl & CTRL_NMI != 0 ==> ppu.dot_stepped::<G>(cartridge, interrupt).2.nmi,
{
    reveal(PpuView::dot_stepped);
    reveal(PpuView::reload_dot);
    reveal(PpuView::pixel_dot);
    reveal(PpuView::fetch_dot);
    reveal(PpuView::scroll_dot);
    reveal(PpuView::sprite_dot);
}

} // verus!
