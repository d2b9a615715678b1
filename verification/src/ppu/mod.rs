//! The picture unit: 341 dots a line, 262 lines a frame, three dots for
//! every CPU cycle. On its way it fetches tiles and sprites, puts out one
//! pixel for each of the 256 by 240 visible dots, and raises vertical
//! blanking.

pub mod address;
pub mod background;
pub mod registers;
pub mod render;
pub mod scroll;
pub mod sprite;
pub mod state;

use self::address::{
    nametable_index, nametable_slot, palette_index, palette_slot, ADDRESS_SPACE, NAMETABLE_BASE,
    PALETTE_BASE,
};
use self::background::Background;
use self::sprite::SpriteEvaluation;
use self::state::PpuState;
use crate::cartridge::Cartridge;
use crate::memory::{byte_at, fill, filled, load, store, stored};
use vstd::prelude::*;

verus! {

/// The size of sprite memory: four bytes for each of 64 sprites.
pub const OAM_SIZE: usize = 256;

/// The size of the memory of the sprites found for a line.
pub const SECONDARY_SIZE: usize = 32;

/// The size of the palette.
pub const PALETTE_SIZE: usize = 32;

/// The size of nametable memory.
pub const NAMETABLE_MEMORY: usize = 0x800;

/// The number of sprites that a line shows.
pub const UNITS: usize = 8;

/// One dot of the picture: where it lies, which of the 64 colours it has,
/// and the three emphasis bits of the moment.
#[derive(Debug, Clone, Copy, PartialEq, Eq, Structural)]
pub struct Pixel {
    pub x: u8,
    pub y: u8,
    pub index: u8,
    pub emphasis: u8,
}

/// Where the picture unit sends its pixels.
pub trait Screen {
    /// The pixels taken so far, oldest first.
    spec fn pixels(&self) -> Seq<Pixel>;

    fn write_pixel(&mut self, x: u8, y: u8, index: u8, emphasis: u8)
        ensures
            final(self).pixels() == old(self).pixels().push(Pixel { x, y, index, emphasis }),
    ;
}

/// The picture unit.
pub struct Ppu {
    pub state: PpuState,
    pub background: Background,
    pub evaluation: SpriteEvaluation,
    pub oam: Vec<u8>,
    pub secondary: Vec<u8>,
    pub palette: Vec<u8>,
    pub nametable: Vec<u8>,
    pub sprite_low: Vec<u8>,
    pub sprite_high: Vec<u8>,
    pub sprite_attribute: Vec<u8>,
    pub sprite_x: Vec<u8>,
}

/// The picture unit as contracts see it.
pub struct PpuView {
    pub state: PpuState,
    pub background: Background,
    pub evaluation: SpriteEvaluation,
    pub oam: Seq<u8>,
    pub secondary: Seq<u8>,
    pub palette: Seq<u8>,
    pub nametable: Seq<u8>,
    pub sprite_low: Seq<u8>,
    pub sprite_high: Seq<u8>,
    pub sprite_attribute: Seq<u8>,
    pub sprite_x: Seq<u8>,
}

impl View for Ppu {
    type V = PpuView;

    open spec fn view(&self) -> PpuView {
        PpuView {
            state: self.state,
            background: self.background,
            evaluation: self.evaluation,
            oam: self.oam@,
            secondary: self.secondary@,
            palette: self.palette@,
            nametable: self.nametable@,
            sprite_low: self.sprite_low@,
            sprite_high: self.sprite_high@,
            sprite_attribute: self.sprite_attribute@,
            sprite_x: self.sprite_x@,
        }
    }
}

impl PpuView {
    /// The picture unit at power-on: memories cleared, no sprite found.
    pub open spec fn initial() -> PpuView {
        PpuView {
            state: PpuState::initial(),
            background: Background::initial(),
            evaluation: SpriteEvaluation::initial(),
            oam: filled(OAM_SIZE as nat, 0),
            secondary: filled(SECONDARY_SIZE as nat, 0xFF),
            palette: filled(PALETTE_SIZE as nat, 0),
            nametable: filled(NAMETABLE_MEMORY as nat, 0),
            sprite_low: filled(UNITS as nat, 0),
            sprite_high: filled(UNITS as nat, 0),
            sprite_attribute: filled(UNITS as nat, 0),
            sprite_x: filled(UNITS as nat, 0),
        }
    }

    /// The sizes of the picture unit's memories: sprite memory, the
    /// memory of the sprites found, the palette, nametable memory, and the
    /// four memories of the sprites shown.
    pub open spec fn extent(self) -> Seq<nat> {
        seq![
            self.oam.len(),
            self.secondary.len(),
            self.palette.len(),
            self.nametable.len(),
            self.sprite_low.len(),
            self.sprite_high.len(),
            self.sprite_attribute.len(),
            self.sprite_x.len(),
        ]
    }

    /// Whether every memory has the size that the picture unit is built
    /// with.
    pub open spec fn sized(self) -> bool {
        &&& self.oam.len() == OAM_SIZE
        &&& self.secondary.len() == SECONDARY_SIZE
        &&& self.palette.len() == PALETTE_SIZE
        &&& self.nametable.len() == NAMETABLE_MEMORY
        &&& self.sprite_low.len() == UNITS
        &&& self.sprite_high.len() == UNITS
        &&& self.sprite_attribute.len() == UNITS
        &&& self.sprite_x.len() == UNITS
    }

    /// The palette entry that the address `address` reaches.
    pub open spec fn palette_read(self, address: u16) -> u8 {
        byte_at(self.palette, palette_index(address))
    }

    /// The picture unit after `value` was written to the palette at
    /// `address`: an entry keeps six bits.
    pub open spec fn palette_written(self, address: u16, value: u8) -> PpuView {
        PpuView { palette: stored(self.palette, palette_index(address), value % 64), ..self }
    }

    /// The cartridge after a read of `address` in the picture unit's
    /// address space, and the byte read: pattern memory on the cartridge
    /// below 0x2000, the palette from 0x3F00 on, nametable memory
    /// between.
    pub open spec fn vram_read<G: Cartridge>(self, cartridge: G::V, address: u16) -> (G::V, u8) {
        let a = address % ADDRESS_SPACE;
        if a < NAMETABLE_BASE {
            G::read_chr_spec(cartridge, a)
        } else if a < PALETTE_BASE {
            (
                cartridge,
                byte_at(self.nametable, nametable_index(G::mirroring_spec(cartridge), a)),
            )
        } else {
            (cartridge, self.palette_read(a))
        }
    }

    /// The picture unit and the cartridge after `value` was written to
    /// `address` in the picture unit's address space.
    pub open spec fn vram_written<G: Cartridge>(self, cartridge: G::V, address: u16, value: u8) -> (
        PpuView,
        G::V,
    ) {
        let a = address % ADDRESS_SPACE;
        if a < NAMETABLE_BASE {
            (self, G::write_chr_spec(cartridge, a, value))
        } else if a < PALETTE_BASE {
            (
                PpuView {
                    nametable: stored(
                        self.nametable,
                        nametable_index(G::mirroring_spec(cartridge), a),
                        value,
                    ),
                    ..self
                },
                cartridge,
            )
        } else {
            (self.palette_written(a, value), cartridge)
        }
    }
}

impl Ppu {
    /// The picture unit at power-on.
    pub fn new() -> (r: Self)
        ensures
            r@ == PpuView::initial(),
            r@.sized(),
    {
        Ppu {
            state: PpuState::new(),
            background: Background::new(),
            evaluation: SpriteEvaluation::new(),
            oam: fill(OAM_SIZE, 0),
            secondary: fill(SECONDARY_SIZE, 0xFF),
            palette: fill(PALETTE_SIZE, 0),
            nametable: fill(NAMETABLE_MEMORY, 0),
            sprite_low: fill(UNITS, 0),
            sprite_high: fill(UNITS, 0),
            sprite_attribute: fill(UNITS, 0),
            sprite_x: fill(UNITS, 0),
        }
    }

    /// Reads the palette: see [`PpuView::palette_read`].
    pub fn read_palette(&self, address: u16) -> (value: u8)
        ensures
            value == self@.palette_read(address),
    {
        load(&self.palette, palette_slot(address))
    }

    /// Writes the palette: see [`PpuView::palette_written`].
    pub fn write_palette(&mut self, address: u16, value: u8)
        ensures
            final(self)@.extent() == old(self)@.extent(),
            final(self)@ == old(self)@.palette_written(address, value),
    {
        store(&mut self.palette, palette_slot(address), value % 64);
    }

    /// Reads the picture unit's address space: see
    /// [`PpuView::vram_read`].
    pub fn read_vram<G: Cartridge>(&self, address: u16, cartridge: &mut G) -> (value: u8)
        ensures
            (final(cartridge)@, value) == self@.vram_read::<G>(old(cartridge)@, address),
    {
        let a = address % ADDRESS_SPACE;
        if a < NAMETABLE_BASE {
            cartridge.read_chr(a)
        } else if a < PALETTE_BASE {
            load(&self.nametable, nametable_slot(cartridge.mirroring(), a))
        } else {
            self.read_palette(a)
        }
    }

    /// Writes the picture unit's address space: see
    /// [`PpuView::vram_written`].
    pub fn write_vram<G: Cartridge>(&mut self, address: u16, value: u8, cartridge: &mut G)
        ensures
            final(self)@.extent() == old(self)@.extent(),
            (final(self)@, final(cartridge)@) == old(self)@.vram_written::<G>(
                old(cartridge)@,
                address,
                value,
            ),
    {
        let a = address % ADDRESS_SPACE;
        if a < NAMETABLE_BASE {
            cartridge.write_chr(a, value);
        } else if a < PALETTE_BASE {
            store(&mut self.nametable, nametable_slot(cartridge.mirroring(), a), value);
        } else {
            self.write_palette(a, value);
        }
    }
}

/// Picture units whose memories have the same sizes are sized alike.
pub proof fn lemma_extent_sizes(before: PpuView, after: PpuView)
    requires
        before.extent() == after.extent(),
    ensures
        before.sized() == after.sized(),
{
    let a = before.extent();
    let b = after.extent();
    assert(a[0] == b[0] && a[1] == b[1] && a[2] == b[2] && a[3] == b[3]);
    assert(a[4] == b[4] && a[5] == b[5] && a[6] == b[6] && a[7] == b[7]);
}

/// A write to one of the palette entries 0x10, 0x14, 0x18 and 0x1C shows
/// at the entry 0x10 below it, and a write there shows at the entry 0x10
/// above: the two are one entry.
pub proof fn lemma_palette_aliases(ppu: PpuView, entry: u16, value: u8)
    requires
        ppu.palette.len() == PALETTE_SIZE,
        entry == 0x00 || entry == 0x04 || entry == 0x08 || entry == 0x0C,
    ensures
        ppu.palette_written((PALETTE_BASE + 0x10 + entry) as u16, value).palette_read(
            (PALETTE_BASE + entry) as u16,
        ) == value % 64,
        ppu.palette_written((PALETTE_BASE + entry) as u16, value).palette_read(
            (PALETTE_BASE + 0x10 + entry) as u16,
        ) == value % 64,
        ppu.palette_written((PALETTE_BASE + 0x10 + entry) as u16, value) == ppu.palette_written(
            (PALETTE_BASE + entry) as u16,
            value,
        ),
{
}

} // verus!
