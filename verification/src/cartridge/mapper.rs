//! The cartridges that are provided, as one type.

use super::nrom::{Nrom, NromView};
use super::sxrom::{Sxrom, SxromView};
use super::{Cartridge, Mirroring};
use crate::open_bus::OpenBusReadResult;
use vstd::prelude::*;

verus! {

/// A cartridge of one of the kinds that are provided.
pub enum Mapper {
    /// No mapper: see [`Nrom`].
    Nrom(Nrom),
    /// The first of the mapper chips: see [`Sxrom`].
    Sxrom(Sxrom),
}

/// The cartridge as contracts see it.
pub enum MapperView {
    Nrom(NromView),
    Sxrom(SxromView),
}

impl View for Mapper {
    type V = MapperView;

    open spec fn view(&self) -> MapperView {
        match self {
            Mapper::Nrom(cartridge) => MapperView::Nrom(cartridge@),
            Mapper::Sxrom(cartridge) => MapperView::Sxrom(cartridge@),
        }
    }
}

/// Every kind answers for itself.
impl Cartridge for Mapper {
    open spec fn read_prg_spec(cartridge: MapperView, address: u16) -> (
        MapperView,
        OpenBusReadResult,
    ) {
        match cartridge {
            MapperView::Nrom(c) => (
                MapperView::Nrom(Nrom::read_prg_spec(c, address).0),
                Nrom::read_prg_spec(c, address).1,
            ),
            MapperView::Sxrom(c) => (
                MapperView::Sxrom(Sxrom::read_prg_spec(c, address).0),
                Sxrom::read_prg_spec(c, address).1,
            ),
        }
    }

    open spec fn write_prg_spec(cartridge: MapperView, address: u16, value: u8) -> MapperView {
        match cartridge {
            MapperView::Nrom(c) => MapperView::Nrom(Nrom::write_prg_spec(c, address, value)),
            MapperView::Sxrom(c) => MapperView::Sxrom(Sxrom::write_prg_spec(c, address, value)),
        }
    }

    open spec fn read_chr_spec(cartridge: MapperView, address: u16) -> (MapperView, u8) {
        match cartridge {
            MapperView::Nrom(c) => (
                MapperView::Nrom(Nrom::read_chr_spec(c, address).0),
                Nrom::read_chr_spec(c, address).1,
            ),
            MapperView::Sxrom(c) => (
                MapperView::Sxrom(Sxrom::read_chr_spec(c, address).0),
                Sxrom::read_chr_spec(c, address).1,
            ),
        }
    }

    open spec fn write_chr_spec(cartridge: MapperView, address: u16, value: u8) -> MapperView {
        match cartridge {
            MapperView::Nrom(c) => MapperView::Nrom(Nrom::write_chr_spec(c, address, value)),
            MapperView::Sxrom(c) => MapperView::Sxrom(Sxrom::write_chr_spec(c, address, value)),
        }
    }

    open spec fn mirroring_spec(cartridge: MapperView) -> Mirroring {
        match cartridge {
            MapperView::Nrom(c) => Nrom::mirroring_spec(c),
            MapperView::Sxrom(c) => Sxrom::mirroring_spec(c),
        }
    }

    open spec fn notify_scanline_spec(cartridge: MapperView) -> (MapperView, bool) {
        match cartridge {
            MapperView::Nrom(c) => (
                MapperView::Nrom(Nrom::notify_scanline_spec(c).0),
                Nrom::notify_scanline_spec(c).1,
            ),
            MapperView::Sxrom(c) => (
                MapperView::Sxrom(Sxrom::notify_scanline_spec(c).0),
                Sxrom::notify_scanline_spec(c).1,
            ),
        }
    }

    open spec fn saved(cartridge: MapperView) -> Seq<u8> {
        match cartridge {
            MapperView::Nrom(c) => Nrom::saved(c),
            MapperView::Sxrom(c) => Sxrom::saved(c),
        }
    }

    open spec fn restored(cartridge: MapperView, bytes: Seq<u8>) -> Option<MapperView> {
        match cartridge {
            MapperView::Nrom(c) => match Nrom::restored(c, bytes) {
                Some(r) => Some(MapperView::Nrom(r)),
                None => None,
            },
            MapperView::Sxrom(c) => match Sxrom::restored(c, bytes) {
                Some(r) => Some(MapperView::Sxrom(r)),
                None => None,
            },
        }
    }

    /// The same kind, and the same image for that kind.
    open spec fn same_image(cartridge: MapperView, other: MapperView) -> bool {
        match (cartridge, other) {
            (MapperView::Nrom(c), MapperView::Nrom(o)) => Nrom::same_image(c, o),
            (MapperView::Sxrom(c), MapperView::Sxrom(o)) => Sxrom::same_image(c, o),
            _ => false,
        }
    }

    fn read_prg(&mut self, address: u16) -> (r: OpenBusReadResult) {
        match self {
            Mapper::Nrom(cartridge) => cartridge.read_prg(address),
            Mapper::Sxrom(cartridge) => cartridge.read_prg(address),
        }
    }

    fn write_prg(&mut self, address: u16, value: u8) {
        match self {
            Mapper::Nrom(cartridge) => cartridge.write_prg(address, value),
            Mapper::Sxrom(cartridge) => cartridge.write_prg(address, value),
        }
    }

    fn read_chr(&mut self, address: u16) -> (r: u8) {
        match self {
            Mapper::Nrom(cartridge) => cartridge.read_chr(address),
            Mapper::Sxrom(cartridge) => cartridge.read_chr(address),
        }
    }

    fn write_chr(&mut self, address: u16, value: u8) {
        match self {
            Mapper::Nrom(cartridge) => cartridge.write_chr(address, value),
            Mapper::Sxrom(cartridge) => cartridge.write_chr(address, value),
        }
    }

    fn mirroring(&self) -> (r: Mirroring) {
        match self {
            Mapper::Nrom(cartridge) => cartridge.mirroring(),
            Mapper::Sxrom(cartridge) => cartridge.mirroring(),
        }
    }

    fn notify_scanline(&mut self) -> (irq: bool) {
        match self {
            Mapper::Nrom(cartridge) => cartridge.notify_scanline(),
            Mapper::Sxrom(cartridge) => cartridge.notify_scanline(),
        }
    }

    fn save(&self) -> (out: Vec<u8>) {
        match self {
            Mapper::Nrom(cartridge) => cartridge.save(),
            Mapper::Sxrom(cartridge) => cartridge.save(),
        }
    }

    fn restorable(&self, bytes: &Vec<u8>) -> (r: bool) {
        match self {
            Mapper::Nrom(cartridge) => cartridge.restorable(bytes),
            Mapper::Sxrom(cartridge) => cartridge.restorable(bytes),
        }
    }

    fn restore(&mut self, bytes: &Vec<u8>) -> (done: bool) {
        match self {
            Mapper::Nrom(cartridge) => cartridge.restore(bytes),
            Mapper::Sxrom(cartridge) => cartridge.restore(bytes),
        }
    }

    proof fn lemma_restores(fresh: MapperView, cartridge: MapperView) {
        match (fresh, cartridge) {
            (MapperView::Nrom(f), MapperView::Nrom(c)) => {
                Nrom::lemma_restores(f, c);
            },
            (MapperView::Sxrom(f), MapperView::Sxrom(c)) => {
                Sxrom::lemma_restores(f, c);
            },
            _ => {},
        }
    }
}

} // verus!
