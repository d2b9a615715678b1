//! The plainest cartridge: program memory mapped straight into the upper
//! half of the CPU's address space, 8 KiB of work memory below it, and
//! one bank of pattern memory.

use super::{Cartridge, Mirroring};
use crate::open_bus::OpenBusReadResult;
use crate::cartridge::format::copy_range;
use crate::memory::{fill, filled};
use crate::save::codec::{
    join, joined, lemma_split_joined, read_sections, split, views, writable, MAX_SECTION,
};
use vstd::prelude::*;

verus! {

/// Where the work memory begins in the CPU's address space.
pub const WORK_BASE: u16 = 0x6000;

/// Where the program memory begins in the CPU's address space.
pub const PROGRAM_BASE: u16 = 0x8000;

/// The size of the work memory.
pub const WORK_SIZE: usize = 0x2000;

/// The cartridge as contracts see it.
pub struct NromView {
    pub program: Seq<u8>,
    pub pattern: Seq<u8>,
    pub work: Seq<u8>,
    pub pattern_writable: bool,
    pub mirroring: Mirroring,
}

/// A cartridge without a mapper. Program and pattern memory of any size
/// repeat to fill their windows; without any, reads find nothing.
pub struct Nrom {
    program: Vec<u8>,
    pattern: Vec<u8>,
    work: Vec<u8>,
    pattern_writable: bool,
    mirroring: Mirroring,
}

impl View for Nrom {
    type V = NromView;

    closed spec fn view(&self) -> NromView {
        NromView {
            program: self.program@,
            pattern: self.pattern@,
            work: self.work@,
            pattern_writable: self.pattern_writable,
            mirroring: self.mirroring,
        }
    }
}

impl NromView {
    /// What a read from the CPU's side returns: a byte of program memory
    /// from 0x8000 on, of work memory from 0x6000 on, and nothing below or
    /// where there is no memory.
    pub open spec fn program_read(self, address: u16) -> OpenBusReadResult {
        if address >= PROGRAM_BASE && self.program.len() > 0 {
            OpenBusReadResult {
                data: self.program[(address - PROGRAM_BASE) % (self.program.len() as int)],
                mask: 0xFF,
            }
        } else if WORK_BASE <= address < PROGRAM_BASE && self.work.len() > 0 {
            OpenBusReadResult {
                data: self.work[(address - WORK_BASE) % (self.work.len() as int)],
                mask: 0xFF,
            }
        } else {
            OpenBusReadResult { data: 0, mask: 0 }
        }
    }

    /// The cartridge after a write from the CPU's side: only work memory
    /// takes it.
    pub open spec fn program_written(self, address: u16, value: u8) -> NromView {
        if WORK_BASE <= address < PROGRAM_BASE && self.work.len() > 0 {
            NromView {
                work: self.work.update((address - WORK_BASE) % (self.work.len() as int), value),
                ..self
            }
        } else {
            self
        }
    }

    /// What a read from the picture unit's side returns; zero where there
    /// is no memory.
    pub open spec fn pattern_read(self, address: u16) -> u8 {
        if self.pattern.len() > 0 {
            self.pattern[(address as int) % (self.pattern.len() as int)]
        } else {
            0
        }
    }

    /// The cartridge after a write from the picture unit's side: taken
    /// only where the pattern memory can be written.
    pub open spec fn pattern_written(self, address: u16, value: u8) -> NromView {
        if self.pattern_writable && self.pattern.len() > 0 {
            NromView {
                pattern: self.pattern.update((address as int) % (self.pattern.len() as int), value),
                ..self
            }
        } else {
            self
        }
    }
}

impl NromView {
    /// The two sections that stand for what of the cartridge can change:
    /// its work memory, and its pattern memory if that can be written.
    pub open spec fn sections(self) -> Seq<Seq<u8>> {
        seq![self.work, if self.pattern_writable {
            self.pattern
        } else {
            Seq::empty()
        }]
    }

    /// The cartridge with the memories that can change taken from the two
    /// sections, if they fit: pattern memory that cannot be written has
    /// an empty section.
    pub open spec fn with_sections(self, sections: Seq<Seq<u8>>) -> Option<NromView> {
        if self.pattern_writable {
            Some(NromView { work: sections[0], pattern: sections[1], ..self })
        } else if sections[1].len() == 0 {
            Some(NromView { work: sections[0], ..self })
        } else {
            None
        }
    }
}

impl Nrom {
    /// The memories that `bytes` holds for this cartridge, if it holds
    /// them.
    fn parse(&self, bytes: &Vec<u8>) -> (r: Option<(Vec<u8>, Vec<u8>)>)
        ensures
            match r {
                Some((work, pattern)) => <Nrom as Cartridge>::restored(self@, bytes@) == Some(
                    NromView {
                        work: work@,
                        pattern: if self@.pattern_writable {
                            pattern@
                        } else {
                            self@.pattern
                        },
                        ..self@
                    },
                ),
                None => <Nrom as Cartridge>::restored(self@, bytes@).is_none(),
            },
    {
        let (sections, end) = match read_sections(bytes, 0, 2) {
            Some(found) => found,
            None => {
                return None;
            },
        };
        if end != bytes.len() {
            return None;
        }
        assert(views(sections@)[0] == sections@[0]@);
        assert(views(sections@)[1] == sections@[1]@);
        if !self.pattern_writable && sections[1].len() != 0 {
            return None;
        }
        let work = copy_range(&sections[0], 0, sections[0].len());
        let pattern = copy_range(&sections[1], 0, sections[1].len());
        proof {
            assert(work@ =~= sections@[0]@);
            assert(pattern@ =~= sections@[1]@);
        }
        Some((work, pattern))
    }

    /// A cartridge with the given memories and wiring, its work memory
    /// cleared.
    pub fn new(program: Vec<u8>, pattern: Vec<u8>, pattern_writable: bool, mirroring: Mirroring) -> (r:
        Self)
        ensures
            r@ == (NromView {
                program: program@,
                pattern: pattern@,
                work: filled(WORK_SIZE as nat, 0),
                pattern_writable,
                mirroring,
            }),
    {
        Nrom { program, pattern, work: fill(WORK_SIZE, 0), pattern_writable, mirroring }
    }
}

impl Cartridge for Nrom {
    open spec fn read_prg_spec(cartridge: NromView, address: u16) -> (
        NromView,
        OpenBusReadResult,
    ) {
        (cartridge, cartridge.program_read(address))
    }

    open spec fn write_prg_spec(cartridge: NromView, address: u16, value: u8) -> NromView {
        cartridge.program_written(address, value)
    }

    open spec fn read_chr_spec(cartridge: NromView, address: u16) -> (NromView, u8) {
        (cartridge, cartridge.pattern_read(address))
    }

    open spec fn write_chr_spec(cartridge: NromView, address: u16, value: u8) -> NromView {
        cartridge.pattern_written(address, value)
    }

    open spec fn mirroring_spec(cartridge: NromView) -> Mirroring {
        cartridge.mirroring
    }

    open spec fn notify_scanline_spec(cartridge: NromView) -> (NromView, bool) {
        (cartridge, false)
    }

    fn read_prg(&mut self, address: u16) -> (r: OpenBusReadResult) {
        if address >= PROGRAM_BASE && self.program.len() > 0 {
            let index = ((address - PROGRAM_BASE) as usize) % self.program.len();
            OpenBusReadResult::new(self.program[index], 0xFF)
        } else if WORK_BASE <= address && address < PROGRAM_BASE && self.work.len() > 0 {
            let index = ((address - WORK_BASE) as usize) % self.work.len();
            OpenBusReadResult::new(self.work[index], 0xFF)
        } else {
            OpenBusReadResult::new(0, 0)
        }
    }

    fn write_prg(&mut self, address: u16, value: u8) {
        if WORK_BASE <= address && address < PROGRAM_BASE && self.work.len() > 0 {
            let index = ((address - WORK_BASE) as usize) % self.work.len();
            self.work.set(index, value);
        }
    }

    fn read_chr(&mut self, address: u16) -> (r: u8) {
        if self.pattern.len() > 0 {
            let index = (address as usize) % self.pattern.len();
            self.pattern[index]
        } else {
            0
        }
    }

    fn write_chr(&mut self, address: u16, value: u8) {
        if self.pattern_writable && self.pattern.len() > 0 {
            let index = (address as usize) % self.pattern.len();
            self.pattern.set(index, value);
        }
    }

    fn mirroring(&self) -> (r: Mirroring) {
        self.mirroring
    }

    fn notify_scanline(&mut self) -> (irq: bool) {
        false
    }

    open spec fn saved(cartridge: NromView) -> Seq<u8> {
        joined(cartridge.sections())
    }

    open spec fn restored(cartridge: NromView, bytes: Seq<u8>) -> Option<NromView> {
        match split(bytes, 0, 2) {
            Some((sections, end)) => if end == bytes.len() {
                cartridge.with_sections(sections)
            } else {
                None
            },
            None => None,
        }
    }

    /// Program memory, the wiring, and pattern memory unless it can be
    /// written.
    open spec fn same_image(cartridge: NromView, other: NromView) -> bool {
        &&& cartridge.program == other.program
        &&& cartridge.mirroring == other.mirroring
        &&& cartridge.pattern_writable == other.pattern_writable
        &&& !cartridge.pattern_writable ==> cartridge.pattern == other.pattern
    }

    fn save(&self) -> (out: Vec<u8>) {
        let mut sections: Vec<Vec<u8>> = Vec::new();
        sections.push(copy_range(&self.work, 0, self.work.len()));
        if self.pattern_writable {
            sections.push(copy_range(&self.pattern, 0, self.pattern.len()));
        } else {
            sections.push(Vec::new());
        }
        proof {
            assert(self.work@.subrange(0, self.work@.len() as int) =~= self.work@);
            assert(self.pattern@.subrange(0, self.pattern@.len() as int) =~= self.pattern@);
            assert(views(sections@) =~= self@.sections());
        }
        join(&sections)
    }

    fn restorable(&self, bytes: &Vec<u8>) -> (r: bool) {
        self.parse(bytes).is_some()
    }

    fn restore(&mut self, bytes: &Vec<u8>) -> (done: bool) {
        match self.parse(bytes) {
            Some((work, pattern)) => {
                self.work = work;
                if self.pattern_writable {
                    self.pattern = pattern;
                }
                true
            },
            None => false,
        }
    }

    proof fn lemma_restores(fresh: NromView, cartridge: NromView) {
        let sections = cartridge.sections();
        reveal_with_fuel(joined, 3);
        assert(sections.drop_last() =~= seq![sections[0]]);
        assert(sections.drop_last().drop_last() =~= Seq::<Seq<u8>>::empty());
        assert(sections[0].len() <= MAX_SECTION && sections[1].len() <= MAX_SECTION);
        assert(writable(sections));
        lemma_split_joined(Seq::empty(), sections);
        assert(Seq::<u8>::empty() + joined(sections) =~= joined(sections));
    }
}

} // verus!
