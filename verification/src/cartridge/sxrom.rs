//! The cartridges with the first of the mapper chips: program memory in
//! banks of 16 KiB, pattern memory in banks of 4 KiB, and five registers
//! that are written one bit at a time.

use super::nrom::{PROGRAM_BASE, WORK_BASE, WORK_SIZE};
use super::{Cartridge, Mirroring};
use crate::cartridge::format::copy_range;
use crate::memory::{byte_at, fill, filled, load, store, stored};
use crate::open_bus::OpenBusReadResult;
use crate::save::codec::{
    join, joined, lemma_split_joined, read_sections, split, views, writable, MAX_SECTION,
};
use vstd::prelude::*;

verus! {

/// The size of a bank of program memory.
pub const PROGRAM_BANK: usize = 0x4000;

/// The size of a bank of pattern memory.
pub const PATTERN_BANK: usize = 0x1000;

/// What the control register holds at power-on and after the shift
/// register was reset: the last bank of program memory at 0xC000.
pub const CONTROL_RESET: u8 = 0x0C;

/// The chip's registers. The shift register collects the low bits of
/// five writes in `shift`, of which `count` have come; the fifth goes with
/// the other four into one of the four registers behind it.
#[derive(Debug, Clone, Copy, PartialEq, Eq, Structural)]
pub struct Registers {
    pub shift: u8,
    pub count: u8,
    pub control: u8,
    pub pattern0: u8,
    pub pattern1: u8,
    pub program: u8,
}

impl Registers {
    /// The registers at power-on.
    pub open spec fn initial() -> Registers {
        Registers { shift: 0, count: 0, control: CONTROL_RESET, pattern0: 0, pattern1: 0, program: 0 }
    }

    /// The registers after `value` was written to `address`. A value with
    /// bit 7 set empties the shift register and fixes the last bank of
    /// program memory at 0xC000. Any other value shifts its bit 0 in, and
    /// the fifth such write fills the register that bits 14 and 13 of the
    /// address select: control, first pattern bank, second pattern bank,
    /// program bank.
    pub open spec fn written(self, address: u16, value: u8) -> Registers {
        if value >= 0x80 {
            Registers { shift: 0, count: 0, control: self.control | CONTROL_RESET, ..self }
        } else if self.count % 8 < 4 {
            Registers {
                shift: ((self.shift % 16) / 2 + (value % 2) * 8) as u8,
                count: (self.count % 8 + 1) as u8,
                ..self
            }
        } else {
            let emptied = Registers { shift: 0, count: 0, ..self };
            let collected = (((self.shift % 16) + (value % 2) * 16) % 32) as u8;
            match (address / 0x2000) % 4 {
                0 => Registers { control: collected, ..emptied },
                1 => Registers { pattern0: collected, ..emptied },
                2 => Registers { pattern1: collected, ..emptied },
                _ => Registers { program: collected, ..emptied },
            }
        }
    }

    /// How the nametables are wired: by the low two bits of the control
    /// register.
    pub open spec fn mirroring(self) -> Mirroring {
        match self.control % 4 {
            0 => Mirroring::SingleLower,
            1 => Mirroring::SingleUpper,
            2 => Mirroring::Vertical,
            _ => Mirroring::Horizontal,
        }
    }

    /// The bank of program memory that shows in the lower (`upper` false)
    /// or upper half of the window, of `banks` banks in all. Bits 3 and 2
    /// of the control register select the way: both halves from one pair
    /// of banks, the first bank fixed below, or the last bank fixed above.
    pub open spec fn program_bank(self, upper: bool, banks: int) -> int {
        let selected = self.program % 16;
        match (self.control / 4) % 4 {
            0 | 1 => (selected / 2) * 2 + if upper {
                1int
            } else {
                0
            },
            2 => if upper {
                selected as int
            } else {
                0
            },
            _ => if upper {
                banks - 1
            } else {
                selected as int
            },
        }
    }

    /// The bank of pattern memory that shows in the lower or upper half of
    /// the window. Bit 4 of the control register selects the way: both
    /// halves from one pair of banks, or each half from its own register.
    pub open spec fn pattern_bank(self, upper: bool) -> int {
        if (self.control / 16) % 2 == 1 {
            if upper {
                self.pattern1 as int
            } else {
                self.pattern0 as int
            }
        } else {
            (self.pattern0 / 2) * 2 + if upper {
                1int
            } else {
                0
            }
        }
    }

    pub fn new() -> (r: Self)
        ensures
            r == Self::initial(),
    {
        Registers { shift: 0, count: 0, control: CONTROL_RESET, pattern0: 0, pattern1: 0, program: 0 }
    }

    pub fn write(&mut self, address: u16, value: u8)
        ensures
            *final(self) == old(self).written(address, value),
    {
        if value >= 0x80 {
            self.shift = 0;
            self.count = 0;
            self.control = self.control | CONTROL_RESET;
        } else if self.count % 8 < 4 {
            self.shift = (self.shift % 16) / 2 + (value % 2) * 8;
            self.count = self.count % 8 + 1;
        } else {
            let collected = ((self.shift % 16) + (value % 2) * 16) % 32;
            self.shift = 0;
            self.count = 0;
            match (address / 0x2000) % 4 {
                0 => {
                    self.control = collected;
                },
                1 => {
                    self.pattern0 = collected;
                },
                2 => {
                    self.pattern1 = collected;
                },
                _ => {
                    self.program = collected;
                },
            }
        }
    }

    pub fn get_mirroring(&self) -> (r: Mirroring)
        ensures
            r == self.mirroring(),
    {
        match self.control % 4 {
            0 => Mirroring::SingleLower,
            1 => Mirroring::SingleUpper,
            2 => Mirroring::Vertical,
            _ => Mirroring::Horizontal,
        }
    }

    pub fn get_program_bank(&self, upper: bool, banks: usize) -> (r: usize)
        requires
            banks >= 1,
        ensures
            r == self.program_bank(upper, banks as int),
    {
        let selected = (self.program % 16) as usize;
        let half: usize = if upper {
            1
        } else {
            0
        };
        match (self.control / 4) % 4 {
            0 | 1 => (selected / 2) * 2 + half,
            2 => if upper {
                selected
            } else {
                0
            },
            _ => if upper {
                banks - 1
            } else {
                selected
            },
        }
    }

    pub fn get_pattern_bank(&self, upper: bool) -> (r: usize)
        ensures
            r == self.pattern_bank(upper),
    {
        let half: usize = if upper {
            1
        } else {
            0
        };
        if (self.control / 16) % 2 == 1 {
            if upper {
                self.pattern1 as usize
            } else {
                self.pattern0 as usize
            }
        } else {
            ((self.pattern0 / 2) as usize) * 2 + half
        }
    }
}

/// The cartridge as contracts see it.
pub struct SxromView {
    pub registers: Registers,
    pub program: Seq<u8>,
    pub pattern: Seq<u8>,
    pub work: Seq<u8>,
    pub pattern_writable: bool,
}

impl SxromView {
    /// The index into program memory that the address `address`, from
    /// 0x8000 on, reaches, where program memory has whole banks.
    pub open spec fn program_index(self, address: u16) -> int {
        let banks = (self.program.len() as int) / (PROGRAM_BANK as int);
        let offset = address - PROGRAM_BASE;
        (self.registers.program_bank(offset >= PROGRAM_BANK, banks) % banks) * PROGRAM_BANK
            + offset % (PROGRAM_BANK as int)
    }

    /// The index into pattern memory that the address `address` reaches,
    /// where pattern memory has whole banks.
    pub open spec fn pattern_index(self, address: u16) -> int {
        let banks = (self.pattern.len() as int) / (PATTERN_BANK as int);
        let offset = (address % 0x2000) as int;
        (self.registers.pattern_bank(offset >= PATTERN_BANK) % banks) * PATTERN_BANK + offset
            % (PATTERN_BANK as int)
    }

    /// What a read from the CPU's side returns: a byte of the bank of
    /// program memory that shows from 0x8000 on, of work memory from
    /// 0x6000 on, and nothing below or where there is no memory.
    pub open spec fn program_read(self, address: u16) -> OpenBusReadResult {
        if address >= PROGRAM_BASE && self.program.len() >= PROGRAM_BANK {
            OpenBusReadResult { data: byte_at(self.program, self.program_index(address)), mask: 0xFF }
        } else if WORK_BASE <= address < PROGRAM_BASE {
            OpenBusReadResult {
                data: byte_at(self.work, (address - WORK_BASE) as int),
                mask: 0xFF,
            }
        } else {
            OpenBusReadResult { data: 0, mask: 0 }
        }
    }

    /// The cartridge after a write from the CPU's side: the registers take
    /// writes from 0x8000 on, work memory those from 0x6000 on.
    pub open spec fn program_written(self, address: u16, value: u8) -> SxromView {
        if address >= PROGRAM_BASE {
            SxromView { registers: self.registers.written(address, value), ..self }
        } else if WORK_BASE <= address {
            SxromView { work: stored(self.work, (address - WORK_BASE) as int, value), ..self }
        } else {
            self
        }
    }

    /// What a read from the picture unit's side returns; zero where there
    /// is no memory.
    pub open spec fn pattern_read(self, address: u16) -> u8 {
        if self.pattern.len() >= PATTERN_BANK {
            byte_at(self.pattern, self.pattern_index(address))
        } else {
            0
        }
    }

    /// The cartridge after a write from the picture unit's side: taken
    /// only where the pattern memory can be written.
    pub open spec fn pattern_written(self, address: u16, value: u8) -> SxromView {
        if self.pattern_writable && self.pattern.len() >= PATTERN_BANK {
            SxromView { pattern: stored(self.pattern, self.pattern_index(address), value), ..self }
        } else {
            self
        }
    }

    /// The three sections that stand for what of the cartridge can change:
    /// its registers, its work memory, and its pattern memory if that can
    /// be written.
    pub open spec fn sections(self) -> Seq<Seq<u8>> {
        seq![
            seq![
                self.registers.shift,
                self.registers.count,
                self.registers.control,
                self.registers.pattern0,
                self.registers.pattern1,
                self.registers.program,
            ],
            self.work,
            if self.pattern_writable {
                self.pattern
            } else {
                Seq::empty()
            },
        ]
    }

    /// The cartridge with what can change taken from the three sections,
    /// if they fit.
    pub open spec fn with_sections(self, sections: Seq<Seq<u8>>) -> Option<SxromView> {
        if sections[0].len() != 6 || (!self.pattern_writable && sections[2].len() != 0) {
            None
        } else {
            Some(
                SxromView {
                    registers: Registers {
                        shift: sections[0][0],
                        count: sections[0][1],
                        control: sections[0][2],
                        pattern0: sections[0][3],
                        pattern1: sections[0][4],
                        program: sections[0][5],
                    },
                    work: sections[1],
                    pattern: if self.pattern_writable {
                        sections[2]
                    } else {
                        self.pattern
                    },
                    ..self
                },
            )
        }
    }
}

/// A cartridge with the first of the mapper chips.
pub struct Sxrom {
    registers: Registers,
    program: Vec<u8>,
    pattern: Vec<u8>,
    work: Vec<u8>,
    pattern_writable: bool,
}

impl View for Sxrom {
    type V = SxromView;

    closed spec fn view(&self) -> SxromView {
        SxromView {
            registers: self.registers,
            program: self.program@,
            pattern: self.pattern@,
            work: self.work@,
            pattern_writable: self.pattern_writable,
        }
    }
}

impl Sxrom {
    /// A cartridge with the given memories, its registers as at power-on
    /// and its work memory cleared.
    pub fn new(program: Vec<u8>, pattern: Vec<u8>, pattern_writable: bool) -> (r: Self)
        ensures
            r@ == (SxromView {
                registers: Registers::initial(),
                program: program@,
                pattern: pattern@,
                work: filled(WORK_SIZE as nat, 0),
                pattern_writable,
            }),
    {
        Sxrom {
            registers: Registers::new(),
            program,
            pattern,
            work: fill(WORK_SIZE, 0),
            pattern_writable,
        }
    }

    /// The registers, for whoever wants to look.
    pub fn registers(&self) -> (r: Registers)
        ensures
            r == self@.registers,
    {
        self.registers
    }

    fn program_slot(&self, address: u16) -> (r: usize)
        requires
            address >= PROGRAM_BASE,
            self.program@.len() >= PROGRAM_BANK,
        ensures
            r == self@.program_index(address),
    {
        let banks = self.program.len() / PROGRAM_BANK;
        let offset = (address - PROGRAM_BASE) as usize;
        let bank = self.registers.get_program_bank(offset >= PROGRAM_BANK, banks);
        (bank % banks) * PROGRAM_BANK + offset % PROGRAM_BANK
    }

    fn pattern_slot(&self, address: u16) -> (r: usize)
        requires
            self.pattern@.len() >= PATTERN_BANK,
        ensures
            r == self@.pattern_index(address),
    {
        let banks = self.pattern.len() / PATTERN_BANK;
        let offset = (address % 0x2000) as usize;
        let bank = self.registers.get_pattern_bank(offset >= PATTERN_BANK);
        (bank % banks) * PATTERN_BANK + offset % PATTERN_BANK
    }

    /// What `bytes` holds for this cartridge, if it holds that.
    fn parse(&self, bytes: &Vec<u8>) -> (r: Option<(Registers, Vec<u8>, Vec<u8>)>)
        ensures
            match r {
                Some((registers, work, pattern)) => <Sxrom as Cartridge>::restored(
                    self@,
                    bytes@,
                ) == Some(
                    SxromView {
                        registers,
                        work: work@,
                        pattern: if self@.pattern_writable {
                            pattern@
                        } else {
                            self@.pattern
                        },
                        ..self@
                    },
                ),
                None => <Sxrom as Cartridge>::restored(self@, bytes@).is_none(),
            },
    {
        let (sections, end) = match read_sections(bytes, 0, 3) {
            Some(found) => found,
            None => {
                return None;
            },
        };
        if end != bytes.len() {
            return None;
        }
        assert(views(sections@)[0] == sections@[0]@);
        assert(views(sections@)[1] == sections@[1]@);
        assert(views(sections@)[2] == sections@[2]@);
        if sections[0].len() != 6 || (!self.pattern_writable && sections[2].len() != 0) {
            return None;
        }
        let registers = Registers {
            shift: sections[0][0],
            count: sections[0][1],
            control: sections[0][2],
            pattern0: sections[0][3],
            pattern1: sections[0][4],
            program: sections[0][5],
        };
        let work = copy_range(&sections[1], 0, sections[1].len());
        let pattern = copy_range(&sections[2], 0, sections[2].len());
        proof {
            assert(work@ =~= sections@[1]@);
            assert(pattern@ =~= sections@[2]@);
        }
        Some((registers, work, pattern))
    }
}

impl Cartridge for Sxrom {
    open spec fn read_prg_spec(cartridge: SxromView, address: u16) -> (
        SxromView,
        OpenBusReadResult,
    ) {
        (cartridge, cartridge.program_read(address))
    }

    open spec fn write_prg_spec(cartridge: SxromView, address: u16, value: u8) -> SxromView {
        cartridge.program_written(address, value)
    }

    open spec fn read_chr_spec(cartridge: SxromView, address: u16) -> (SxromView, u8) {
        (cartridge, cartridge.pattern_read(address))
    }

    open spec fn write_chr_spec(cartridge: SxromView, address: u16, value: u8) -> SxromView {
        cartridge.pattern_written(address, value)
    }

    open spec fn mirroring_spec(cartridge: SxromView) -> Mirroring {
        cartridge.registers.mirroring()
    }

    open spec fn notify_scanline_spec(cartridge: SxromView) -> (SxromView, bool) {
        (cartridge, false)
    }

    open spec fn saved(cartridge: SxromView) -> Seq<u8> {
        joined(cartridge.sections())
    }

    open spec fn restored(cartridge: SxromView, bytes: Seq<u8>) -> Option<SxromView> {
        match split(bytes, 0, 3) {
            Some((sections, end)) => if end == bytes.len() {
                cartridge.with_sections(sections)
            } else {
                None
            },
            None => None,
        }
    }

    /// Program memory, and pattern memory unless it can be written.
    open spec fn same_image(cartridge: SxromView, other: SxromView) -> bool {
        &&& cartridge.program == other.program
        &&& cartridge.pattern_writable == other.pattern_writable
        &&& !cartridge.pattern_writable ==> cartridge.pattern == other.pattern
    }

    fn read_prg(&mut self, address: u16) -> (r: OpenBusReadResult) {
        if address >= PROGRAM_BASE && self.program.len() >= PROGRAM_BANK {
            OpenBusReadResult::new(load(&self.program, self.program_slot(address)), 0xFF)
        } else if WORK_BASE <= address && address < PROGRAM_BASE {
            OpenBusReadResult::new(load(&self.work, (address - WORK_BASE) as usize), 0xFF)
        } else {
            OpenBusReadResult::new(0, 0)
        }
    }

    fn write_prg(&mut self, address: u16, value: u8) {
        if address >= PROGRAM_BASE {
            self.registers.write(address, value);
        } else if WORK_BASE <= address {
            store(&mut self.work, (address - WORK_BASE) as usize, value);
        }
    }

    fn read_chr(&mut self, address: u16) -> (r: u8) {
        if self.pattern.len() >= PATTERN_BANK {
            load(&self.pattern, self.pattern_slot(address))
        } else {
            0
        }
    }

    fn write_chr(&mut self, address: u16, value: u8) {
        if self.pattern_writable && self.pattern.len() >= PATTERN_BANK {
            let slot = self.pattern_slot(address);
            store(&mut self.pattern, slot, value);
        }
    }

    fn mirroring(&self) -> (r: Mirroring) {
        self.registers.get_mirroring()
    }

    fn notify_scanline(&mut self) -> (irq: bool) {
        false
    }

    fn save(&self) -> (out: Vec<u8>) {
        let mut registers: Vec<u8> = Vec::new();
        registers.push(self.registers.shift);
        registers.push(self.registers.count);
        registers.push(self.registers.control);
        registers.push(self.registers.pattern0);
        registers.push(self.registers.pattern1);
        registers.push(self.registers.program);
        let mut sections: Vec<Vec<u8>> = Vec::new();
        sections.push(registers);
        sections.push(copy_range(&self.work, 0, self.work.len()));
        if self.pattern_writable {
            sections.push(copy_range(&self.pattern, 0, self.pattern.len()));
        } else {
            sections.push(Vec::new());
        }
        proof {
            assert(self.work@.subrange(0, self.work@.len() as int) =~= self.work@);
            assert(self.pattern@.subrange(0, self.pattern@.len() as int) =~= self.pattern@);
            assert(sections@[0]@ =~= self@.sections()[0]);
            assert(views(sections@) =~= self@.sections());
        }
        join(&sections)
    }

    fn restorable(&self, bytes: &Vec<u8>) -> (r: bool) {
        self.parse(bytes).is_some()
    }

    fn restore(&mut self, bytes: &Vec<u8>) -> (done: bool) {
        match self.parse(bytes) {
            Some((registers, work, pattern)) => {
                self.registers = registers;
                self.work = work;
                if self.pattern_writable {
                    self.pattern = pattern;
                }
                true
            },
            None => false,
        }
    }

    proof fn lemma_restores(fresh: SxromView, cartridge: SxromView) {
        let sections = cartridge.sections();
        reveal_with_fuel(joined, 4);
        assert(sections.drop_last() =~= seq![sections[0], sections[1]]);
        assert(sections.drop_last().drop_last() =~= seq![sections[0]]);
        assert(sections.drop_last().drop_last().drop_last() =~= Seq::<Seq<u8>>::empty());
        assert(sections[0].len() == 6);
        assert(sections[1].len() <= MAX_SECTION && sections[2].len() <= MAX_SECTION);
        assert(writable(sections));
        lemma_split_joined(Seq::empty(), sections);
        assert(Seq::<u8>::empty() + joined(sections) =~= joined(sections));
        assert(fresh.with_sections(sections).unwrap().registers == cartridge.registers);
    }
}

} // verus!
