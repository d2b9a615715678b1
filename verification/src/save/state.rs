//! The saved state of the console.
//!
//! A saved state is a version tag of four bytes and then eighteen
//! sections: the CPU's registers and execution state; the internal
//! memory; the picture unit's registers, background pipeline, sprite
//! evaluation and its eight memories; the audio unit; the interrupt lines;
//! what the bus keeps; and what the cartridge and the controller write
//! down of themselves.

use super::apu::{apu_restored, apu_saved, lemma_apu_round_trip, restore_apu, save_apu};
use super::codec::{
    append, joined, lemma_split_joined, read_sections, split, views, writable, MAX_SECTION,
};
use super::cpu::{
    interrupt_restored, interrupt_saved, latch_restored, latch_saved, lemma_interrupt_round_trip,
    lemma_latch_round_trip, lemma_processor_round_trip, processor_restored, processor_saved,
    restore_interrupt, restore_latch, restore_processor, save_interrupt, save_latch,
    save_processor,
};
use super::ppu::{
    background_restored, background_saved, evaluation_restored, evaluation_saved,
    lemma_background_round_trip, lemma_evaluation_round_trip, lemma_ppu_state_round_trip,
    ppu_state_restored, ppu_state_saved, restore_background, restore_evaluation,
    restore_ppu_state, save_background, save_evaluation, save_ppu_state,
};
use crate::cartridge::format::copy_range;
use crate::cartridge::Cartridge;
use crate::console::{cycles_stepped, Console, ConsoleView};
use crate::controller::Controller;
use crate::cpu::memory::{MemoryView, RAM_SIZE};
use crate::cpu::Core;
use crate::ppu::{
    PpuView, NAMETABLE_MEMORY, OAM_SIZE, PALETTE_SIZE, SECONDARY_SIZE, UNITS,
};
use vstd::prelude::*;

verus! {

/// The number of sections of a saved state.
pub const SECTIONS: usize = 18;

/// Why a saved state cannot be loaded.
#[derive(Debug, Clone, Copy, PartialEq, Eq, Structural)]
pub enum SaveStateMismatch {
    /// The bytes do not begin with this version's tag.
    Version,
    /// The bytes behind the tag are not the sections of a console.
    Layout,
}

/// The four bytes with which a saved state of this version begins.
pub open spec fn version_tag() -> Seq<u8> {
    seq![0x4Eu8, 0x45u8, 0x52u8, 0x01u8]
}

/// Whether `bytes` begins with this version's tag.
pub open spec fn tagged(bytes: Seq<u8>) -> bool {
    bytes.len() >= 4 && bytes[0] == 0x4E && bytes[1] == 0x45 && bytes[2] == 0x52 && bytes[3]
        == 0x01
}

/// The sections that stand for `console`, in order.
pub open spec fn state_sections<G: Cartridge, C: Controller>(
    console: ConsoleView<G::V, C::V>,
) -> Seq<Seq<u8>> {
    seq![
        processor_saved(console.cpu),
        console.memory.ram,
        ppu_state_saved(console.memory.ppu.state),
        background_saved(console.memory.ppu.background),
        evaluation_saved(console.memory.ppu.evaluation),
        console.memory.ppu.oam,
        console.memory.ppu.secondary,
        console.memory.ppu.palette,
        console.memory.ppu.nametable,
        console.memory.ppu.sprite_low,
        console.memory.ppu.sprite_high,
        console.memory.ppu.sprite_attribute,
        console.memory.ppu.sprite_x,
        apu_saved(console.memory.apu),
        interrupt_saved(console.cpu.interrupt),
        latch_saved(console.memory.open_bus, console.memory.oam_dma),
        G::saved(console.memory.cartridge),
        C::saved(console.memory.controller),
    ]
}

/// The bytes that stand for `console`: the version tag, then the
/// sections.
pub open spec fn state_saved<G: Cartridge, C: Controller>(
    console: ConsoleView<G::V, C::V>,
) -> Seq<u8> {
    version_tag() + joined(state_sections::<G, C>(console))
}

/// Whether the nine sections that are memories have the sizes that the
/// machine is built with.
pub open spec fn memories_sized(sections: Seq<Seq<u8>>) -> bool {
    &&& sections[1].len() == RAM_SIZE
    &&& sections[5].len() == OAM_SIZE
    &&& sections[6].len() == SECONDARY_SIZE
    &&& sections[7].len() == PALETTE_SIZE
    &&& sections[8].len() == NAMETABLE_MEMORY
    &&& sections[9].len() == UNITS
    &&& sections[10].len() == UNITS
    &&& sections[11].len() == UNITS
    &&& sections[12].len() == UNITS
}

/// Whether every one of the eighteen sections stands for its part of a
/// console, with memories of the machine's sizes and the picture unit at
/// a position of its frame, and can be restored into `fresh`.
pub open spec fn fitting<G: Cartridge, C: Controller>(
    fresh: ConsoleView<G::V, C::V>,
    sections: Seq<Seq<u8>>,
) -> bool {
    &&& memories_sized(sections)
    &&& processor_restored(sections[0]).is_some()
    &&& ppu_state_restored(sections[2]).is_some()
    &&& ppu_state_restored(sections[2]).unwrap().positioned()
    &&& background_restored(sections[3]).is_some()
    &&& evaluation_restored(sections[4]).is_some()
    &&& apu_restored(sections[13]).is_some()
    &&& interrupt_restored(sections[14]).is_some()
    &&& latch_restored(sections[15]).is_some()
    &&& G::restored(fresh.memory.cartridge, sections[16]).is_some()
    &&& C::restored(fresh.memory.controller, sections[17]).is_some()
}

/// The console that sections which fit stand for, restored into `fresh`.
pub open spec fn assembled<G: Cartridge, C: Controller>(
    fresh: ConsoleView<G::V, C::V>,
    sections: Seq<Seq<u8>>,
) -> ConsoleView<G::V, C::V> {
    ConsoleView {
        cpu: Core {
            interrupt: interrupt_restored(sections[14]).unwrap(),
            ..processor_restored(sections[0]).unwrap()
        },
        memory: MemoryView {
            ram: sections[1],
            ppu: PpuView {
                state: ppu_state_restored(sections[2]).unwrap(),
                background: background_restored(sections[3]).unwrap(),
                evaluation: evaluation_restored(sections[4]).unwrap(),
                oam: sections[5],
                secondary: sections[6],
                palette: sections[7],
                nametable: sections[8],
                sprite_low: sections[9],
                sprite_high: sections[10],
                sprite_attribute: sections[11],
                sprite_x: sections[12],
            },
            apu: apu_restored(sections[13]).unwrap(),
            cartridge: G::restored(fresh.memory.cartridge, sections[16]).unwrap(),
            controller: C::restored(fresh.memory.controller, sections[17]).unwrap(),
            open_bus: latch_restored(sections[15]).unwrap().0,
            oam_dma: latch_restored(sections[15]).unwrap().1,
        },
    }
}

/// The console that `bytes` stands for when restored into `fresh`, or why
/// it stands for none: the tag is not this version's, or what follows is
/// not exactly eighteen sections that fit.
pub open spec fn state_restored<G: Cartridge, C: Controller>(
    fresh: ConsoleView<G::V, C::V>,
    bytes: Seq<u8>,
) -> Result<ConsoleView<G::V, C::V>, SaveStateMismatch> {
    if !tagged(bytes) {
        Err(SaveStateMismatch::Version)
    } else {
        match split(bytes, 4, SECTIONS as nat) {
            Some((sections, end)) => if end == bytes.len() && fitting::<G, C>(fresh, sections) {
                Ok(assembled::<G, C>(fresh, sections))
            } else {
                Err(SaveStateMismatch::Layout)
            },
            None => Err(SaveStateMismatch::Layout),
        }
    }
}

/// A copy of `memory`.
fn copy(memory: &Vec<u8>) -> (r: Vec<u8>)
    ensures
        r@ == memory@,
{
    let r = copy_range(memory, 0, memory.len());
    proof {
        assert(memory@.subrange(0, memory@.len() as int) =~= memory@);
    }
    r
}

impl<G: Cartridge, C: Controller> Console<G, C> {
    /// Writes the console down: see [`state_saved`].
    pub fn save_state(&self) -> (out: Vec<u8>)
        ensures
            out@ == state_saved::<G, C>(self@),
    {
        let mut sections: Vec<Vec<u8>> = Vec::new();
        sections.push(save_processor(&self.cpu));
        sections.push(copy(&self.memory.ram));
        sections.push(save_ppu_state(&self.memory.ppu.state));
        sections.push(save_background(&self.memory.ppu.background));
        sections.push(save_evaluation(&self.memory.ppu.evaluation));
        sections.push(copy(&self.memory.ppu.oam));
        sections.push(copy(&self.memory.ppu.secondary));
        sections.push(copy(&self.memory.ppu.palette));
        sections.push(copy(&self.memory.ppu.nametable));
        sections.push(copy(&self.memory.ppu.sprite_low));
        sections.push(copy(&self.memory.ppu.sprite_high));
        sections.push(copy(&self.memory.ppu.sprite_attribute));
        sections.push(copy(&self.memory.ppu.sprite_x));
        sections.push(save_apu(&self.memory.apu));
        sections.push(save_interrupt(&self.cpu.interrupt));
        sections.push(save_latch(self.memory.open_bus, self.memory.oam_dma));
        sections.push(self.memory.cartridge.save());
        sections.push(self.memory.controller.save());
        proof {
            assert(views(sections@) =~= state_sections::<G, C>(self@));
        }
        let mut out: Vec<u8> = Vec::new();
        out.push(0x4E);
        out.push(0x45);
        out.push(0x52);
        out.push(0x01);
        proof {
            assert(out@ =~= version_tag());
        }
        append(&mut out, &sections);
        out
    }

    /// Takes the console's state from `bytes`: see [`state_restored`].
    /// Bytes that stand for no console leave it as it is.
    pub fn load_state(&mut self, bytes: &Vec<u8>) -> (r: Result<(), SaveStateMismatch>)
        ensures
            match r {
                Ok(()) => state_restored::<G, C>(old(self)@, bytes@) == Ok::<
                    ConsoleView<G::V, C::V>,
                    SaveStateMismatch,
                >(final(self)@) && final(self).wf(),
                Err(error) => state_restored::<G, C>(old(self)@, bytes@) == Err::<
                    ConsoleView<G::V, C::V>,
                    SaveStateMismatch,
                >(error) && final(self)@ == old(self)@ && final(self).wf() == old(self).wf(),
            },
            final(self).memory.log@ == old(self).memory.log@,
    {
        if bytes.len() < 4 || bytes[0] != 0x4E || bytes[1] != 0x45 || bytes[2] != 0x52 || bytes[3]
            != 0x01 {
            return Err(SaveStateMismatch::Version);
        }
        let (sections, end) = match read_sections(bytes, 4, SECTIONS) {
            Some(found) => found,
            None => {
                return Err(SaveStateMismatch::Layout);
            },
        };
        if end != bytes.len() {
            return Err(SaveStateMismatch::Layout);
        }
        proof {
            assert forall|i: int| 0 <= i < 18 implies #[trigger] views(sections@)[i] == sections@[i]@ by {}
        }
        let processor = restore_processor(&sections[0]);
        let state = restore_ppu_state(&sections[2]);
        let background = restore_background(&sections[3]);
        let evaluation = restore_evaluation(&sections[4]);
        let apu = restore_apu(&sections[13]);
        let interrupt = restore_interrupt(&sections[14]);
        let latch = restore_latch(&sections[15]);
        if processor.is_none() || state.is_none() || background.is_none() || evaluation.is_none()
            || apu.is_none() || interrupt.is_none() || latch.is_none() {
            return Err(SaveStateMismatch::Layout);
        }
        let state = state.unwrap();
        if !(-1 <= state.scanline && state.scanline <= 260 && state.dot <= 340) {
            return Err(SaveStateMismatch::Layout);
        }
        if sections[1].len() != RAM_SIZE || sections[5].len() != OAM_SIZE || sections[6].len()
            != SECONDARY_SIZE || sections[7].len() != PALETTE_SIZE || sections[8].len()
            != NAMETABLE_MEMORY {
            return Err(SaveStateMismatch::Layout);
        }
        if sections[9].len() != UNITS || sections[10].len() != UNITS || sections[11].len() != UNITS
            || sections[12].len() != UNITS {
            return Err(SaveStateMismatch::Layout);
        }
        if !self.memory.cartridge.restorable(&sections[16]) || !self.memory.controller.restorable(
            &sections[17],
        ) {
            return Err(SaveStateMismatch::Layout);
        }
        let mut cpu = processor.unwrap();
        cpu.interrupt = interrupt.unwrap();
        self.cpu = cpu;
        self.memory.ram = copy(&sections[1]);
        self.memory.ppu.state = state;
        self.memory.ppu.background = background.unwrap();
        self.memory.ppu.evaluation = evaluation.unwrap();
        self.memory.ppu.oam = copy(&sections[5]);
        self.memory.ppu.secondary = copy(&sections[6]);
        self.memory.ppu.palette = copy(&sections[7]);
        self.memory.ppu.nametable = copy(&sections[8]);
        self.memory.ppu.sprite_low = copy(&sections[9]);
        self.memory.ppu.sprite_high = copy(&sections[10]);
        self.memory.ppu.sprite_attribute = copy(&sections[11]);
        self.memory.ppu.sprite_x = copy(&sections[12]);
        self.memory.apu = apu.unwrap();
        let (open_bus, oam_dma) = latch.unwrap();
        self.memory.open_bus = open_bus;
        self.memory.oam_dma = oam_dma;
        let _ = self.memory.cartridge.restore(&sections[16]);
        let _ = self.memory.controller.restore(&sections[17]);
        Ok(())
    }
}

/// A console that is restored from a saved state is the console that was
/// saved, whatever the console it is restored into was doing, as long as
/// its memories have the machine's sizes and the two agree in what cannot
/// change of cartridge and controller. So the two go on alike: after any
/// number of cycles their saved states are the same, byte for byte.
pub proof fn lemma_saved_state_resumes<G: Cartridge, C: Controller>(
    fresh: ConsoleView<G::V, C::V>,
    console: ConsoleView<G::V, C::V>,
    cycles: nat,
)
    requires
        console.memory.ppu.state.positioned(),
        console.memory.sized(),
        writable(state_sections::<G, C>(console)),
        G::same_image(fresh.memory.cartridge, console.memory.cartridge),
        C::same_image(fresh.memory.controller, console.memory.controller),
    ensures
        state_restored::<G, C>(fresh, state_saved::<G, C>(console)) == Ok::<
            ConsoleView<G::V, C::V>,
            SaveStateMismatch,
        >(console),
        state_saved::<G, C>(
            cycles_stepped::<G, C>(
                state_restored::<G, C>(fresh, state_saved::<G, C>(console)).unwrap(),
                cycles,
            ),
        ) == state_saved::<G, C>(cycles_stepped::<G, C>(console, cycles)),
{
    let sections = state_sections::<G, C>(console);
    let bytes = state_saved::<G, C>(console);
    lemma_split_joined(version_tag(), sections);
    assert(tagged(bytes));
    lemma_processor_round_trip(console.cpu);
    lemma_ppu_state_round_trip(console.memory.ppu.state);
    lemma_background_round_trip(console.memory.ppu.background);
    lemma_evaluation_round_trip(console.memory.ppu.evaluation);
    lemma_apu_round_trip(console.memory.apu);
    lemma_interrupt_round_trip(console.cpu.interrupt);
    lemma_latch_round_trip(console.memory.open_bus, console.memory.oam_dma);
    assert(sections[16].len() <= MAX_SECTION);
    assert(sections[17].len() <= MAX_SECTION);
    G::lemma_restores(fresh.memory.cartridge, console.memory.cartridge);
    C::lemma_restores(fresh.memory.controller, console.memory.controller);
    assert(fitting::<G, C>(fresh, sections));
    assert(assembled::<G, C>(fresh, sections) == console);
}

} // verus!
