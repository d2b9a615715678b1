//! The console: the CPU and the machine behind its bus, clocked together.
//!
//! One cycle of the console is one CPU cycle, then three dots of the
//! picture unit, then one cycle of the audio unit, which sends one sample.

use crate::apu;
use crate::apu::pulse::Pulse;
use crate::apu::{MixerInput, MixerSample};
use crate::cartridge::Cartridge;
use crate::controller::Controller;
use crate::cpu::executor::step_spec;
use crate::cpu::memory::{Memory, MemoryView, RAM_SIZE};
use crate::memory::filled;
use crate::cpu::Core;
use crate::ppu::state::{lemma_dot_progress, PpuState, FRAME_DOTS, FRAME_PIXELS, PRE_RENDER_LINE};
use crate::ppu::{lemma_extent_sizes, Pixel, PpuView, Screen};
use vstd::prelude::*;

verus! {

/// The console.
pub struct Console<G, C> {
    pub cpu: Core,
    pub memory: Memory<G, C>,
}

/// The console as contracts see it.
pub struct ConsoleView<GV, CV> {
    pub cpu: Core,
    pub memory: MemoryView<GV, CV>,
}

impl<G: Cartridge, C: Controller> View for Console<G, C> {
    type V = ConsoleView<G::V, C::V>;

    open spec fn view(&self) -> ConsoleView<G::V, C::V> {
        ConsoleView { cpu: self.cpu, memory: self.memory@ }
    }
}

/// The console at power-on around a cartridge and a controller: the CPU
/// about to run its reset sequence, memory cleared, the picture unit at
/// the beginning of a frame, and the audio unit four cycles in.
pub open spec fn power_on<G: Cartridge, C: Controller>(cartridge: G::V, controller: C::V) -> ConsoleView<
    G::V,
    C::V,
> {
    let (apu, interrupt) = apu::Core::fresh().initialized(Core::power_on().interrupt);
    ConsoleView {
        cpu: Core { interrupt, ..Core::power_on() },
        memory: MemoryView {
            ram: filled(RAM_SIZE as nat, 0),
            ppu: PpuView::initial(),
            apu,
            cartridge,
            controller,
            open_bus: 0,
            oam_dma: None,
        },
    }
}

/// The console after its reset line was pulled: the CPU is about to run
/// its reset sequence, and the audio unit is as at power-on, four cycles
/// in. Memory, the picture unit, the cartridge and the controller stay as
/// they are.
pub open spec fn reset<G: Cartridge, C: Controller>(console: ConsoleView<G::V, C::V>) -> ConsoleView<
    G::V,
    C::V,
> {
    let (apu, interrupt) = (apu::Core {
        pulse1: Pulse::initial(console.memory.apu.pulse1.is_first_channel).swept(),
        pulse2: Pulse::initial(console.memory.apu.pulse2.is_first_channel).swept(),
        ..apu::Core::fresh()
    }).initialized(console.cpu.reset_spec().interrupt);
    ConsoleView {
        cpu: Core { interrupt, ..console.cpu.reset_spec() },
        memory: MemoryView { apu, ..console.memory },
    }
}

/// The console after one dot of its picture unit.
pub open spec fn dotted<G: Cartridge, C: Controller>(console: ConsoleView<G::V, C::V>) -> ConsoleView<
    G::V,
    C::V,
> {
    let (ppu, cartridge, interrupt) = console.memory.ppu.dot_stepped::<G>(
        console.memory.cartridge,
        console.cpu.interrupt,
    );
    ConsoleView {
        cpu: Core { interrupt, ..console.cpu },
        memory: MemoryView { ppu, cartridge, ..console.memory },
    }
}

/// The console after one cycle of its audio unit.
pub open spec fn sounded<G: Cartridge, C: Controller>(console: ConsoleView<G::V, C::V>) -> ConsoleView<
    G::V,
    C::V,
> {
    let (apu, interrupt) = console.memory.apu.frame_stepped(console.cpu.interrupt);
    ConsoleView {
        cpu: Core { interrupt, ..console.cpu },
        memory: MemoryView { apu, ..console.memory },
    }
}

/// The console after one CPU cycle of its CPU.
pub open spec fn computed<G: Cartridge, C: Controller>(console: ConsoleView<G::V, C::V>) -> ConsoleView<
    G::V,
    C::V,
> {
    let (cpu, memory) = step_spec::<Memory<G, C>>(console.cpu, console.memory);
    ConsoleView { cpu, memory }
}

/// The console after one cycle: the CPU's cycle, three dots, the audio
/// unit's cycle.
pub open spec fn cycle_stepped<G: Cartridge, C: Controller>(
    console: ConsoleView<G::V, C::V>,
) -> ConsoleView<G::V, C::V> {
    sounded::<G, C>(
        dotted::<G, C>(dotted::<G, C>(dotted::<G, C>(computed::<G, C>(console)))),
    )
}

/// The console after `cycles` cycles.
pub open spec fn cycles_stepped<G: Cartridge, C: Controller>(
    console: ConsoleView<G::V, C::V>,
    cycles: nat,
) -> ConsoleView<G::V, C::V>
    decreases cycles,
{
    if cycles == 0 {
        console
    } else {
        cycle_stepped::<G, C>(cycles_stepped::<G, C>(console, (cycles - 1) as nat))
    }
}

/// The pixels after one cycle of `console`: those that its three dots put
/// out, behind `pixels`.
pub open spec fn cycle_drawn<G: Cartridge, C: Controller>(
    console: ConsoleView<G::V, C::V>,
    pixels: Seq<Pixel>,
) -> Seq<Pixel> {
    let first = computed::<G, C>(console);
    let second = dotted::<G, C>(first);
    let third = dotted::<G, C>(second);
    third.memory.ppu.drawn(second.memory.ppu.drawn(first.memory.ppu.drawn(pixels)))
}

/// The pixels after `cycles` cycles of `console`, behind `pixels`.
pub open spec fn cycles_drawn<G: Cartridge, C: Controller>(
    console: ConsoleView<G::V, C::V>,
    pixels: Seq<Pixel>,
    cycles: nat,
) -> Seq<Pixel>
    decreases cycles,
{
    if cycles == 0 {
        pixels
    } else {
        cycle_drawn::<G, C>(
            cycles_stepped::<G, C>(console, (cycles - 1) as nat),
            cycles_drawn::<G, C>(console, pixels, (cycles - 1) as nat),
        )
    }
}

/// The samples after `cycles` cycles of `console`, behind `samples`: one
/// for each cycle, mixed from the audio unit as the cycle left it.
pub open spec fn cycles_sounded<G: Cartridge, C: Controller>(
    console: ConsoleView<G::V, C::V>,
    samples: Seq<MixerSample>,
    cycles: nat,
) -> Seq<MixerSample>
    decreases cycles,
{
    if cycles == 0 {
        samples
    } else {
        cycles_sounded::<G, C>(console, samples, (cycles - 1) as nat).push(
            cycles_stepped::<G, C>(console, cycles).memory.apu.mixed(),
        )
    }
}

impl<G: Cartridge, C: Controller> Console<G, C> {
    /// The picture unit's registers, flags and position.
    pub open spec fn clock(&self) -> PpuState {
        self.memory.ppu.state
    }

    /// What holds of every console: the picture unit's position is one of
    /// the frame's, and every memory has the size that the machine is
    /// built with.
    pub open spec fn wf(&self) -> bool {
        self.clock().positioned() && self@.memory.sized()
    }

    /// The console at power-on around the given cartridge and controller.
    pub fn new(cartridge: G, controller: C) -> (r: Self)
        ensures
            r@ == power_on::<G, C>(cartridge@, controller@),
            r.wf(),
            r.memory.log@ == Seq::<crate::cpu::bus::Transaction>::empty(),
    {
        let mut cpu = Core::new();
        let memory = Memory::new(cartridge, controller, &mut cpu.interrupt);
        Console { cpu, memory }
    }

    /// Pulls the reset line of the CPU and of the audio unit: see
    /// [`reset`].
    pub fn reset(&mut self)
        ensures
            final(self)@ == reset::<G, C>(old(self)@),
            final(self).wf() == old(self).wf(),
            final(self).memory.log@ == old(self).memory.log@,
    {
        self.cpu.reset();
        self.memory.apu.reset(&mut self.cpu.interrupt);
    }

    /// One dot of the picture unit; answers whether it ended the frame.
    fn step_dot<S: Screen>(&mut self, screen: &mut S) -> (frame: bool)
        requires
            old(self).wf(),
        ensures
            final(self)@ == dotted::<G, C>(old(self)@),
            final(self).wf(),
            final(screen).pixels() == old(self)@.memory.ppu.drawn(old(screen).pixels()),
            frame == old(self).clock().ends_frame(),
            final(self).clock().scanline == old(self).clock().advanced().scanline,
            final(self).clock().dot == old(self).clock().advanced().dot,
            final(self).clock().odd_frame == old(self).clock().advanced().odd_frame,
            final(self).clock().mask == old(self).clock().mask,
            final(self).memory.log@ == old(self).memory.log@,
    {
        proof {
            lemma_dot_progress(self.memory.ppu.state);
        }
        let frame = self.memory.ppu.step(
            &mut self.memory.cartridge,
            &mut self.cpu.interrupt,
            screen,
        );
        proof {
            lemma_extent_sizes(old(self).memory.ppu@, self.memory.ppu@);
        }
        frame
    }

    /// One cycle of the console: the CPU makes exactly one access to the
    /// bus, which is the one that it then holds as its latest, the picture
    /// unit runs three dots, and the audio unit sends exactly one sample.
    /// Answers whether one of the dots ended the frame.
    pub fn step_cycle<S: Screen, M: MixerInput>(&mut self, screen: &mut S, mixer: &mut M) -> (frame:
        bool)
        requires
            old(self).wf(),
        ensures
            final(self)@ == cycle_stepped::<G, C>(old(self)@),
            final(self).wf(),
            final(self).memory.log@ == old(self).memory.log@.push(
                final(self).cpu.internal_stat.latest(),
            ),
            final(mixer).samples() == old(mixer).samples().push(final(self).memory.apu.mixed()),
            final(screen).pixels() == cycle_drawn::<G, C>(old(self)@, old(screen).pixels()),
            final(screen).pixels().len() - old(screen).pixels().len() == final(self).clock().pixels_before() - old(self).clock().pixels_before() + (
            if frame {
                FRAME_PIXELS as int
            } else {
                0
            }),
            frame ==> final(self).clock().scanline == PRE_RENDER_LINE && final(self).clock().dot <= 2,
            !frame ==> old(self).clock().dots_before() + 3 <= final(self).clock().dots_before() < FRAME_DOTS,
    {
        self.cpu.step(&mut self.memory);
        proof {
            crate::cpu::memory::lemma_extent_sizes(old(self).memory@, self.memory@);
        }
        let ghost first = self.memory.ppu.state;
        proof {
            lemma_dot_progress(first);
        }
        let frame1 = self.step_dot(screen);
        let ghost second = self.memory.ppu.state;
        proof {
            lemma_dot_progress(second);
        }
        let frame2 = self.step_dot(screen);
        let ghost third = self.memory.ppu.state;
        proof {
            lemma_dot_progress(third);
        }
        let frame3 = self.step_dot(screen);
        self.memory.apu.step(&mut self.cpu.interrupt, mixer);
        frame1 || frame2 || frame3
    }

    /// Runs cycles until the picture unit has ended its frame; answers how
    /// many.
    ///
    /// From the frame's beginning that sends exactly 256 times 240 pixels,
    /// and from anywhere the pixels that the frame has left; and it sends
    /// exactly one sample for each cycle.
    pub fn step_frame<S: Screen, M: MixerInput>(&mut self, screen: &mut S, mixer: &mut M) -> (cycles:
        u32)
        requires
            old(self).wf(),
        ensures
            final(self)@ == cycles_stepped::<G, C>(old(self)@, cycles as nat),
            final(self).wf(),
            cycles >= 1,
            final(screen).pixels().len() == old(screen).pixels().len() + FRAME_PIXELS - old(self).clock().pixels_before(),
            final(screen).pixels() == cycles_drawn::<G, C>(
                old(self)@,
                old(screen).pixels(),
                cycles as nat,
            ),
            final(mixer).samples() == cycles_sounded::<G, C>(
                old(self)@,
                old(mixer).samples(),
                cycles as nat,
            ),
            final(mixer).samples().len() == old(mixer).samples().len() + cycles,
            final(self).memory.log@.len() == old(self).memory.log@.len() + cycles,
            final(self).clock().scanline == PRE_RENDER_LINE,
            final(self).clock().dot <= 2,
    {
        let mut cycles: u32 = 0;
        let mut frame = false;
        while !frame
            invariant
                self.wf(),
                self@ == cycles_stepped::<G, C>(old(self)@, cycles as nat),
                screen.pixels().len() - old(screen).pixels().len() == self.clock().pixels_before()
                    - old(self).clock().pixels_before() + (if frame {
                    FRAME_PIXELS as int
                } else {
                    0
                }),
                screen.pixels() == cycles_drawn::<G, C>(
                    old(self)@,
                    old(screen).pixels(),
                    cycles as nat,
                ),
                mixer.samples() == cycles_sounded::<G, C>(
                    old(self)@,
                    old(mixer).samples(),
                    cycles as nat,
                ),
                mixer.samples().len() == old(mixer).samples().len() + cycles,
                self.memory.log@.len() == old(self).memory.log@.len() + cycles,
                frame ==> self.clock().scanline == PRE_RENDER_LINE
                    && self.clock().dot <= 2 && cycles >= 1,
                !frame ==> 0 <= self.clock().dots_before() < FRAME_DOTS && 3 * cycles
                    <= self.clock().dots_before(),
            decreases
                    if frame {
                        0
                    } else {
                        FRAME_DOTS - self.clock().dots_before()
                    },
        {
            proof {
                lemma_dot_progress(self.memory.ppu.state);
            }
            frame = self.step_cycle(screen, mixer);
            cycles = cycles + 1;
        }
        cycles
    }
}

} // verus!
