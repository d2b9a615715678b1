//! Cycle-driven core of a 6502-based 8-bit console: CPU, picture unit, audio
//! unit and the bus that binds them, with every stepping function carrying a
//! machine-checked contract.
//!
//! The machine is deterministic. Every part has a view, its state as
//! contracts see it, and every step is specified as a function on views:
//! [`cpu::executor::step_spec`] for a CPU cycle,
//! [`ppu::PpuView::dot_stepped`] for a dot of the picture unit,
//! [`apu::Core::frame_stepped`] for a cycle of the audio unit, and
//! [`console::cycle_stepped`] for all of them together.
//!
//! - [`cpu`]: registers, interrupt lines, the bus as the CPU sees it, the
//!   microcode of every addressing mode and opcode, the DMA unit, and the
//!   laws of the cycle counts.
//! - [`ppu`]: the picture unit's registers, memories and dot.
//! - [`apu`]: the five channels, the frame sequencer and the mixer's
//!   indices.
//! - [`cartridge`] and [`controller`]: what plugs into the console, the
//!   cartridge file format, and the cartridges and the pad that are
//!   provided.
//! - [`console`]: the whole machine, by cycle and by frame.
//! - [`save`]: the machine as a versioned stream of bytes, and back.
//! - [`screen`]: pictures on their way to a display.

pub mod apu;
pub mod cartridge;
pub mod console;
pub mod controller;
pub mod cpu;
pub mod memory;
pub mod open_bus;
pub mod ppu;
pub mod save;
pub mod screen;

pub use open_bus::OpenBusReadResult;
