use crc::crc64;
use nerust_core::apu::SampleBuffer;
use nerust_core::cartridge::format::load;
use nerust_core::cartridge::mapper::Mapper;
use nerust_core::cartridge::sxrom::Sxrom;
use nerust_core::cartridge::{Cartridge, Mirroring};
use nerust_core::console::Console;
use nerust_core::controller::standard_controller::{Buttons, StandardController};
use nerust_core::screen::buffer::ScreenBuffer;
use nerust_core::screen::LogicalSize;
use std::collections::VecDeque;
use std::hash::Hasher;

#[derive(Debug, Copy, Clone)]
enum PadState {
    Pressed,
    Released,
}

#[derive(Debug, Copy, Clone)]
enum ScenarioOperation {
    CheckScreen { hash: u64 },
    Reset,
    StandardControllerInput { code: u8, state: PadState },
}

#[derive(Debug, Copy, Clone)]
struct ScenarioLeaf {
    frame_number: u64,
    operation: ScenarioOperation,
}

impl ScenarioLeaf {
    fn check_screen(frame_number: u64, hash: u64) -> Self {
        Self { frame_number, operation: ScenarioOperation::CheckScreen { hash } }
    }

    fn standard_controller(frame_number: u64, code: u8, state: PadState) -> Self {
        Self { frame_number, operation: ScenarioOperation::StandardControllerInput { code, state } }
    }

    fn reset(frame_number: u64) -> Self {
        Self { frame_number, operation: ScenarioOperation::Reset }
    }
}

struct ScenarioRunner {
    screen: ScreenBuffer,
    console: Console<Mapper, StandardController>,
    mixer: SampleBuffer,
    frame_counter: u64,
    pad1: Buttons,
}

/// The CRC-64/ECMA digest of a picture of colour indices.
fn digest(picture: &[u8]) -> u64 {
    let mut hasher = crc64::Digest::new(crc64::ECMA);
    hasher.write(picture);
    hasher.finish()
}

impl ScenarioRunner {
    fn new(image: &Vec<u8>) -> Self {
        Self {
            screen: ScreenBuffer::new(LogicalSize { width: 256, height: 240 }),
            console: Console::new(load(image).unwrap(), StandardController::new()),
            mixer: SampleBuffer::new(),
            frame_counter: 0,
            pad1: Buttons::empty(),
        }
    }

    fn run(&mut self, scenario: &[ScenarioLeaf]) {
        let mut sorted = scenario.to_vec();
        sorted.sort_by(|a, b| a.frame_number.cmp(&b.frame_number));
        let mut scenario = VecDeque::from(sorted);
        while !scenario.is_empty() {
            self.on_update();
            while !scenario.is_empty() && scenario[0].frame_number == self.frame_counter {
                match scenario.pop_front().unwrap().operation {
                    ScenarioOperation::CheckScreen { hash } => {
                        let found = digest(&self.screen.buffer);
                        if found != hash {
                            panic!(
                                "assertion failed: `(left == right)` (left: `0x{:016X}`, right: \
                                 `0x{:016X}` frame: {})",
                                found, hash, self.frame_counter
                            );
                        }
                    }
                    ScenarioOperation::Reset => {
                        self.console.reset();
                    }
                    ScenarioOperation::StandardControllerInput { code, state } => {
                        self.pad1 = match state {
                            PadState::Pressed => self.pad1.key(code, true),
                            PadState::Released => self.pad1.key(code, false),
                        };
                        self.console.memory.controller.set_pad1(self.pad1);
                    }
                }
            }
        }
    }

    fn on_update(&mut self) {
        self.console.step_frame(&mut self.screen, &mut self.mixer);
        self.mixer.data.clear();
        self.frame_counter += 1;
    }
}

/// A cartridge file for the first of the mapper chips, of two program
/// banks and one pattern bank, whose program is `code` at 0x8000, where
/// the reset vector points.
fn image(code: &[u8]) -> Vec<u8> {
    let mut bytes = vec![0x4E, 0x45, 0x53, 0x1A, 2, 1, 0x10, 0, 0, 0, 0, 0, 0, 0, 0, 0];
    let mut program = vec![0xEAu8; 0x8000];
    program[..code.len()].copy_from_slice(code);
    program[0x7FFC] = 0x00;
    program[0x7FFD] = 0x80;
    bytes.extend_from_slice(&program);
    bytes.extend_from_slice(&[0u8; 0x2000]);
    bytes
}

/// The cartridge boards of the SEROM kind carry the first of the mapper
/// chips and 32 KiB of program memory, the whole of which shows in the
/// address space. The image that stands in for one here paints its
/// power-on splash, a picture of one colour, once the picture unit has
/// warmed up, and then waits.
fn splash() -> Vec<u8> {
    image(&[
        0x2C, 0x02, 0x20, // BIT $2002
        0x2C, 0x02, 0x20, // wait: BIT $2002
        0x10, 0xFB, //       BPL wait
        0xA9, 0x3F, 0x8D, 0x06, 0x20, // LDA #$3F; STA $2006
        0xA9, 0x00, 0x8D, 0x06, 0x20, // LDA #$00; STA $2006
        0xA9, 0x21, 0x8D, 0x07, 0x20, // LDA #$21; STA $2007
        0x4C, 0x17, 0x80, // here: JMP here
    ])
}

#[test]
fn serom() {
    assert!(matches!(load(&splash()), Ok(Mapper::Sxrom(_))));
    let mut runner = ScenarioRunner::new(&splash());
    runner.run(&[ScenarioLeaf::check_screen(20, digest(&[0x21; 256 * 240]))]);
    assert_eq!(runner.frame_counter, 20);
}

#[test]
fn scenario_steps_in_frame_order() {
    let mut runner = ScenarioRunner::new(&splash());
    runner.run(&[
        ScenarioLeaf::check_screen(5, digest(&[0x21; 256 * 240])),
        ScenarioLeaf::check_screen(1, digest(&[0x00; 256 * 240])),
        ScenarioLeaf::reset(3),
        ScenarioLeaf::standard_controller(2, Buttons::START, PadState::Pressed),
        ScenarioLeaf::standard_controller(4, Buttons::START, PadState::Released),
    ]);
    assert_eq!(runner.frame_counter, 5);
    assert_eq!(runner.pad1.bits(), 0);
}

#[test]
fn digest_is_crc_64_ecma() {
    // the check value of the algorithm
    assert_eq!(digest(b"123456789"), 0x995D_C9BB_DF19_39FA);
}

/// Writes the five bits of `value` to the register at `address`.
fn write_register(cartridge: &mut Sxrom, address: u16, value: u8) {
    for bit in 0..5 {
        cartridge.write_prg(address, (value >> bit) & 1);
    }
}

/// A cartridge of `banks` program banks, each filled with its number, and
/// eight pattern banks, each filled with its number plus 0x40.
fn banked(banks: usize) -> Sxrom {
    let mut program = Vec::new();
    for bank in 0..banks {
        program.extend(std::iter::repeat(bank as u8).take(0x4000));
    }
    let mut pattern = Vec::new();
    for bank in 0..8usize {
        pattern.extend(std::iter::repeat(0x40 + bank as u8).take(0x1000));
    }
    Sxrom::new(program, pattern, false)
}

#[test]
fn sxrom_fixes_the_last_bank_at_power_on() {
    let mut cartridge = banked(8);
    assert_eq!(cartridge.registers().control, 0x0C);
    assert_eq!(cartridge.read_prg(0x8000).data, 0);
    assert_eq!(cartridge.read_prg(0xBFFF).data, 0);
    assert_eq!(cartridge.read_prg(0xC000).data, 7);
    assert_eq!(cartridge.read_prg(0xFFFF).data, 7);
    write_register(&mut cartridge, 0xE000, 5);
    assert_eq!(cartridge.read_prg(0x8000).data, 5);
    assert_eq!(cartridge.read_prg(0xC000).data, 7);
}

#[test]
fn sxrom_registers_take_five_writes() {
    let mut cartridge = banked(8);
    for bit in [1, 0, 1, 0] {
        cartridge.write_prg(0xE000, bit);
        assert_eq!(cartridge.registers().program, 0);
    }
    cartridge.write_prg(0xE000, 0);
    assert_eq!(cartridge.registers().program, 0b00101);
    assert_eq!(cartridge.registers().count, 0);
    // the address of the fifth write selects the register
    for bit in [1, 1, 0, 0] {
        cartridge.write_prg(0x8000, bit);
    }
    cartridge.write_prg(0xA000, 0);
    assert_eq!(cartridge.registers().pattern0, 0b00011);
    // a write with bit 7 empties the shift register
    cartridge.write_prg(0xE000, 1);
    cartridge.write_prg(0xE000, 0x80);
    assert_eq!(cartridge.registers().count, 0);
    write_register(&mut cartridge, 0xE000, 2);
    assert_eq!(cartridge.registers().program, 2);
}

#[test]
fn sxrom_program_modes() {
    let mut cartridge = banked(8);
    // 32 KiB at once: the low bit of the bank does not count
    write_register(&mut cartridge, 0x8000, 0x00);
    write_register(&mut cartridge, 0xE000, 5);
    assert_eq!(cartridge.read_prg(0x8000).data, 4);
    assert_eq!(cartridge.read_prg(0xC000).data, 5);
    // the first bank fixed below
    write_register(&mut cartridge, 0x8000, 0x08);
    assert_eq!(cartridge.read_prg(0x8000).data, 0);
    assert_eq!(cartridge.read_prg(0xC000).data, 5);
}

#[test]
fn sxrom_pattern_modes_and_mirroring() {
    let mut cartridge = banked(2);
    // two banks of 4 KiB
    write_register(&mut cartridge, 0x8000, 0x10 | 0x0C | 0x02);
    assert_eq!(cartridge.mirroring(), Mirroring::Vertical);
    write_register(&mut cartridge, 0xA000, 3);
    write_register(&mut cartridge, 0xC000, 6);
    assert_eq!(cartridge.read_chr(0x0000), 0x43);
    assert_eq!(cartridge.read_chr(0x1000), 0x46);
    // one bank of 8 KiB
    write_register(&mut cartridge, 0x8000, 0x0C | 0x03);
    assert_eq!(cartridge.mirroring(), Mirroring::Horizontal);
    assert_eq!(cartridge.read_chr(0x0000), 0x42);
    assert_eq!(cartridge.read_chr(0x1FFF), 0x43);
    write_register(&mut cartridge, 0x8000, 0x0C);
    assert_eq!(cartridge.mirroring(), Mirroring::SingleLower);
    write_register(&mut cartridge, 0x8000, 0x0D);
    assert_eq!(cartridge.mirroring(), Mirroring::SingleUpper);
}

#[test]
fn sxrom_keeps_work_memory_and_registers_in_its_saved_state() {
    let mut cartridge = banked(4);
    cartridge.write_prg(0x6ABC, 0x99);
    write_register(&mut cartridge, 0xE000, 2);
    cartridge.write_prg(0xE000, 1);
    let saved = cartridge.save();
    let mut fresh = banked(4);
    assert!(fresh.restore(&saved));
    assert_eq!(fresh.registers(), cartridge.registers());
    assert_eq!(fresh.read_prg(0x6ABC).data, 0x99);
    assert_eq!(fresh.read_prg(0x8000).data, 2);
    assert_eq!(fresh.save(), saved);
    assert!(!fresh.restore(&saved[..saved.len() - 1].to_vec()));
}
