use nerust_core::apu::SampleBuffer;
use nerust_core::cartridge::Cartridge;
use nerust_core::cartridge::format::{load, parse, LoadError};
use nerust_core::cartridge::Mirroring;
use nerust_core::cartridge::nrom::Nrom;
use nerust_core::console::Console;
use nerust_core::controller::standard_controller::{Buttons, StandardController};
use nerust_core::save::codec::{append, read_sections};
use nerust_core::save::SaveStateMismatch;
use nerust_core::screen::buffer::ScreenBuffer;
use nerust_core::screen::LogicalSize;

/// A program that counts in memory, writes to the picture unit and the
/// audio unit, and reads the controller, for ever.
fn program() -> Vec<u8> {
    let mut memory = vec![0xEAu8; 0x8000];
    let code = [
        0xA9, 0x1E, 0x8D, 0x01, 0x20, // LDA #$1E; STA $2001
        0xA9, 0x0F, 0x8D, 0x15, 0x40, // LDA #$0F; STA $4015
        0xE6, 0x10, // loop: INC $10
        0xA5, 0x10, 0x8D, 0x02, 0x40, // LDA $10; STA $4002
        0x8D, 0x00, 0x60, // STA $6000
        0x8D, 0x07, 0x20, // STA $2007
        0xAD, 0x16, 0x40, // LDA $4016
        0x4C, 0x0A, 0x80, // JMP loop
    ];
    memory[..code.len()].copy_from_slice(&code);
    memory[0x7FFC] = 0x00;
    memory[0x7FFD] = 0x80;
    memory
}

fn console() -> Console<Nrom, StandardController> {
    let cartridge = Nrom::new(program(), vec![0; 0x2000], true, Mirroring::Vertical);
    Console::new(cartridge, StandardController::new())
}

fn run(console: &mut Console<Nrom, StandardController>, cycles: usize) {
    let mut screen = ScreenBuffer::new(LogicalSize { width: 256, height: 240 });
    let mut mixer = SampleBuffer::new();
    for _ in 0..cycles {
        console.step_cycle(&mut screen, &mut mixer);
    }
}

#[test]
fn a_saved_state_begins_with_the_version_tag() {
    let console = console();
    let bytes = console.save_state();
    assert_eq!(&bytes[..4], &[0x4E, 0x45, 0x52, 0x01]);
}

#[test]
fn saving_is_a_function_of_the_state() {
    let mut first = console();
    let mut second = console();
    run(&mut first, 12345);
    run(&mut second, 12345);
    assert_eq!(first.save_state(), second.save_state());
    run(&mut second, 1);
    assert_ne!(first.save_state(), second.save_state());
}

#[test]
fn a_restored_console_goes_on_as_the_saved_one() {
    for (before, after) in [(0, 1000), (1, 1), (777, 5000), (40_000, 30_000)] {
        let mut original = console();
        original.memory.controller.set_pad1(Buttons::from_bits(Buttons::B));
        run(&mut original, before);
        let saved = original.save_state();
        let mut fresh = console();
        run(&mut fresh, 99);
        assert_eq!(fresh.load_state(&saved), Ok(()));
        assert_eq!(fresh.save_state(), saved);
        run(&mut original, after);
        run(&mut fresh, after);
        assert_eq!(fresh.save_state(), original.save_state());
        assert_eq!(fresh.cpu, original.cpu);
        assert_eq!(fresh.memory.ram, original.memory.ram);
        assert_eq!(fresh.memory.ppu.nametable, original.memory.ppu.nametable);
        assert_eq!(fresh.memory.apu, original.memory.apu);
    }
}

#[test]
fn a_wrong_tag_is_a_version_mismatch() {
    let mut console = console();
    run(&mut console, 100);
    let before = console.save_state();
    let mut bytes = before.clone();
    bytes[3] = 0x02;
    assert_eq!(console.load_state(&bytes), Err(SaveStateMismatch::Version));
    assert_eq!(console.load_state(&vec![0x4E, 0x45]), Err(SaveStateMismatch::Version));
    assert_eq!(console.load_state(&Vec::new()), Err(SaveStateMismatch::Version));
    assert_eq!(console.save_state(), before);
}

#[test]
fn damaged_sections_are_a_layout_mismatch() {
    let mut console = console();
    run(&mut console, 100);
    let before = console.save_state();
    // cut short
    let mut short = before.clone();
    short.pop();
    assert_eq!(console.load_state(&short), Err(SaveStateMismatch::Layout));
    // too long
    let mut long = before.clone();
    long.push(0);
    assert_eq!(console.load_state(&long), Err(SaveStateMismatch::Layout));
    // a flag that is neither zero nor one: the carry flag is the seventh
    // byte of the first part of the first section
    let mut flag = before.clone();
    assert!(flag[4 + 4 + 4 + 6] <= 1);
    flag[4 + 4 + 4 + 6] = 2;
    assert_eq!(console.load_state(&flag), Err(SaveStateMismatch::Layout));
    // only the tag
    assert_eq!(
        console.load_state(&vec![0x4E, 0x45, 0x52, 0x01]),
        Err(SaveStateMismatch::Layout)
    );
    assert_eq!(console.save_state(), before);
}

#[test]
fn memories_of_another_size_are_a_layout_mismatch() {
    let mut console = console();
    run(&mut console, 100);
    let before = console.save_state();
    let (sections, end) = read_sections(&before, 4, 18).unwrap();
    assert_eq!(end, before.len());
    assert_eq!(sections[1].len(), 0x800);
    assert_eq!(sections[5].len(), 256);
    assert_eq!(sections[6].len(), 32);
    assert_eq!(sections[7].len(), 32);
    assert_eq!(sections[8].len(), 0x800);
    for index in [1usize, 5, 6, 7, 8, 9, 10, 11, 12] {
        for longer in [false, true] {
            let mut changed = sections.clone();
            if longer {
                changed[index].push(0);
            } else {
                changed[index].pop();
            }
            let mut bytes = vec![0x4E, 0x45, 0x52, 0x01];
            append(&mut bytes, &changed);
            assert_eq!(console.load_state(&bytes), Err(SaveStateMismatch::Layout));
        }
    }
    // a palette of five bytes
    let mut changed = sections.clone();
    changed[7] = vec![1, 2, 3, 4, 5];
    let mut bytes = vec![0x4E, 0x45, 0x52, 0x01];
    append(&mut bytes, &changed);
    assert_eq!(console.load_state(&bytes), Err(SaveStateMismatch::Layout));
    assert_eq!(console.save_state(), before);
    // the sections as they were are the saved state, and load
    let mut bytes = vec![0x4E, 0x45, 0x52, 0x01];
    append(&mut bytes, &sections);
    assert_eq!(bytes, before);
    assert_eq!(console.load_state(&bytes), Ok(()));
    assert_eq!(console.memory.ppu.palette.len(), 32);
}

#[test]
fn the_saved_cpu_holds_its_latest_access() {
    let mut console = console();
    run(&mut console, 2000);
    let saved = console.save_state();
    let mut fresh = self::console();
    assert_eq!(fresh.load_state(&saved), Ok(()));
    assert_eq!(fresh.cpu.internal_stat, console.cpu.internal_stat);
    assert_eq!(fresh.cpu.internal_stat.last_value, console.cpu.internal_stat.last_value);
    assert_eq!(fresh.cpu.internal_stat.last_written, console.cpu.internal_stat.last_written);
}

#[test]
fn cartridge_writes_down_its_work_memory() {
    let mut cartridge = Nrom::new(vec![0; 0x4000], vec![1; 0x2000], false, Mirroring::Horizontal);
    cartridge.write_prg(0x6001, 0x5A);
    let saved = cartridge.save();
    // two sections: 8 KiB of work memory, and nothing for pattern memory
    // that cannot be written
    assert_eq!(saved.len(), 4 + 0x2000 + 4);
    let mut other = Nrom::new(vec![0; 0x4000], vec![1; 0x2000], false, Mirroring::Horizontal);
    assert!(other.restorable(&saved));
    assert!(other.restore(&saved));
    assert_eq!(other.read_prg(0x6001).data, 0x5A);
    assert!(!other.restore(&saved[..10].to_vec()));
    assert_eq!(other.read_prg(0x6001).data, 0x5A);
}

fn image(program_banks: u8, pattern_banks: u8, flags6: u8, flags7: u8) -> Vec<u8> {
    let mut bytes = vec![0x4E, 0x45, 0x53, 0x1A, program_banks, pattern_banks, flags6, flags7];
    bytes.extend_from_slice(&[0; 8]);
    if flags6 & 0x04 != 0 {
        bytes.extend((0..512).map(|i| (i % 251) as u8));
    }
    bytes.extend((0..program_banks as usize * 0x4000).map(|i| (i % 253) as u8));
    bytes.extend((0..pattern_banks as usize * 0x2000).map(|i| (i % 247) as u8));
    bytes
}

#[test]
fn a_file_is_taken_apart() {
    let bytes = image(2, 1, 0x01 | 0x02, 0x00);
    let data = parse(&bytes).unwrap();
    assert_eq!(data.header.program_banks, 2);
    assert_eq!(data.header.pattern_banks, 1);
    assert_eq!(data.header.mapper, 0);
    assert_eq!(data.header.mirroring, Mirroring::Vertical);
    assert!(data.header.battery);
    assert!(!data.header.trainer);
    assert!(!data.header.four_screen);
    assert!(data.trainer.is_empty());
    assert_eq!(data.program.len(), 0x8000);
    assert_eq!(data.program[..], bytes[16..16 + 0x8000]);
    assert_eq!(data.pattern[..], bytes[16 + 0x8000..]);
}

#[test]
fn a_trainer_comes_before_the_program() {
    let bytes = image(1, 0, 0x04 | 0x10, 0x20);
    let data = parse(&bytes).unwrap();
    assert!(data.header.trainer);
    assert_eq!(data.header.mapper, 0x21);
    assert_eq!(data.header.mirroring, Mirroring::Horizontal);
    assert_eq!(data.trainer[..], bytes[16..16 + 512]);
    assert_eq!(data.program[..], bytes[16 + 512..]);
    assert!(data.pattern.is_empty());
}

#[test]
fn malformed_headers_are_rejected() {
    assert_eq!(parse(&Vec::new()).err(), Some(LoadError::MalformedHeader));
    assert_eq!(parse(&vec![0x4E, 0x45, 0x53, 0x1A]).err(), Some(LoadError::MalformedHeader));
    let mut bytes = image(1, 1, 0, 0);
    bytes[3] = 0x1B;
    assert_eq!(parse(&bytes).err(), Some(LoadError::MalformedHeader));
}

#[test]
fn truncated_banks_are_rejected() {
    let mut bytes = image(1, 1, 0, 0);
    bytes.pop();
    assert_eq!(parse(&bytes).err(), Some(LoadError::TruncatedBanks));
    let header_only = image(1, 1, 0, 0)[..16].to_vec();
    assert_eq!(parse(&header_only).err(), Some(LoadError::TruncatedBanks));
}

#[test]
fn other_mappers_are_rejected() {
    let bytes = image(1, 1, 0x20, 0x00);
    assert_eq!(load(&bytes).err(), Some(LoadError::UnsupportedMapper { mapper: 2 }));
    assert!(load(&image(1, 1, 0x10, 0x00)).is_ok());
    let bytes = image(1, 1, 0x40, 0xF0);
    assert_eq!(load(&bytes).err(), Some(LoadError::UnsupportedMapper { mapper: 0xF4 }));
}

#[test]
fn a_loaded_cartridge_answers_the_bus() {
    let bytes = image(1, 0, 0x01, 0x00);
    let mut cartridge = load(&bytes).unwrap();
    assert_eq!(cartridge.mirroring(), Mirroring::Vertical);
    // one bank shows twice
    assert_eq!(cartridge.read_prg(0x8000).data, 0);
    assert_eq!(cartridge.read_prg(0x8005).data, 5);
    assert_eq!(cartridge.read_prg(0xC005).data, 5);
    assert_eq!(cartridge.read_prg(0x8005).mask, 0xFF);
    // nothing below the work memory
    assert_eq!(cartridge.read_prg(0x5000).mask, 0);
    // without pattern banks, pattern memory can be written
    cartridge.write_chr(0x0123, 0x99);
    assert_eq!(cartridge.read_chr(0x0123), 0x99);
    // program memory cannot
    cartridge.write_prg(0x8005, 0x00);
    assert_eq!(cartridge.read_prg(0x8005).data, 5);
}
