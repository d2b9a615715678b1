use nerust_core::apu::SampleBuffer;
use nerust_core::cartridge::Mirroring;
use nerust_core::cartridge::nrom::Nrom;
use nerust_core::console::Console;
use nerust_core::controller::Controller;
use nerust_core::controller::standard_controller::{Buttons, StandardController};
use nerust_core::cpu::bus::Transaction;
use nerust_core::cpu::memory::is_unhandled;
use nerust_core::screen::buffer::ScreenBuffer;
use nerust_core::screen::{LogicalSize, Vec2D, VertexData, RGB};

/// A console around a cartridge whose program is `program` at 0x8000,
/// where the reset vector points.
fn console_with(program: &[u8]) -> Console<Nrom, StandardController> {
    let mut memory = vec![0xEAu8; 0x8000];
    memory[..program.len()].copy_from_slice(program);
    memory[0x7FFC] = 0x00;
    memory[0x7FFD] = 0x80;
    memory[0x7FFA] = 0x00;
    memory[0x7FFB] = 0x90;
    memory[0x1000] = 0x40; // RTI at 0x9000
    let cartridge = Nrom::new(memory, vec![0; 0x2000], true, Mirroring::Vertical);
    Console::new(cartridge, StandardController::new())
}

fn screen() -> ScreenBuffer {
    ScreenBuffer::new(LogicalSize { width: 256, height: 240 })
}

#[test]
fn a_frame_sends_61440_pixels_and_one_sample_per_cycle() {
    // a loop on itself
    let mut console = console_with(&[0x4C, 0x00, 0x80]);
    let mut screen = screen();
    let mut mixer = SampleBuffer::new();
    let cycles = console.step_frame(&mut screen, &mut mixer);
    // 341 * 262 dots, three to a cycle
    assert_eq!(cycles, 29781);
    assert_eq!(mixer.data.len(), 29781);
    assert_eq!(console.memory.ppu.state.scanline, -1);
    assert_eq!(console.memory.ppu.state.dot, 1);
    let cycles = console.step_frame(&mut screen, &mut mixer);
    assert_eq!(cycles, 29781);
    assert_eq!(console.memory.ppu.state.dot, 2);
    let cycles = console.step_frame(&mut screen, &mut mixer);
    assert_eq!(cycles, 29780);
    assert_eq!(console.memory.ppu.state.dot, 0);
    assert_eq!(mixer.data.len(), 29781 + 29781 + 29780);
}

#[test]
fn a_cycle_is_three_dots() {
    let mut console = console_with(&[0x4C, 0x00, 0x80]);
    let mut screen = screen();
    let mut mixer = SampleBuffer::new();
    for cycle in 1..=1000u32 {
        console.step_cycle(&mut screen, &mut mixer);
        let state = console.memory.ppu.state;
        assert_eq!((state.scanline as i32 + 1) * 341 + state.dot as i32, 3 * cycle as i32);
    }
    assert_eq!(mixer.data.len(), 1000);
}

#[test]
fn program_writes_reach_the_picture_unit() {
    // LDA #$3F; STA $2006; LDA #$00; STA $2006; LDA #$2C; STA $2007; loop
    let mut console = console_with(&[
        0xA9, 0x3F, 0x8D, 0x06, 0x20, 0xA9, 0x00, 0x8D, 0x06, 0x20, 0xA9, 0x2C, 0x8D, 0x07, 0x20,
        0x4C, 0x0F, 0x80,
    ]);
    let mut screen = screen();
    let mut mixer = SampleBuffer::new();
    console.step_frame(&mut screen, &mut mixer);
    assert_eq!(console.memory.ppu.read_palette(0x3F00), 0x2C);
    console.step_frame(&mut screen, &mut mixer);
    assert_eq!(screen.get(0, 0), 0x2C);
    assert_eq!(screen.get(255, 239), 0x2C);
}

#[test]
fn internal_memory_repeats_every_2_kib() {
    // LDA #$77; STA $0001; LDA $0801; STA $1002; loop
    let mut console = console_with(&[
        0xA9, 0x77, 0x8D, 0x01, 0x00, 0xAD, 0x01, 0x08, 0x8D, 0x02, 0x10, 0x4C, 0x0B, 0x80,
    ]);
    let mut screen = screen();
    let mut mixer = SampleBuffer::new();
    for _ in 0..40 {
        console.step_cycle(&mut screen, &mut mixer);
    }
    assert_eq!(console.memory.ram[1], 0x77);
    assert_eq!(console.memory.ram[2], 0x77);
}

#[test]
fn unmapped_reads_return_what_was_on_the_bus() {
    // LDA $4018: nothing answers there, so the high byte of the address,
    // the last byte fetched, comes back
    let mut console = console_with(&[0xAD, 0x18, 0x40, 0x4C, 0x03, 0x80]);
    let mut screen = screen();
    let mut mixer = SampleBuffer::new();
    for _ in 0..(7 + 4) {
        console.step_cycle(&mut screen, &mut mixer);
    }
    assert_eq!(console.cpu.register.a, 0x40);
}

#[test]
fn vertical_blanking_interrupts_the_program() {
    // LDA #$80; STA $2000; loop
    let mut console = console_with(&[0xA9, 0x80, 0x8D, 0x00, 0x20, 0x4C, 0x05, 0x80]);
    let mut screen = screen();
    let mut mixer = SampleBuffer::new();
    let mut entered = false;
    for _ in 0..30000 {
        console.step_cycle(&mut screen, &mut mixer);
        if console.cpu.register.pc == 0x9000 {
            entered = true;
            break;
        }
    }
    assert!(entered);
    assert_eq!(console.memory.ppu.state.scanline, 241);
    assert!(!console.cpu.interrupt.nmi);
}

#[test]
fn sprite_dma_fills_sprite_memory() {
    // fill page 2 with its own indices, then copy it
    // LDX #$00; loop: TXA; STA $0200,X; INX; BNE loop; LDA #$02; STA $4014; wait
    let mut console = console_with(&[
        0xA2, 0x00, 0x8A, 0x9D, 0x00, 0x02, 0xE8, 0xD0, 0xF9, 0xA9, 0x02, 0x8D, 0x14, 0x40, 0x4C,
        0x0E, 0x80,
    ]);
    let mut screen = screen();
    let mut mixer = SampleBuffer::new();
    for _ in 0..5000 {
        console.step_cycle(&mut screen, &mut mixer);
    }
    for index in 0..256usize {
        assert_eq!(console.memory.ppu.oam[index], index as u8);
    }
}

#[test]
fn controller_reports_buttons_in_order_then_ones() {
    let mut controller = StandardController::new();
    controller.set_pad1(Buttons::from_bits(Buttons::A | Buttons::START | Buttons::RIGHT));
    controller.write(1);
    controller.write(0);
    let mut bits = Vec::new();
    for _ in 0..10 {
        bits.push(controller.read(0x4016).data);
    }
    assert_eq!(bits, vec![1, 0, 0, 1, 0, 0, 0, 1, 1, 1]);
    // the second pad has no button down
    assert_eq!(controller.read(0x4017).data, 0);
    assert_eq!(controller.read(0x4017).mask, 0x1F);
}

#[test]
fn controller_reports_a_while_the_strobe_is_high() {
    let mut controller = StandardController::new();
    controller.write(1);
    controller.set_pad1(Buttons::from_bits(Buttons::A));
    assert_eq!(controller.read(0x4016).data, 1);
    assert_eq!(controller.read(0x4016).data, 1);
    controller.set_pad1(Buttons::empty());
    assert_eq!(controller.read(0x4016).data, 0);
}

#[test]
fn buttons_follow_the_keys() {
    let keys = Buttons::empty();
    let keys = keys.key(Buttons::A, true);
    let keys = keys.key(Buttons::UP, true);
    assert_eq!(keys.bits(), 0x11);
    assert!(keys.contains(Buttons::A));
    let keys = keys.key(Buttons::A, false);
    assert_eq!(keys.bits(), 0x10);
    assert!(!keys.contains(Buttons::A));
}

#[test]
fn program_reads_the_controller() {
    // LDA #$01; STA $4016; LDA #$00; STA $4016; LDA $4016; loop
    let mut console = console_with(&[
        0xA9, 0x01, 0x8D, 0x16, 0x40, 0xA9, 0x00, 0x8D, 0x16, 0x40, 0xAD, 0x16, 0x40, 0x4C, 0x0D,
        0x80,
    ]);
    console.memory.controller.set_pad1(Buttons::from_bits(Buttons::A));
    let mut screen = screen();
    let mut mixer = SampleBuffer::new();
    for _ in 0..(7 + 2 + 4 + 2 + 4 + 4) {
        console.step_cycle(&mut screen, &mut mixer);
    }
    // bit 0 is the button; the other lines keep the address's high byte
    assert_eq!(console.cpu.register.a, 0x41);
}

#[test]
fn reset_runs_the_reset_sequence_again() {
    let mut console = console_with(&[0x4C, 0x00, 0x80]);
    let mut screen = screen();
    let mut mixer = SampleBuffer::new();
    for _ in 0..100 {
        console.step_cycle(&mut screen, &mut mixer);
    }
    console.cpu.register.pc = 0x1234;
    console.reset();
    for _ in 0..7 {
        console.step_cycle(&mut screen, &mut mixer);
    }
    assert_eq!(console.cpu.register.pc, 0x8000);
}

#[test]
fn rgb_from_a_number() {
    let colour = RGB::from(0x12_34_56u32);
    assert_eq!((colour.red, colour.green, colour.blue), (0x12, 0x34, 0x56));
    assert_eq!(colour.to_u32(), 0x12_34_56);
    let high = RGB::from(0xFF_AB_CD_EFu32);
    assert_eq!((high.red, high.green, high.blue), (0xAB, 0xCD, 0xEF));
}

#[test]
fn vertex_data_keeps_its_corners() {
    let position = Vec2D::new(1.0f32.to_bits(), (-1.0f32).to_bits());
    let uv = Vec2D::new(0.0f32.to_bits(), 1.0f32.to_bits());
    let vertex = VertexData::new(position, uv);
    assert_eq!(f32::from_bits(vertex.position.x), 1.0);
    assert_eq!(f32::from_bits(vertex.position.y), -1.0);
    assert_eq!(f32::from_bits(vertex.uv.y), 1.0);
}

#[test]
fn allocate_gives_defaults() {
    let buffer: Vec<u32> = nerust_core::screen::buffer::allocate(5);
    assert_eq!(buffer, vec![0u32; 5]);
    let empty: Vec<u8> = nerust_core::screen::buffer::allocate(0);
    assert!(empty.is_empty());
}

#[test]
fn accesses_without_a_device_are_told_apart() {
    for address in [0x4000u16, 0x4014, 0x4018, 0x401F] {
        assert!(is_unhandled(Transaction::Read { address, value: 0 }));
    }
    for address in [0x0000u16, 0x1FFF, 0x2002, 0x3FFF, 0x4015, 0x4016, 0x4017, 0x4020, 0xFFFF] {
        assert!(!is_unhandled(Transaction::Read { address, value: 0 }));
    }
    for address in [0x4018u16, 0x401A, 0x401F] {
        assert!(is_unhandled(Transaction::Write { address, value: 0 }));
    }
    for address in [0x0000u16, 0x2000, 0x4000, 0x4009, 0x400D, 0x4013, 0x4014, 0x4015, 0x4016, 0x4017, 0x4020]
    {
        assert!(!is_unhandled(Transaction::Write { address, value: 0 }));
    }
    assert!(nerust_core::apu::Core::handles_read(0x4015));
    assert!(!nerust_core::apu::Core::handles_read(0x4014));
    assert!(nerust_core::apu::Core::handles_write(0x4017));
    assert!(!nerust_core::apu::Core::handles_write(0x4016));
}

#[test]
fn the_console_tells_of_accesses_without_a_device() {
    // LDA $4018; STA $401A; LDA $4015; STA $4000; JMP $8000
    let mut console = console_with(&[
        0xAD, 0x18, 0x40, 0x8D, 0x1A, 0x40, 0xAD, 0x15, 0x40, 0x8D, 0x00, 0x40, 0x4C, 0x00, 0x80,
    ]);
    let mut screen = screen();
    let mut mixer = SampleBuffer::new();
    let mut found = Vec::new();
    for _ in 0..7 + 19 {
        console.step_cycle(&mut screen, &mut mixer);
        let access = console.cpu.internal_stat.get_latest();
        if is_unhandled(access) {
            found.push(access);
        }
    }
    assert_eq!(found.len(), 2);
    assert!(matches!(found[0], Transaction::Read { address: 0x4018, .. }));
    assert!(matches!(found[1], Transaction::Write { address: 0x401A, .. }));
}
