use nerust_core::cpu::addressing_mode::absolute::Absolute;
use nerust_core::cpu::addressing_mode::indexed_indirect::IndexedIndirect;
use nerust_core::cpu::addressing_mode::relative::Relative;
use nerust_core::cpu::bus::Transaction;
use nerust_core::cpu::internal_stat::{AddressingMode, CpuStatesEnum, Opcode};
use nerust_core::cpu::opcodes::bit::Bit;
use nerust_core::cpu::opcodes::jump::{Jmp, Jsr, Rts};
use nerust_core::cpu::recording_bus::RecordingBus;
use nerust_core::cpu::register::Register;
use nerust_core::cpu::{Core, CpuStepStateEnum};

/// A bus with `program` at 0x8000 and the reset vector pointing there.
fn bus_with(program: &[u8]) -> RecordingBus {
    let mut bus = RecordingBus::new();
    for (i, byte) in program.iter().enumerate() {
        bus.poke(0x8000 + i as u16, *byte);
    }
    bus.poke(0xFFFC, 0x00);
    bus.poke(0xFFFD, 0x80);
    bus
}

/// A CPU that has run its reset sequence on `bus`.
fn boot(bus: &mut RecordingBus) -> Core {
    let mut core = Core::new();
    for _ in 0..7 {
        core.step(bus);
    }
    core
}

fn fetched(core: &Core) -> bool {
    matches!(core.internal_stat.state, CpuStatesEnum::Mode(_)) && core.internal_stat.step == 0
}

/// Steps until an opcode fetch has been made; answers the cycles spent,
/// the fetch included.
fn step_to_fetch(core: &mut Core, bus: &mut RecordingBus) -> usize {
    let mut cycles = 0;
    loop {
        core.step(bus);
        cycles += 1;
        if fetched(core) {
            return cycles;
        }
        assert!(cycles < 600);
    }
}

/// The cycles that the first instruction of `program` takes.
fn cycles_of(program: &[u8], prepare: fn(&mut Core, &mut RecordingBus)) -> usize {
    let mut padded = program.to_vec();
    padded.extend_from_slice(&[0xEA, 0xEA, 0xEA, 0xEA]);
    let mut bus = bus_with(&padded);
    let mut core = boot(&mut bus);
    prepare(&mut core, &mut bus);
    assert_eq!(step_to_fetch(&mut core, &mut bus), 1);
    step_to_fetch(&mut core, &mut bus)
}

fn nothing(_core: &mut Core, _bus: &mut RecordingBus) {}

#[test]
fn register_power_on() {
    let r = Register::new();
    assert_eq!(r.get_pc(), 0);
    assert_eq!(r.get_p(), 0x20);
    assert!(!r.get_c() && !r.get_z() && !r.get_i() && !r.get_v() && !r.get_n());
}

#[test]
fn register_status_round_trip() {
    let mut r = Register::new();
    for value in 0..=255u8 {
        r.set_p(value);
        assert_eq!(r.get_p(), value);
    }
    r.set_p(0xC3);
    assert!(r.get_c() && r.get_z() && !r.get_i() && r.get_v() && r.get_n());
}

#[test]
fn register_nz_from_value() {
    let mut r = Register::new();
    r.set_nz_from_value(0);
    assert!(r.get_z() && !r.get_n());
    r.set_nz_from_value(0x80);
    assert!(!r.get_z() && r.get_n());
    r.set_nz_from_value(0x7F);
    assert!(!r.get_z() && !r.get_n());
}

#[test]
fn reset_takes_seven_cycles_and_loads_the_vector() {
    let mut bus = bus_with(&[0xEA]);
    let core = boot(&mut bus);
    assert_eq!(bus.count(), 7);
    assert_eq!(core.register.pc, 0x8000);
    assert_eq!(core.register.sp, 0xFD);
    assert!(core.register.i);
    assert!(!core.interrupt.executing);
    // three reads of the stack that write nothing
    assert_eq!(bus.access(2), Some(Transaction::Read { address: 0x0100, value: 0 }));
    assert_eq!(bus.access(3), Some(Transaction::Read { address: 0x01FF, value: 0 }));
    assert_eq!(bus.access(4), Some(Transaction::Read { address: 0x01FE, value: 0 }));
    assert_eq!(bus.access(5), Some(Transaction::Read { address: 0xFFFC, value: 0x00 }));
    assert_eq!(bus.access(6), Some(Transaction::Read { address: 0xFFFD, value: 0x80 }));
}

#[test]
fn every_cycle_makes_one_access() {
    let mut bus = bus_with(&[0xA9, 0x10, 0x8D, 0x00, 0x02, 0xEE, 0x00, 0x02, 0x4C, 0x00, 0x80]);
    let mut core = Core::new();
    for cycle in 0..500 {
        assert_eq!(bus.count(), cycle);
        core.step(&mut bus);
    }
    assert_eq!(bus.count(), 500);
}

#[test]
fn the_cpu_holds_the_access_it_made() {
    let mut bus = bus_with(&[0xA9, 0x10, 0x8D, 0x00, 0x02, 0xEE, 0x00, 0x02, 0x4C, 0x00, 0x80]);
    let mut core = Core::new();
    let mut writes = 0;
    for cycle in 0..500 {
        core.step(&mut bus);
        let stat = core.internal_stat;
        let held = if stat.last_write {
            writes += 1;
            Transaction::Write { address: stat.last_written, value: stat.last_value }
        } else {
            Transaction::Read { address: stat.last_read, value: stat.last_value }
        };
        assert_eq!(bus.access(cycle), Some(held));
    }
    assert!(writes > 50);
}

#[test]
fn reset_begins_with_a_read_at_the_program_counter() {
    let mut bus = bus_with(&[0xEA]);
    bus.poke(0x0000, 0x42);
    let mut core = Core::new();
    assert_eq!(core.register.pc, 0);
    core.step(&mut bus);
    assert_eq!(bus.count(), 1);
    assert_eq!(bus.access(0), Some(Transaction::Read { address: 0x0000, value: 0x42 }));
    assert_eq!(bus.access(1), None);
}

#[test]
fn a_store_is_a_write_of_the_register_at_the_address() {
    let mut bus = bus_with(&[0xA9, 0x5A, 0x8D, 0x34, 0x12, 0xEA]);
    let mut core = boot(&mut bus);
    for _ in 0..6 {
        core.step(&mut bus);
    }
    assert_eq!(bus.access(12), Some(Transaction::Write { address: 0x1234, value: 0x5A }));
    assert!(core.internal_stat.last_write);
    assert_eq!(core.internal_stat.last_written, 0x1234);
    assert_eq!(core.internal_stat.last_value, 0x5A);
    assert_eq!(core.internal_stat.last_read, 0x8004);
}

#[test]
fn fetch_decodes_mode_and_operation() {
    let mut bus = bus_with(&[0xBD, 0x34, 0x12]);
    let mut core = boot(&mut bus);
    core.step(&mut bus);
    assert_eq!(core.internal_stat.opcode, 0xBD);
    assert_eq!(core.internal_stat.state, CpuStatesEnum::Mode(AddressingMode::AbsoluteX));
    core.step(&mut bus);
    core.step(&mut bus);
    core.step(&mut bus);
    assert_eq!(core.internal_stat.state, CpuStatesEnum::Op(Opcode::Lda));
    assert_eq!(core.internal_stat.address, 0x1234);
}

#[test]
fn lda_immediate_loads_and_sets_flags() {
    let mut bus = bus_with(&[0xA9, 0x80, 0xA9, 0x00]);
    let mut core = boot(&mut bus);
    core.step(&mut bus);
    core.step(&mut bus);
    assert_eq!(core.register.a, 0x80);
    assert!(core.register.n && !core.register.z);
    core.step(&mut bus);
    core.step(&mut bus);
    assert_eq!(core.register.a, 0x00);
    assert!(!core.register.n && core.register.z);
}

#[test]
fn documented_cycle_counts() {
    assert_eq!(cycles_of(&[0xEA], nothing), 2); // NOP
    assert_eq!(cycles_of(&[0xA9, 0x01], nothing), 2); // LDA #
    assert_eq!(cycles_of(&[0xA5, 0x10], nothing), 3); // LDA zp
    assert_eq!(cycles_of(&[0xB5, 0x10], nothing), 4); // LDA zp,X
    assert_eq!(cycles_of(&[0xAD, 0x00, 0x02], nothing), 4); // LDA abs
    assert_eq!(cycles_of(&[0xA1, 0x10], nothing), 6); // LDA (zp,X)
    assert_eq!(cycles_of(&[0xB1, 0x10], nothing), 5); // LDA (zp),Y
    assert_eq!(cycles_of(&[0x8D, 0x00, 0x02], nothing), 4); // STA abs
    assert_eq!(cycles_of(&[0x9D, 0x00, 0x02], nothing), 5); // STA abs,X
    assert_eq!(cycles_of(&[0x91, 0x10], nothing), 6); // STA (zp),Y
    assert_eq!(cycles_of(&[0xE6, 0x10], nothing), 5); // INC zp
    assert_eq!(cycles_of(&[0xEE, 0x00, 0x02], nothing), 6); // INC abs
    assert_eq!(cycles_of(&[0xFE, 0x00, 0x02], nothing), 7); // INC abs,X
    assert_eq!(cycles_of(&[0x0A], nothing), 2); // ASL A
    assert_eq!(cycles_of(&[0x48], nothing), 3); // PHA
    assert_eq!(cycles_of(&[0x68], nothing), 4); // PLA
    assert_eq!(cycles_of(&[0x08], nothing), 3); // PHP
    assert_eq!(cycles_of(&[0x28], nothing), 4); // PLP
    assert_eq!(cycles_of(&[0x4C, 0x10, 0x80], nothing), 3); // JMP abs
    assert_eq!(cycles_of(&[0x6C, 0x10, 0x02], nothing), 5); // JMP (ind)
    assert_eq!(cycles_of(&[0x20, 0x10, 0x80], nothing), 6); // JSR
    assert_eq!(cycles_of(&[0x60], nothing), 6); // RTS
    assert_eq!(cycles_of(&[0x40], nothing), 6); // RTI
    assert_eq!(cycles_of(&[0x00], nothing), 7); // BRK
    assert_eq!(cycles_of(&[0xC3, 0x10], nothing), 8); // DCP (zp,X)
    assert_eq!(cycles_of(&[0x04, 0x10], nothing), 3); // NOP zp
}

#[test]
fn page_cross_costs_a_read_one_cycle() {
    fn x_is_ff(core: &mut Core, _bus: &mut RecordingBus) {
        core.register.x = 0xFF;
        core.register.y = 0xFF;
    }
    assert_eq!(cycles_of(&[0xBD, 0x01, 0x02], nothing), 4); // LDA abs,X
    assert_eq!(cycles_of(&[0xBD, 0x01, 0x02], x_is_ff), 5);
    assert_eq!(cycles_of(&[0xB9, 0x01, 0x02], x_is_ff), 5); // LDA abs,Y
    assert_eq!(cycles_of(&[0x9D, 0x01, 0x02], x_is_ff), 5); // STA abs,X: always 5
    fn pointer(core: &mut Core, bus: &mut RecordingBus) {
        core.register.y = 0xFF;
        bus.poke(0x0010, 0x01);
        bus.poke(0x0011, 0x02);
    }
    assert_eq!(cycles_of(&[0xB1, 0x10], pointer), 6); // LDA (zp),Y
}

#[test]
fn branch_costs_by_outcome() {
    fn carry(core: &mut Core, _bus: &mut RecordingBus) {
        core.register.c = true;
    }
    assert_eq!(cycles_of(&[0xB0, 0x02], nothing), 2); // BCS not taken
    assert_eq!(cycles_of(&[0xB0, 0x02], carry), 3); // taken, same page
    assert_eq!(cycles_of(&[0xB0, 0x80], carry), 4); // taken, to 0x7F82
}

#[test]
fn branch_target_is_signed() {
    let mut bus = bus_with(&[0x90, 0xFE]); // BCC -2: a loop on itself
    let mut core = boot(&mut bus);
    for _ in 0..3 {
        core.step(&mut bus);
    }
    core.step(&mut bus);
    assert_eq!(core.internal_stat.opcode, 0x90);
    assert_eq!(core.register.pc, 0x8001);
}

#[test]
fn adc_sets_carry_and_overflow() {
    // CLC; LDA #$50; ADC #$50 -> $A0, V set, C clear; ADC #$70 -> $10, C set
    let mut bus = bus_with(&[0x18, 0xA9, 0x50, 0x69, 0x50, 0x69, 0x70]);
    let mut core = boot(&mut bus);
    for _ in 0..6 {
        core.step(&mut bus);
    }
    assert_eq!(core.register.a, 0xA0);
    assert!(core.register.v && !core.register.c && core.register.n);
    core.step(&mut bus);
    core.step(&mut bus);
    assert_eq!(core.register.a, 0x10);
    assert!(core.register.c && !core.register.v);
}

#[test]
fn sbc_borrows() {
    // SEC; LDA #$10; SBC #$20 -> $F0, C clear
    let mut bus = bus_with(&[0x38, 0xA9, 0x10, 0xE9, 0x20]);
    let mut core = boot(&mut bus);
    for _ in 0..6 {
        core.step(&mut bus);
    }
    assert_eq!(core.register.a, 0xF0);
    assert!(!core.register.c && core.register.n && !core.register.v);
}

#[test]
fn compare_sets_carry_when_not_below() {
    let mut bus = bus_with(&[0xA9, 0x40, 0xC9, 0x40, 0xC9, 0x41]);
    let mut core = boot(&mut bus);
    for _ in 0..4 {
        core.step(&mut bus);
    }
    assert!(core.register.c && core.register.z);
    core.step(&mut bus);
    core.step(&mut bus);
    assert!(!core.register.c && !core.register.z && core.register.n);
}

#[test]
fn bit_copies_bits_six_and_seven() {
    let mut bus = bus_with(&[0xA9, 0x01, 0x24, 0x10]);
    bus.poke(0x0010, 0xC0);
    let mut core = boot(&mut bus);
    for _ in 0..5 {
        core.step(&mut bus);
    }
    assert!(core.register.v && core.register.n && core.register.z);
}

#[test]
fn read_modify_write_writes_the_old_value_first() {
    let mut bus = bus_with(&[0xE6, 0x10]); // INC $10
    bus.poke(0x0010, 0x41);
    let mut core = boot(&mut bus);
    for _ in 0..5 {
        core.step(&mut bus);
    }
    assert_eq!(bus.access(9), Some(Transaction::Read { address: 0x0010, value: 0x41 }));
    assert_eq!(bus.access(10), Some(Transaction::Write { address: 0x0010, value: 0x41 }));
    assert_eq!(bus.access(11), Some(Transaction::Write { address: 0x0010, value: 0x42 }));
    assert_eq!(bus.peek(0x0010), 0x42);
}

#[test]
fn jsr_and_rts_use_the_stack() {
    // JSR $8005; NOP; NOP; RTS
    let mut bus = bus_with(&[0x20, 0x05, 0x80, 0xEA, 0xEA, 0x60]);
    let mut core = boot(&mut bus);
    for _ in 0..6 {
        core.step(&mut bus);
    }
    assert_eq!(core.register.pc, 0x8005);
    assert_eq!(core.register.sp, 0xFB);
    assert_eq!(bus.peek(0x01FD), 0x80);
    assert_eq!(bus.peek(0x01FC), 0x02);
    for _ in 0..6 {
        core.step(&mut bus);
    }
    assert_eq!(core.register.pc, 0x8003);
    assert_eq!(core.register.sp, 0xFD);
}

#[test]
fn jmp_indirect_wraps_inside_the_page() {
    let mut bus = bus_with(&[0x6C, 0xFF, 0x02]);
    bus.poke(0x02FF, 0x34);
    bus.poke(0x0200, 0x12);
    bus.poke(0x0300, 0x56);
    let mut core = boot(&mut bus);
    for _ in 0..6 {
        core.step(&mut bus);
    }
    assert_eq!(core.register.pc, 0x1235);
    assert_eq!(core.internal_stat.address, 0x1234);
}

#[test]
fn brk_pushes_and_takes_the_irq_vector() {
    let mut bus = bus_with(&[0x00, 0xEA]);
    bus.poke(0xFFFE, 0x00);
    bus.poke(0xFFFF, 0x90);
    let mut core = boot(&mut bus);
    for _ in 0..7 {
        core.step(&mut bus);
    }
    assert_eq!(core.register.pc, 0x9000);
    assert_eq!(bus.peek(0x01FD), 0x80);
    assert_eq!(bus.peek(0x01FC), 0x02);
    assert_eq!(bus.peek(0x01FB) & 0x30, 0x30);
    assert!(core.register.i);
}

#[test]
fn nmi_takes_seven_cycles_after_the_instruction() {
    let mut bus = bus_with(&[0xEA, 0xEA, 0xEA, 0xEA]);
    bus.poke(0xFFFA, 0x00);
    bus.poke(0xFFFB, 0xA0);
    let mut core = boot(&mut bus);
    core.interrupt.nmi = true;
    // The line is seen at the end of the fetch, the cycle before the last of
    // the first NOP, so the entry follows that NOP.
    assert_eq!(step_to_fetch(&mut core, &mut bus), 1);
    assert_eq!(core.register.pc, 0x8001);
    let taken = step_to_fetch(&mut core, &mut bus);
    assert_eq!(taken, 1 + 7 + 1);
    assert_eq!(core.internal_stat.opcode, 0x00);
    assert_eq!(core.register.pc, 0xA001);
    assert!(!core.interrupt.nmi);
    assert_eq!(bus.peek(0x01FB) & 0x10, 0x00);
}

#[test]
fn irq_waits_for_the_instruction_after_cli() {
    let mut bus = bus_with(&[0x58, 0xEA, 0xEA]);
    bus.poke(0xFFFE, 0x00);
    bus.poke(0xFFFF, 0x90);
    let mut core = boot(&mut bus);
    core.interrupt.irq_flag.external = true;
    assert!(core.register.i);
    assert_eq!(step_to_fetch(&mut core, &mut bus), 1); // CLI fetched
    assert_eq!(step_to_fetch(&mut core, &mut bus), 2); // NOP fetched: no interrupt yet
    assert_eq!(core.internal_stat.opcode, 0xEA);
    assert_eq!(step_to_fetch(&mut core, &mut bus), 2 + 7); // then the entry
    assert_eq!(core.register.pc, 0x9001);
}

#[test]
fn kil_reads_forever() {
    let mut bus = bus_with(&[0x02, 0xEA]);
    let mut core = boot(&mut bus);
    for _ in 0..1000 {
        core.step(&mut bus);
    }
    assert_eq!(core.internal_stat.state, CpuStatesEnum::Op(Opcode::Kil));
    assert_eq!(core.register.pc, 0x8001);
    assert_eq!(bus.count(), 1007);
    assert_eq!(bus.access(1006), Some(Transaction::Read { address: 0x8001, value: 0xEA }));
}

/// Runs `STA $4014` after `phas` pushes (three cycles each); answers
/// whether the write fell on an odd cycle, counted from power-on, and the
/// cycles that the copy took.
fn sprite_dma(phas: usize) -> (bool, usize) {
    let mut program = vec![0xA9, 0x03];
    program.extend(std::iter::repeat(0x48).take(phas));
    program.extend_from_slice(&[0x8D, 0x14, 0x40, 0xEA, 0xEA]);
    let mut bus = bus_with(&program);
    for i in 0..256u16 {
        bus.poke(0x0300 + i, i as u8);
    }
    let mut core = boot(&mut bus);
    loop {
        core.step(&mut bus);
        let last = bus.access(bus.count() - 1);
        if last == Some(Transaction::Write { address: 0x4014, value: 0x03 }) {
            break;
        }
        assert!(bus.count() < 100);
    }
    let written = bus.count();
    let odd = (written - 1) % 2 == 1;
    step_to_fetch(&mut core, &mut bus);
    // the copy wrote all 256 bytes, in order
    let mut writes = 0;
    for index in written..bus.count() {
        if let Some(Transaction::Write { address: 0x2004, value }) = bus.access(index) {
            assert_eq!(value as usize, writes);
            writes += 1;
        }
    }
    assert_eq!(writes, 256);
    // the last access is the fetch of the next opcode
    assert_eq!(bus.access(bus.count() - 1), Some(Transaction::Read { address: 0x8005 + phas as u16, value: 0xEA }));
    (odd, bus.count() - written - 1)
}

#[test]
fn sprite_dma_costs_513_or_514_cycles() {
    let (odd, cycles) = sprite_dma(0);
    assert_eq!(cycles, if odd { 514 } else { 513 });
    let (odd_after_push, cycles_after_push) = sprite_dma(1);
    assert_ne!(odd, odd_after_push);
    assert_eq!(cycles_after_push, if odd_after_push { 514 } else { 513 });
}

#[test]
fn sample_fetch_repeats_the_read_under_way() {
    let mut bus = bus_with(&[0xAD, 0x34, 0x12, 0xEA]);
    bus.poke(0x1234, 0x77);
    bus.poke(0xC000, 0x5A);
    let mut core = boot(&mut bus);
    for _ in 0..4 {
        core.step(&mut bus);
    }
    assert_eq!(bus.access(10), Some(Transaction::Read { address: 0x1234, value: 0x77 }));
    bus.request_sample(Some(0xC000));
    for _ in 0..4 {
        core.step(&mut bus);
    }
    assert_eq!(bus.access(11), Some(Transaction::Read { address: 0x1234, value: 0x77 }));
    assert_eq!(bus.access(12), Some(Transaction::Read { address: 0x1234, value: 0x77 }));
    assert_eq!(bus.access(13), Some(Transaction::Read { address: 0x1234, value: 0x77 }));
    assert_eq!(bus.access(14), Some(Transaction::Read { address: 0xC000, value: 0x5A }));
    assert_eq!(bus.sample_count(), 1);
    core.step(&mut bus);
    assert_eq!(bus.access(15), Some(Transaction::Read { address: 0x8003, value: 0xEA }));
}

#[test]
fn sample_fetch_after_a_write_costs_two_cycles() {
    let mut bus = bus_with(&[0x8D, 0x00, 0x02, 0xEA]);
    bus.poke(0xC000, 0x5A);
    let mut core = boot(&mut bus);
    for _ in 0..4 {
        core.step(&mut bus);
    }
    bus.request_sample(Some(0xC000));
    core.step(&mut bus);
    core.step(&mut bus);
    assert_eq!(bus.access(12), Some(Transaction::Read { address: 0xC000, value: 0x5A }));
    assert_eq!(bus.sample_count(), 1);
}

#[test]
fn absolute_mode_fetches_both_bytes() {
    let _mode = Absolute::new();
    let mut bus = bus_with(&[0x34, 0x12]);
    let mut core = boot(&mut bus);
    core.internal_stat.step = 1;
    assert_eq!(Absolute::exec(&mut core, &mut bus), CpuStepStateEnum::Continue);
    assert_eq!(core.internal_stat.address, 0x0034);
    core.internal_stat.step = 2;
    assert_eq!(Absolute::exec(&mut core, &mut bus), CpuStepStateEnum::Continue);
    assert_eq!(core.internal_stat.address, 0x1234);
    assert_eq!(core.register.pc, 0x8002);
    core.internal_stat.opcode = 0xAD;
    core.internal_stat.step = 3;
    assert_eq!(Absolute::exec(&mut core, &mut bus), CpuStepStateEnum::Exit);
    assert_eq!(core.internal_stat.state, CpuStatesEnum::Op(Opcode::Lda));
    assert_eq!(core.internal_stat.step, 0);
    assert_eq!(bus.count(), 9);
}

#[test]
fn indexed_indirect_mode_wraps_in_page_zero() {
    let _mode = IndexedIndirect::new();
    let mut bus = bus_with(&[0xFE]);
    bus.poke(0x00FF, 0x78);
    bus.poke(0x0000, 0x56);
    let mut core = boot(&mut bus);
    core.register.x = 1;
    for step in 1..=4 {
        core.internal_stat.step = step;
        assert_eq!(IndexedIndirect::exec(&mut core, &mut bus), CpuStepStateEnum::Continue);
    }
    assert_eq!(core.internal_stat.address, 0x5678);
    assert_eq!(core.register.pc, 0x8001);
    assert_eq!(bus.access(7), Some(Transaction::Read { address: 0x8000, value: 0xFE }));
    assert_eq!(bus.access(8), Some(Transaction::Read { address: 0x8000, value: 0xFE }));
    assert_eq!(bus.access(9), Some(Transaction::Read { address: 0x00FF, value: 0x78 }));
    assert_eq!(bus.access(10), Some(Transaction::Read { address: 0x0000, value: 0x56 }));
}

#[test]
fn relative_mode_finds_the_target() {
    let _mode = Relative::new();
    let mut bus = bus_with(&[0x80, 0x7F]);
    let mut core = boot(&mut bus);
    core.internal_stat.step = 1;
    assert_eq!(Relative::exec(&mut core, &mut bus), CpuStepStateEnum::Continue);
    assert_eq!(core.internal_stat.address, 0x8001 - 0x80);
    core.internal_stat.step = 1;
    assert_eq!(Relative::exec(&mut core, &mut bus), CpuStepStateEnum::Continue);
    assert_eq!(core.internal_stat.address, 0x8002 + 0x7F);
}

#[test]
fn bit_jmp_jsr_rts_sequences() {
    let (_bit, _jmp, _jsr, _rts) = (Bit::new(), Jmp::new(), Jsr::new(), Rts::new());
    let mut bus = bus_with(&[0xEA]);
    bus.poke(0x0040, 0x40);
    let mut core = boot(&mut bus);
    core.register.a = 0x0F;
    core.internal_stat.address = 0x0040;
    core.internal_stat.step = 1;
    assert_eq!(Bit::exec(&mut core, &mut bus), CpuStepStateEnum::Continue);
    assert!(core.register.v && core.register.z && !core.register.n);
    core.internal_stat.step = 2;
    assert_eq!(Bit::exec(&mut core, &mut bus), CpuStepStateEnum::Exit);

    core.internal_stat.address = 0x9000;
    assert_eq!(Jmp::exec(&mut core, &mut bus), CpuStepStateEnum::Exit);
    assert_eq!(core.register.pc, 0x9000);
    assert_eq!(core.internal_stat.state, CpuStatesEnum::FetchOpCode);

    core.register.pc = 0x8003;
    core.internal_stat.address = 0xA000;
    for step in 1..=3 {
        core.internal_stat.step = step;
        assert_eq!(Jsr::exec(&mut core, &mut bus), CpuStepStateEnum::Continue);
    }
    assert_eq!(core.register.pc, 0xA000);
    assert_eq!(bus.peek(0x01FD), 0x80);
    assert_eq!(bus.peek(0x01FC), 0x02);
    for step in 1..=5 {
        core.internal_stat.step = step;
        assert_eq!(Rts::exec(&mut core, &mut bus), CpuStepStateEnum::Continue);
    }
    assert_eq!(core.register.pc, 0x8003);
    core.internal_stat.step = 6;
    assert_eq!(Rts::exec(&mut core, &mut bus), CpuStepStateEnum::Exit);
}

/// One line of a CPU log: the state in which an instruction begins, and
/// the cycle, counted from the end of the reset sequence, of its fetch.
fn log_line(core: &Core, cycle: usize) -> String {
    format!(
        "{:04X} {:02X} A:{:02X} X:{:02X} Y:{:02X} P:{:02X} SP:{:02X} CYC:{}",
        core.register.pc.wrapping_sub(1),
        core.internal_stat.opcode,
        core.register.a,
        core.register.x,
        core.register.y,
        core.register.get_p(),
        core.register.sp,
        cycle
    )
}

#[test]
fn cpu_log_matches_golden_trace() {
    let mut bus = bus_with(&[
        0xA2, 0x02, //       8000 LDX #$02
        0xCA, //             8002 DEX
        0xD0, 0xFD, //       8003 BNE $8002
        0xA9, 0xFF, //       8005 LDA #$FF
        0x48, //             8007 PHA
        0xA9, 0x00, //       8008 LDA #$00
        0x68, //             800A PLA
        0x9D, 0x00, 0x02, // 800B STA $0200,X
        0xEE, 0x00, 0x02, // 800E INC $0200
        0x20, 0x17, 0x80, // 8011 JSR $8017
        0x4C, 0x14, 0x80, // 8014 JMP $8014
        0x38, //             8017 SEC
        0x60, //             8018 RTS
    ]);
    let mut core = boot(&mut bus);
    let mut log = Vec::new();
    let mut cycle = 0;
    while log.len() < 15 {
        cycle += step_to_fetch(&mut core, &mut bus);
        log.push(log_line(&core, cycle));
    }
    let golden = [
        "8000 A2 A:00 X:00 Y:00 P:24 SP:FD CYC:1",
        "8002 CA A:00 X:02 Y:00 P:24 SP:FD CYC:3",
        "8003 D0 A:00 X:01 Y:00 P:24 SP:FD CYC:5",
        "8002 CA A:00 X:01 Y:00 P:24 SP:FD CYC:8",
        "8003 D0 A:00 X:00 Y:00 P:26 SP:FD CYC:10",
        "8005 A9 A:00 X:00 Y:00 P:26 SP:FD CYC:12",
        "8007 48 A:FF X:00 Y:00 P:A4 SP:FD CYC:14",
        "8008 A9 A:FF X:00 Y:00 P:A4 SP:FC CYC:17",
        "800A 68 A:00 X:00 Y:00 P:26 SP:FC CYC:19",
        "800B 9D A:FF X:00 Y:00 P:A4 SP:FD CYC:23",
        "800E EE A:FF X:00 Y:00 P:A4 SP:FD CYC:28",
        "8011 20 A:FF X:00 Y:00 P:26 SP:FD CYC:34",
        "8017 38 A:FF X:00 Y:00 P:26 SP:FB CYC:40",
        "8018 60 A:FF X:00 Y:00 P:27 SP:FB CYC:42",
        "8014 4C A:FF X:00 Y:00 P:27 SP:FD CYC:48",
    ];
    assert_eq!(log, golden);
    assert_eq!(bus.peek(0x0200), 0x00);
}

#[test]
fn nmi_takes_over_a_software_interrupt_between_the_pushes() {
    let mut bus = bus_with(&[0x00, 0xEA]);
    bus.poke(0xFFFA, 0x00);
    bus.poke(0xFFFB, 0xA0);
    bus.poke(0xFFFE, 0x00);
    bus.poke(0xFFFF, 0x90);
    let mut core = boot(&mut bus);
    // fetch, operand, high byte of the program counter
    for _ in 0..3 {
        core.step(&mut bus);
    }
    core.interrupt.nmi = true;
    for _ in 0..4 {
        core.step(&mut bus);
    }
    assert_eq!(core.register.pc, 0xA000);
    // the status word was pushed with the break flag set all the same
    assert_eq!(bus.peek(0x01FB) & 0x10, 0x10);
    // and the line was acknowledged with the vector
    assert!(!core.interrupt.nmi);
}

#[test]
fn nmi_wins_over_irq() {
    let mut bus = bus_with(&[0x58, 0xEA, 0xEA, 0xEA]);
    bus.poke(0xFFFA, 0x00);
    bus.poke(0xFFFB, 0xA0);
    bus.poke(0xFFFE, 0x00);
    bus.poke(0xFFFF, 0x90);
    let mut core = boot(&mut bus);
    assert_eq!(step_to_fetch(&mut core, &mut bus), 1); // CLI
    assert_eq!(step_to_fetch(&mut core, &mut bus), 2); // NOP
    core.interrupt.irq_flag.external = true;
    core.interrupt.nmi = true;
    // the lines rose after the poll of the fetch, so this instruction still
    // gives way to the next
    assert_eq!(step_to_fetch(&mut core, &mut bus), 2);
    let taken = step_to_fetch(&mut core, &mut bus);
    assert_eq!(taken, 1 + 7 + 1);
    assert_eq!(core.register.pc, 0xA001);
    // the maskable line still waits, and interrupts are disabled now
    assert!(core.interrupt.irq_flag.external);
    assert!(core.register.i);
}

#[test]
fn masked_irq_sources_do_not_interrupt() {
    let mut bus = bus_with(&[0x58, 0xEA, 0xEA, 0xEA, 0xEA]);
    bus.poke(0xFFFE, 0x00);
    bus.poke(0xFFFF, 0x90);
    let mut core = boot(&mut bus);
    core.interrupt.irq_mask.external = false;
    core.interrupt.irq_flag.external = true;
    for _ in 0..4 {
        assert!(step_to_fetch(&mut core, &mut bus) <= 2);
    }
    assert_eq!(core.register.pc, 0x8004);
    // with the interrupt flag set, an unmasked source does not either
    let mut bus = bus_with(&[0xEA, 0xEA, 0xEA, 0xEA]);
    let mut core = boot(&mut bus);
    assert!(core.register.i);
    core.interrupt.irq_flag.dmc = true;
    for _ in 0..4 {
        assert!(step_to_fetch(&mut core, &mut bus) <= 2);
    }
    assert_eq!(core.register.pc, 0x8004);
}
