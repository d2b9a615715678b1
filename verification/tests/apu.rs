use nerust_core::apu::{Core, SampleBuffer};
use nerust_core::apu::frame_counter::{FrameCounter, FrameType};
use nerust_core::apu::length_counter::{length_table, LengthCounterDao};
use nerust_core::apu::MixerInput;
use nerust_core::apu::noise::Noise;
use nerust_core::apu::pulse::Pulse;
use nerust_core::cpu::interrupt::{Interrupt, IrqSource};

/// A pulse channel that sounds: enabled, loaded, constant volume `volume`,
/// duty mode 2 (high at positions 1 to 4), period `period`.
fn sounding(first: bool, period: u16, volume: u8) -> Pulse {
    let mut pulse = Pulse::new(first);
    pulse.set_enabled(true);
    pulse.write_control(0x80 | 0x10 | volume);
    pulse.write_timer_low((period & 0xFF) as u8);
    pulse.write_timer_high(((period >> 8) & 7) as u8 | 0x08);
    pulse.step_length_counter();
    pulse.duty_value = 1;
    pulse
}

#[test]
fn pulse_power_on() {
    let pulse = Pulse::new(true);
    assert!(pulse.is_first_channel);
    assert_eq!(pulse.period, 0);
    assert_eq!(pulse.output(), 0);
}

#[test]
fn pulse_sounds_at_its_volume() {
    let pulse = sounding(true, 0x100, 9);
    assert_eq!(pulse.period, 0x100);
    assert_eq!(pulse.timer.period, 0x201);
    assert_eq!(pulse.length_counter.value, 254);
    assert_eq!(pulse.sweep_target_period, 0x200);
    assert_eq!(pulse.output(), 9);
}

#[test]
fn pulse_is_silent_below_period_8() {
    let pulse = sounding(true, 7, 9);
    assert_eq!(pulse.output(), 0);
    assert_eq!(sounding(true, 8, 9).output(), 9);
}

#[test]
fn pulse_is_silent_when_the_target_is_out_of_range() {
    let mut pulse = sounding(true, 0x300, 9);
    pulse.write_sweep(0x01); // shift 1: target 0x300 + 0x180 = 0x480
    assert_eq!(pulse.sweep_target_period, 0x480);
    assert_eq!(pulse.output(), 9);
    pulse.set_period(0x600); // target 0x600 + 0x300 = 0x900
    pulse.duty_value = 1;
    assert_eq!(pulse.sweep_target_period, 0x900);
    assert_eq!(pulse.output(), 0);
    // the rule holds whether the unit negates or not: the first channel's
    // target wraps below zero when it shifts by nothing
    let mut negating = sounding(true, 0x100, 9);
    negating.write_sweep(0x08);
    assert_eq!(negating.sweep_target_period, 0xFFFF);
    assert_eq!(negating.output(), 0);
    let mut second = sounding(false, 0x100, 9);
    second.write_sweep(0x08);
    assert_eq!(second.sweep_target_period, 0);
    assert_eq!(second.output(), 9);
}

#[test]
fn pulse_is_silent_when_the_length_counter_is_zero() {
    let mut pulse = sounding(true, 0x100, 9);
    pulse.set_enabled(false);
    assert_eq!(pulse.length_counter.value, 0);
    assert_eq!(pulse.output(), 0);
}

#[test]
fn pulse_is_silent_when_the_waveform_is_low() {
    let mut pulse = sounding(true, 0x100, 9);
    pulse.duty_value = 0;
    assert_eq!(pulse.output(), 0);
    pulse.duty_value = 4;
    assert_eq!(pulse.output(), 9);
    pulse.duty_value = 5;
    assert_eq!(pulse.output(), 0);
}

#[test]
fn pulse_duty_modes() {
    let expected: [[bool; 8]; 4] = [
        [false, true, false, false, false, false, false, false],
        [false, true, true, false, false, false, false, false],
        [false, true, true, true, true, false, false, false],
        [true, false, false, true, true, true, true, true],
    ];
    for mode in 0..4u8 {
        for position in 0..8u8 {
            let mut pulse = sounding(true, 0x100, 5);
            pulse.write_control((mode << 6) | 0x10 | 5);
            pulse.duty_value = position;
            let high = expected[mode as usize][position as usize];
            assert_eq!(pulse.output(), if high { 5 } else { 0 });
        }
    }
}

#[test]
fn first_pulse_subtracts_one_more_when_negating() {
    let mut first = sounding(true, 0x100, 9);
    let mut second = sounding(false, 0x100, 9);
    first.write_sweep(0x0A); // negate, shift 2
    second.write_sweep(0x0A);
    assert_eq!(first.sweep_target_period, 0x100 - 0x40 - 1);
    assert_eq!(second.sweep_target_period, 0x100 - 0x40);
}

#[test]
fn sweep_bends_the_period() {
    let mut pulse = sounding(false, 0x100, 9);
    pulse.write_sweep(0x81); // enabled, period 1, shift 1: target 0x180
    pulse.step_sweep(); // reload
    assert_eq!(pulse.period, 0x100);
    pulse.step_sweep(); // divider reaches zero
    assert_eq!(pulse.period, 0x180);
    assert_eq!(pulse.timer.period, 0x301);
    assert_eq!(pulse.sweep_target_period, 0x180 + 0xC0);
}

#[test]
fn pulse_timer_moves_the_sequencer_back() {
    let mut pulse = sounding(true, 8, 9);
    pulse.timer.value = 0;
    pulse.duty_value = 0;
    pulse.step_timer();
    assert_eq!(pulse.duty_value, 7);
    assert_eq!(pulse.timer.value, 17);
    pulse.step_timer();
    assert_eq!(pulse.duty_value, 7);
    assert_eq!(pulse.timer.value, 16);
}

#[test]
fn pulse_reset_clears_all_but_the_channel() {
    let mut pulse = sounding(true, 0x123, 9);
    pulse.reset();
    assert!(pulse.is_first_channel);
    assert_eq!(pulse.period, 0);
    assert_eq!(pulse.length_counter.value, 0);
    assert_eq!(pulse.sweep_target_period, 0);
}

#[test]
fn length_counter_counts_down_to_zero_and_stays() {
    let mut counter = LengthCounterDao::new();
    counter.set_enabled(true);
    counter.set_load(3); // 2
    counter.step_length_counter();
    assert_eq!(counter.value, 2);
    counter.step_length();
    counter.step_length();
    assert_eq!(counter.value, 0);
    counter.step_length();
    assert_eq!(counter.value, 0);
    assert!(!counter.get_status());
}

#[test]
fn length_counter_halts() {
    let mut counter = LengthCounterDao::new();
    counter.set_enabled(true);
    counter.set_load(0);
    counter.set_halt(true);
    counter.step_length_counter();
    assert_eq!(counter.value, 10);
    counter.step_length();
    assert_eq!(counter.value, 10);
}

#[test]
fn length_table_entries() {
    assert_eq!(length_table(0), 10);
    assert_eq!(length_table(1), 254);
    assert_eq!(length_table(31), 30);
    assert_eq!(length_table(16), 12);
}

#[test]
fn frame_counter_four_step_ticks() {
    let mut counter = FrameCounter::new();
    let mut interrupt = Interrupt::new();
    let mut ticks = Vec::new();
    for cycle in 1..=29830u32 {
        let tick = counter.step_frame_counter(&mut interrupt);
        if tick != FrameType::Idle {
            ticks.push((cycle, tick));
        }
    }
    assert_eq!(
        ticks,
        vec![
            (7457, FrameType::Quarter),
            (14913, FrameType::Half),
            (22371, FrameType::Quarter),
            (29829, FrameType::Half),
        ]
    );
    assert_eq!(counter.cycle, 0);
    assert!(interrupt.get_irq(IrqSource::FrameCounter));
}

#[test]
fn frame_counter_interrupt_rises_at_29828() {
    let mut counter = FrameCounter::new();
    let mut interrupt = Interrupt::new();
    for _ in 1..=29827u32 {
        counter.step_frame_counter(&mut interrupt);
    }
    assert!(!interrupt.get_irq(IrqSource::FrameCounter));
    counter.step_frame_counter(&mut interrupt);
    assert!(interrupt.get_irq(IrqSource::FrameCounter));
}

#[test]
fn frame_counter_five_step_ticks_and_never_interrupts() {
    let mut counter = FrameCounter::new();
    let mut interrupt = Interrupt::new();
    counter.write_frame_counter(0x80, &mut interrupt);
    let mut ticks = Vec::new();
    for cycle in 1..=37282u32 {
        let tick = counter.step_frame_counter(&mut interrupt);
        if tick != FrameType::Idle {
            ticks.push((cycle, tick));
        }
    }
    assert_eq!(
        ticks,
        vec![
            (1, FrameType::Half),
            (7457, FrameType::Quarter),
            (14913, FrameType::Half),
            (22371, FrameType::Quarter),
            (37281, FrameType::Half),
        ]
    );
    assert_eq!(counter.cycle, 0);
    assert!(!interrupt.get_irq(IrqSource::FrameCounter));
}

#[test]
fn frame_counter_inhibit_releases_the_line() {
    let mut counter = FrameCounter::new();
    let mut interrupt = Interrupt::new();
    interrupt.set_irq(IrqSource::FrameCounter);
    counter.write_frame_counter(0x40, &mut interrupt);
    assert!(!interrupt.get_irq(IrqSource::FrameCounter));
    for _ in 0..29830u32 {
        counter.step_frame_counter(&mut interrupt);
    }
    assert!(!interrupt.get_irq(IrqSource::FrameCounter));
}

#[test]
fn status_reads_frame_interrupt_once() {
    let mut interrupt = Interrupt::new();
    let mut apu = Core::new(&mut interrupt);
    for _ in 0..29830u32 {
        apu.step_frame(&mut interrupt);
    }
    assert_eq!(apu.read_register(0x4015, &mut interrupt).data, 0x40);
    assert_eq!(apu.read_register(0x4015, &mut interrupt).data, 0x00);
}

#[test]
fn status_shows_the_channels() {
    let mut interrupt = Interrupt::new();
    let mut apu = Core::new(&mut interrupt);
    apu.write_register(0x4015, 0x0F, &mut interrupt);
    apu.write_register(0x4003, 0x08, &mut interrupt);
    apu.write_register(0x400F, 0x08, &mut interrupt);
    apu.step_frame(&mut interrupt);
    let status = apu.read_register(0x4015, &mut interrupt);
    assert_eq!(status.data, 0x01 | 0x08);
    assert_eq!(status.mask, 0xDF);
    let other = apu.read_register(0x4000, &mut interrupt);
    assert_eq!((other.data, other.mask), (0, 0));
}

#[test]
fn mixer_indices_add_the_levels() {
    let mut interrupt = Interrupt::new();
    let mut apu = Core::new(&mut interrupt);
    apu.pulse1 = sounding(true, 0x100, 9);
    apu.pulse2 = sounding(false, 0x100, 4);
    apu.write_register(0x4011, 0x55, &mut interrupt);
    let sample = apu.output();
    assert_eq!(sample.pulse, 13);
    // the triangle stands at position 0, which is level 15
    assert_eq!(sample.tnd, 3 * 15 + 0x55);
}

#[test]
fn every_cycle_sends_one_sample() {
    let mut interrupt = Interrupt::new();
    let mut apu = Core::new(&mut interrupt);
    let mut mixer = SampleBuffer::new();
    for _ in 0..1000 {
        apu.step(&mut interrupt, &mut mixer);
    }
    assert_eq!(mixer.data.len(), 1000);
    mixer.push(apu.output());
    assert_eq!(mixer.data.len(), 1001);
}

#[test]
fn dmc_asks_for_bytes_and_interrupts_at_the_end() {
    let mut interrupt = Interrupt::new();
    let mut apu = Core::new(&mut interrupt);
    apu.write_register(0x4010, 0x80, &mut interrupt); // interrupt on, no loop
    apu.write_register(0x4012, 0xFF, &mut interrupt); // 0xC000 + 0xFF * 64
    apu.write_register(0x4013, 0x00, &mut interrupt); // one byte
    assert_eq!(apu.dmc_fill_address(), None);
    apu.write_register(0x4015, 0x10, &mut interrupt);
    assert_eq!(apu.dmc_fill_address(), Some(0xFFC0));
    apu.dmc_fill(0xAA, &mut interrupt);
    assert_eq!(apu.dmc_fill_address(), None);
    assert!(interrupt.get_irq(IrqSource::Dmc));
    assert_eq!(apu.read_register(0x4015, &mut interrupt).data & 0x80, 0x80);
}

#[test]
fn dmc_sample_address_wraps_to_8000() {
    let mut interrupt = Interrupt::new();
    let mut apu = Core::new(&mut interrupt);
    apu.write_register(0x4013, 0x01, &mut interrupt); // 17 bytes
    apu.write_register(0x4015, 0x10, &mut interrupt);
    apu.dmc.current_address = 0xFFFF;
    apu.dmc_fill(0x00, &mut interrupt);
    assert_eq!(apu.dmc.current_address, 0x8000);
    assert_eq!(apu.dmc.bytes_remaining, 16);
}

#[test]
fn dmc_level_follows_the_bits() {
    let mut interrupt = Interrupt::new();
    let mut apu = Core::new(&mut interrupt);
    apu.write_register(0x4011, 0x40, &mut interrupt);
    apu.dmc.buffer = Some(0b0000_0101);
    apu.dmc.bits_remaining = 1;
    apu.dmc.clock(); // takes the buffer
    assert!(!apu.dmc.silence);
    apu.dmc.clock(); // bit 1: up
    assert_eq!(apu.dmc.level, 0x42);
    apu.dmc.clock(); // bit 0: down
    assert_eq!(apu.dmc.level, 0x40);
    apu.dmc.clock(); // bit 1: up
    assert_eq!(apu.dmc.level, 0x42);
}

#[test]
fn noise_register_starts_at_one_and_shifts() {
    let mut noise = Noise::new();
    assert_eq!(noise.shift_register, 1);
    assert_eq!(noise.timer.period, 3);
    noise.step_timer();
    // bit 0 (1) xor bit 1 (0) enters at bit 14
    assert_eq!(noise.shift_register, 0x4000);
    assert_eq!(noise.timer.value, 3);
    noise.step_timer();
    assert_eq!(noise.shift_register, 0x4000);
    noise.write_period(0x81);
    assert_eq!(noise.timer.period, 7);
    noise.shift_register = 0x0041;
    noise.timer.value = 0;
    noise.step_timer();
    // short mode: bit 0 (1) xor bit 6 (1) is 0
    assert_eq!(noise.shift_register, 0x0020);
}

#[test]
fn triangle_moves_only_with_both_counters() {
    let mut interrupt = Interrupt::new();
    let mut apu = Core::new(&mut interrupt);
    apu.write_register(0x4015, 0x04, &mut interrupt);
    apu.write_register(0x4008, 0x7F, &mut interrupt);
    apu.write_register(0x400A, 0x00, &mut interrupt);
    apu.write_register(0x400B, 0x08, &mut interrupt);
    apu.triangle.step_timer();
    assert_eq!(apu.triangle.position, 0); // linear counter still zero
    apu.triangle.step_counter();
    assert_eq!(apu.triangle.counter, 0x7F);
    apu.triangle.step_timer();
    assert_eq!(apu.triangle.position, 1);
    assert_eq!(apu.triangle.output(), 14);
}
