use nerust_core::cartridge::nrom::Nrom;
use nerust_core::cartridge::Cartridge;
use nerust_core::cartridge::Mirroring;
use nerust_core::cpu::interrupt::Interrupt;
use nerust_core::ppu::scroll::Scroll;
use nerust_core::ppu::Ppu;
use nerust_core::screen::buffer::ScreenBuffer;
use nerust_core::screen::LogicalSize;

fn cartridge(mirroring: Mirroring) -> Nrom {
    Nrom::new(vec![0; 0x8000], vec![0; 0x2000], true, mirroring)
}

fn screen() -> ScreenBuffer {
    ScreenBuffer::new(LogicalSize { width: 256, height: 240 })
}

/// Runs dots until the picture unit stands at `scanline` and `dot`.
fn run_to(
    ppu: &mut Ppu,
    cartridge: &mut Nrom,
    interrupt: &mut Interrupt,
    screen: &mut ScreenBuffer,
    scanline: i16,
    dot: u16,
) {
    let mut dots = 0;
    while !(ppu.state.scanline == scanline && ppu.state.dot == dot) {
        ppu.step(cartridge, interrupt, screen);
        dots += 1;
        assert!(dots < 200_000);
    }
}

#[test]
fn palette_mirrors_alias_both_ways() {
    let mut ppu = Ppu::new();
    for (k, entry) in [0x00u16, 0x04, 0x08, 0x0C].iter().enumerate() {
        let value = 0x21 + k as u8;
        ppu.write_palette(0x3F10 + entry, value);
        assert_eq!(ppu.read_palette(0x3F00 + entry), value);
        ppu.write_palette(0x3F00 + entry, value + 8);
        assert_eq!(ppu.read_palette(0x3F10 + entry), value + 8);
    }
    // the other entries are their own
    ppu.write_palette(0x3F11, 0x15);
    ppu.write_palette(0x3F01, 0x16);
    assert_eq!(ppu.read_palette(0x3F11), 0x15);
    assert_eq!(ppu.read_palette(0x3F01), 0x16);
    // an entry keeps six bits
    ppu.write_palette(0x3F02, 0xFF);
    assert_eq!(ppu.read_palette(0x3F02), 0x3F);
    // and the palette repeats every 32 bytes
    assert_eq!(ppu.read_palette(0x3F22), 0x3F);
}

#[test]
fn nametables_follow_the_cartridge() {
    let mut ppu = Ppu::new();
    let mut horizontal = cartridge(Mirroring::Horizontal);
    ppu.write_vram(0x2000, 0x11, &mut horizontal);
    ppu.write_vram(0x2800, 0x22, &mut horizontal);
    assert_eq!(ppu.read_vram(0x2400, &mut horizontal), 0x11);
    assert_eq!(ppu.read_vram(0x2C00, &mut horizontal), 0x22);
    let mut vertical = cartridge(Mirroring::Vertical);
    assert_eq!(ppu.read_vram(0x2800, &mut vertical), 0x11);
    assert_eq!(ppu.read_vram(0x2400, &mut vertical), 0x22);
    // 0x3000 to 0x3EFF show the nametables again
    assert_eq!(ppu.read_vram(0x3000, &mut horizontal), 0x11);
}

#[test]
fn pattern_memory_is_the_cartridges() {
    let mut ppu = Ppu::new();
    let mut cartridge = cartridge(Mirroring::Horizontal);
    ppu.write_vram(0x1234, 0x77, &mut cartridge);
    assert_eq!(ppu.read_vram(0x1234, &mut cartridge), 0x77);
    assert_eq!(ppu.read_vram(0x5234, &mut cartridge), 0x77);
}

#[test]
fn address_register_takes_two_writes() {
    let mut ppu = Ppu::new();
    let mut cartridge = cartridge(Mirroring::Horizontal);
    let mut interrupt = Interrupt::new();
    ppu.write_register(0x2006, 0x21, &mut cartridge, &mut interrupt);
    assert!(ppu.state.scroll.w);
    ppu.write_register(0x2006, 0x08, &mut cartridge, &mut interrupt);
    assert!(!ppu.state.scroll.w);
    assert_eq!(ppu.state.scroll.v, 0x2108);
    ppu.write_register(0x2007, 0x5A, &mut cartridge, &mut interrupt);
    assert_eq!(ppu.state.scroll.v, 0x2109);
    assert_eq!(ppu.read_vram(0x2108, &mut cartridge), 0x5A);
}

#[test]
fn data_register_steps_by_32_on_request() {
    let mut ppu = Ppu::new();
    let mut cartridge = cartridge(Mirroring::Horizontal);
    let mut interrupt = Interrupt::new();
    ppu.write_register(0x2000, 0x04, &mut cartridge, &mut interrupt);
    ppu.write_register(0x2006, 0x20, &mut cartridge, &mut interrupt);
    ppu.write_register(0x2006, 0x00, &mut cartridge, &mut interrupt);
    ppu.write_register(0x2007, 0x01, &mut cartridge, &mut interrupt);
    assert_eq!(ppu.state.scroll.v, 0x2020);
}

#[test]
fn data_reads_are_one_behind_except_for_the_palette() {
    let mut ppu = Ppu::new();
    let mut cartridge = cartridge(Mirroring::Horizontal);
    let mut interrupt = Interrupt::new();
    ppu.write_vram(0x2000, 0xAB, &mut cartridge);
    ppu.write_vram(0x2001, 0xCD, &mut cartridge);
    ppu.write_palette(0x3F00, 0x2A);
    ppu.write_register(0x2006, 0x20, &mut cartridge, &mut interrupt);
    ppu.write_register(0x2006, 0x00, &mut cartridge, &mut interrupt);
    ppu.state.read_buffer = 0x99;
    assert_eq!(ppu.read_register(0x2007, &mut cartridge, &mut interrupt), 0x99);
    assert_eq!(ppu.read_register(0x2007, &mut cartridge, &mut interrupt), 0xAB);
    assert_eq!(ppu.read_register(0x2007, &mut cartridge, &mut interrupt), 0xCD);
    ppu.write_register(0x2006, 0x3F, &mut cartridge, &mut interrupt);
    ppu.write_register(0x2006, 0x00, &mut cartridge, &mut interrupt);
    assert_eq!(ppu.read_register(0x2007, &mut cartridge, &mut interrupt) & 0x3F, 0x2A);
}

#[test]
fn scroll_register_takes_two_writes() {
    let mut scroll = Scroll::new();
    scroll.write_scroll(0x7D); // coarse X 15, fine X 5
    assert_eq!(scroll.t & 0x1F, 15);
    assert_eq!(scroll.x, 5);
    assert!(scroll.w);
    scroll.write_scroll(0x5E); // coarse Y 11, fine Y 6
    assert_eq!((scroll.t >> 5) & 0x1F, 11);
    assert_eq!((scroll.t >> 12) & 7, 6);
    assert!(!scroll.w);
}

#[test]
fn coarse_y_wraps_from_29() {
    let mut scroll = Scroll::new();
    scroll.v = 0x7000 | (29 << 5);
    scroll.increment_y();
    assert_eq!(scroll.v, 0x0800);
    scroll.v = 0x7000 | (31 << 5);
    scroll.increment_y();
    assert_eq!(scroll.v, 0x0000);
    scroll.v = 0x2000 | (5 << 5);
    scroll.increment_y();
    assert_eq!(scroll.v, 0x3000 | (5 << 5));
}

#[test]
fn coarse_x_wraps_into_the_other_nametable() {
    let mut scroll = Scroll::new();
    scroll.v = 31;
    scroll.increment_x();
    assert_eq!(scroll.v, 0x0400);
    scroll.increment_x();
    assert_eq!(scroll.v, 0x0401);
}

#[test]
fn oam_data_writes_move_the_address() {
    let mut ppu = Ppu::new();
    let mut cartridge = cartridge(Mirroring::Horizontal);
    let mut interrupt = Interrupt::new();
    ppu.write_register(0x2003, 0xFE, &mut cartridge, &mut interrupt);
    ppu.write_register(0x2004, 0x11, &mut cartridge, &mut interrupt);
    ppu.write_register(0x2004, 0x22, &mut cartridge, &mut interrupt);
    ppu.write_register(0x2004, 0x33, &mut cartridge, &mut interrupt);
    assert_eq!(ppu.oam[0xFE], 0x11);
    assert_eq!(ppu.oam[0xFF], 0x22);
    assert_eq!(ppu.oam[0x00], 0x33);
    assert_eq!(ppu.state.oam_addr, 1);
    ppu.write_register(0x2003, 0xFF, &mut cartridge, &mut interrupt);
    assert_eq!(ppu.read_register(0x2004, &mut cartridge, &mut interrupt), 0x22);
}

#[test]
fn write_only_registers_read_as_open_bus() {
    let mut ppu = Ppu::new();
    let mut cartridge = cartridge(Mirroring::Horizontal);
    let mut interrupt = Interrupt::new();
    ppu.write_register(0x2001, 0xA5, &mut cartridge, &mut interrupt);
    assert_eq!(ppu.read_register(0x2000, &mut cartridge, &mut interrupt), 0xA5);
    assert_eq!(ppu.read_register(0x2005, &mut cartridge, &mut interrupt), 0xA5);
    // registers repeat every 8 addresses
    assert_eq!(ppu.read_register(0x3FF9, &mut cartridge, &mut interrupt), 0xA5);
}

#[test]
fn vertical_blanking_begins_at_line_241_dot_1() {
    let mut ppu = Ppu::new();
    let mut cartridge = cartridge(Mirroring::Horizontal);
    let mut interrupt = Interrupt::new();
    let mut screen = screen();
    ppu.write_register(0x2000, 0x80, &mut cartridge, &mut interrupt);
    run_to(&mut ppu, &mut cartridge, &mut interrupt, &mut screen, 241, 1);
    assert!(!ppu.state.vbl);
    assert!(!interrupt.nmi);
    ppu.step(&mut cartridge, &mut interrupt, &mut screen);
    assert!(ppu.state.vbl);
    assert!(interrupt.nmi);
    run_to(&mut ppu, &mut cartridge, &mut interrupt, &mut screen, -1, 1);
    assert!(ppu.state.vbl);
    ppu.step(&mut cartridge, &mut interrupt, &mut screen);
    assert!(!ppu.state.vbl);
}

#[test]
fn status_read_clears_blanking_and_the_toggle() {
    let mut ppu = Ppu::new();
    let mut cartridge = cartridge(Mirroring::Horizontal);
    let mut interrupt = Interrupt::new();
    let mut screen = screen();
    run_to(&mut ppu, &mut cartridge, &mut interrupt, &mut screen, 245, 0);
    ppu.write_register(0x2006, 0x21, &mut cartridge, &mut interrupt);
    assert!(ppu.state.vbl && ppu.state.scroll.w);
    assert_eq!(ppu.read_register(0x2002, &mut cartridge, &mut interrupt) & 0xE0, 0x80);
    assert!(!ppu.state.vbl && !ppu.state.scroll.w);
    assert_eq!(ppu.read_register(0x2002, &mut cartridge, &mut interrupt) & 0xE0, 0x00);
}

#[test]
fn status_read_on_the_dot_before_blanking_suppresses_it() {
    let mut ppu = Ppu::new();
    let mut cartridge = cartridge(Mirroring::Horizontal);
    let mut interrupt = Interrupt::new();
    let mut screen = screen();
    ppu.write_register(0x2000, 0x80, &mut cartridge, &mut interrupt);
    run_to(&mut ppu, &mut cartridge, &mut interrupt, &mut screen, 241, 1);
    assert_eq!(ppu.read_register(0x2002, &mut cartridge, &mut interrupt) & 0x80, 0x00);
    run_to(&mut ppu, &mut cartridge, &mut interrupt, &mut screen, 260, 340);
    assert!(!ppu.state.vbl);
    assert!(!interrupt.nmi);
    // the next frame is not affected
    run_to(&mut ppu, &mut cartridge, &mut interrupt, &mut screen, 241, 2);
    assert!(ppu.state.vbl);
    assert!(interrupt.nmi);
}

#[test]
fn status_read_just_after_blanking_takes_the_interrupt_back() {
    let mut ppu = Ppu::new();
    let mut cartridge = cartridge(Mirroring::Horizontal);
    let mut interrupt = Interrupt::new();
    let mut screen = screen();
    ppu.write_register(0x2000, 0x80, &mut cartridge, &mut interrupt);
    run_to(&mut ppu, &mut cartridge, &mut interrupt, &mut screen, 241, 2);
    assert!(interrupt.nmi);
    assert_eq!(ppu.read_register(0x2002, &mut cartridge, &mut interrupt) & 0x80, 0x80);
    assert!(!interrupt.nmi);
}

#[test]
fn enabling_the_interrupt_during_blanking_raises_it() {
    let mut ppu = Ppu::new();
    let mut cartridge = cartridge(Mirroring::Horizontal);
    let mut interrupt = Interrupt::new();
    let mut screen = screen();
    run_to(&mut ppu, &mut cartridge, &mut interrupt, &mut screen, 250, 0);
    assert!(!interrupt.nmi);
    ppu.write_register(0x2000, 0x80, &mut cartridge, &mut interrupt);
    assert!(interrupt.nmi);
}

#[test]
fn a_frame_has_61440_pixels_in_row_order() {
    let mut ppu = Ppu::new();
    let mut cartridge = cartridge(Mirroring::Horizontal);
    let mut interrupt = Interrupt::new();
    let mut screen = screen();
    ppu.write_palette(0x3F00, 0x21);
    let mut dots = 0u32;
    loop {
        dots += 1;
        if ppu.step(&mut cartridge, &mut interrupt, &mut screen) {
            break;
        }
    }
    assert_eq!(dots, 341 * 262);
    for y in 0..240 {
        for x in 0..256 {
            assert_eq!(screen.get(x, y), 0x21);
        }
    }
    assert_eq!(screen.get(256, 0), 0);
    assert_eq!(screen.get(0, 240), 0);
}

#[test]
fn odd_frames_are_one_dot_shorter_while_rendering() {
    let mut ppu = Ppu::new();
    let mut cartridge = cartridge(Mirroring::Horizontal);
    let mut interrupt = Interrupt::new();
    let mut screen = screen();
    ppu.write_register(0x2001, 0x08, &mut cartridge, &mut interrupt);
    let mut lengths = Vec::new();
    for _ in 0..4 {
        let mut dots = 0u32;
        loop {
            dots += 1;
            if ppu.step(&mut cartridge, &mut interrupt, &mut screen) {
                break;
            }
        }
        lengths.push(dots);
    }
    assert_eq!(lengths, vec![89342, 89341, 89342, 89341]);
}

/// A picture unit that shows one background tile pattern everywhere and
/// one sprite, and has run to the end of a frame.
fn with_background_and_sprite(sprite_y: u8, sprite_x: u8) -> (Ppu, Nrom, Interrupt, ScreenBuffer) {
    let mut ppu = Ppu::new();
    let mut cartridge = cartridge(Mirroring::Horizontal);
    let mut interrupt = Interrupt::new();
    let screen = screen();
    // tile 1: every pixel colour 1; tile 2: every pixel colour 3
    for row in 0..8 {
        ppu.write_vram(0x0010 + row, 0xFF, &mut cartridge);
        ppu.write_vram(0x0020 + row, 0xFF, &mut cartridge);
        ppu.write_vram(0x0028 + row, 0xFF, &mut cartridge);
    }
    for index in 0..0x3C0u16 {
        ppu.write_vram(0x2000 + index, 0x01, &mut cartridge);
    }
    ppu.write_palette(0x3F00, 0x0F);
    ppu.write_palette(0x3F01, 0x11);
    ppu.write_palette(0x3F13, 0x27);
    ppu.oam[0] = sprite_y;
    ppu.oam[1] = 0x02;
    ppu.oam[2] = 0x00;
    ppu.oam[3] = sprite_x;
    for index in 4..256 {
        ppu.oam[index] = 0xFF;
    }
    ppu.write_register(0x2000, 0x00, &mut cartridge, &mut interrupt);
    ppu.write_register(0x2005, 0x00, &mut cartridge, &mut interrupt);
    ppu.write_register(0x2005, 0x00, &mut cartridge, &mut interrupt);
    ppu.write_register(0x2001, 0x1E, &mut cartridge, &mut interrupt);
    (ppu, cartridge, interrupt, screen)
}

#[test]
fn background_and_sprite_show() {
    let (mut ppu, mut cartridge, mut interrupt, mut screen) = with_background_and_sprite(99, 40);
    // the first frame warms up; the second is whole
    for _ in 0..2 {
        while !ppu.step(&mut cartridge, &mut interrupt, &mut screen) {}
    }
    assert_eq!(screen.get(0, 0), 0x11);
    assert_eq!(screen.get(255, 239), 0x11);
    assert_eq!(screen.get(100, 50), 0x11);
    // the sprite covers lines 100 to 107, columns 40 to 47
    assert_eq!(screen.get(40, 100), 0x27);
    assert_eq!(screen.get(47, 107), 0x27);
    assert_eq!(screen.get(39, 100), 0x11);
    assert_eq!(screen.get(48, 100), 0x11);
    assert_eq!(screen.get(40, 99), 0x11);
    assert_eq!(screen.get(40, 108), 0x11);
}

#[test]
fn sprite_zero_hit_is_set_where_both_are_opaque() {
    let (mut ppu, mut cartridge, mut interrupt, mut screen) = with_background_and_sprite(99, 40);
    run_to(&mut ppu, &mut cartridge, &mut interrupt, &mut screen, 100, 41);
    assert!(!ppu.state.sprite0_hit);
    ppu.step(&mut cartridge, &mut interrupt, &mut screen);
    assert!(ppu.state.sprite0_hit);
    assert_eq!(ppu.read_register(0x2002, &mut cartridge, &mut interrupt) & 0x40, 0x40);
    run_to(&mut ppu, &mut cartridge, &mut interrupt, &mut screen, -1, 2);
    assert!(!ppu.state.sprite0_hit);
}

#[test]
fn ninth_sprite_sets_overflow() {
    let (mut ppu, mut cartridge, mut interrupt, mut screen) = with_background_and_sprite(99, 40);
    for sprite in 0..9usize {
        ppu.oam[4 * sprite] = 49;
        ppu.oam[4 * sprite + 1] = 0x02;
        ppu.oam[4 * sprite + 2] = 0x00;
        ppu.oam[4 * sprite + 3] = (sprite * 10) as u8;
    }
    run_to(&mut ppu, &mut cartridge, &mut interrupt, &mut screen, 49, 0);
    assert!(!ppu.state.overflow);
    run_to(&mut ppu, &mut cartridge, &mut interrupt, &mut screen, 50, 0);
    assert!(ppu.state.overflow);
    assert_eq!(ppu.evaluation.sprite_count, 8);
}

#[test]
fn a_cartridge_that_never_asks_leaves_the_external_line_alone() {
    let mut ppu = Ppu::new();
    let mut cartridge = cartridge(Mirroring::Horizontal);
    let mut interrupt = Interrupt::new();
    let mut screen = screen();
    ppu.state.mask = 0x18;
    let before = cartridge.save();
    for _ in 0..2 * 89342 {
        ppu.step(&mut cartridge, &mut interrupt, &mut screen);
        assert!(!interrupt.irq_flag.external);
    }
    run_to(&mut ppu, &mut cartridge, &mut interrupt, &mut screen, 100, 260);
    ppu.tell(&mut cartridge, &mut interrupt);
    assert!(!interrupt.irq_flag.external);
    assert!(!interrupt.irq_flag.frame_counter && !interrupt.irq_flag.dmc);
    assert_eq!(cartridge.save(), before);
}
