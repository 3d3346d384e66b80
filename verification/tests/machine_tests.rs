use dmg_core::gameboy::Gameboy;
use dmg_core::joypad::{Button, Joypad};
use dmg_core::mbc::CartError;
use dmg_core::ppu::Mode;
use dmg_core::ppu::PPU;
use dmg_core::timer::Timer;

#[test]
fn bootstrap_program_runs_for_one_frame() {
    // LD A,0x42; LD (0xC000),A; HALT at the entry point
    let mut cart = vec![0u8; 0x8000];
    cart[0x100] = 0x3e;
    cart[0x101] = 0x42;
    cart[0x102] = 0xea;
    cart[0x103] = 0x00;
    cart[0x104] = 0xc0;
    cart[0x105] = 0x76;
    let mut gb = Gameboy::new(cart).unwrap();
    gb.run_one_frame();
    assert_eq!(gb.cpu.mmu.read_byte(0xc000), 0x42);
    assert_eq!(gb.cpu.a, 0x42);
    assert!(gb.cpu.halted);
}

#[test]
fn gameboy_rejects_bad_cartridges() {
    assert_eq!(Gameboy::new(vec![]).err(), Some(CartError::TooSmall));
    let mut cart = vec![0u8; 0x8000];
    cart[0x147] = 5;
    assert_eq!(Gameboy::new(cart).err(), Some(CartError::UnsupportedMbc));
}

#[test]
fn frame_completion_is_reported_once() {
    let mut cart = vec![0u8; 0x8000];
    cart[0x100] = 0x18; // JR -2: loop in place
    cart[0x101] = 0xfe;
    let mut gb = Gameboy::new(cart).unwrap();
    gb.run_one_frame();
    assert!(gb.ppu_updated());
    assert!(!gb.ppu_updated());
    assert_eq!(gb.screen().len(), 160 * 144);
}

#[test]
fn ppu_walks_modes_and_lines() {
    let mut ppu = PPU::new();
    ppu.write_byte(0xff40, 0x91); // display on
    assert!(matches!(ppu.mode, Mode::OamSearch));
    ppu.tick(80);
    assert!(matches!(ppu.mode, Mode::PixelTransfer));
    ppu.tick(172);
    assert!(matches!(ppu.mode, Mode::HBlank));
    assert_eq!(ppu.read_byte(0xff41) & 0x03, 0);
    ppu.tick(204);
    assert_eq!(ppu.read_byte(0xff44), 1); // next scanline
    assert!(matches!(ppu.mode, Mode::OamSearch));
    // a full frame from here reaches VBlank and raises its interrupt
    let mut saw_vblank = false;
    for _ in 0..(144 * 456) / 4 {
        ppu.tick(4);
        if ppu.vblank_interrupt == 1 {
            saw_vblank = true;
        }
    }
    assert!(saw_vblank);
}

#[test]
fn ppu_coincidence_flag_and_interrupt() {
    let mut ppu = PPU::new();
    ppu.write_byte(0xff40, 0x91);
    ppu.write_byte(0xff45, 1); // LYC = 1
    ppu.write_byte(0xff41, 0x40); // enable the coincidence interrupt
    ppu.tick(456); // finish line 0
    assert_eq!(ppu.read_byte(0xff44), 1);
    assert_eq!(ppu.read_byte(0xff41) & 0x04, 0x04);
    assert_eq!(ppu.status_interrupt, 2);
}

#[test]
fn ppu_disable_parks_in_hblank() {
    let mut ppu = PPU::new();
    ppu.write_byte(0xff40, 0x91);
    ppu.tick(80 + 172 + 204);
    assert_eq!(ppu.read_byte(0xff44), 1);
    ppu.write_byte(0xff40, 0x11); // display off
    assert_eq!(ppu.read_byte(0xff44), 0);
    assert!(matches!(ppu.mode, Mode::HBlank));
    ppu.tick(10000); // nothing advances while disabled
    assert_eq!(ppu.read_byte(0xff44), 0);
}

#[test]
fn lcdc_reads_back_written_value() {
    let mut ppu = PPU::new();
    ppu.write_byte(0xff40, 0xa5);
    assert_eq!(ppu.read_byte(0xff40), 0xa5);
    ppu.write_byte(0xff40, 0x91);
    assert_eq!(ppu.read_byte(0xff40), 0x91);
}

#[test]
fn background_renders_a_tile_row() {
    let mut ppu = PPU::new();
    // display on, background on, tile data at the unsigned base,
    // background map at 0x9800
    ppu.write_byte(0xff40, 0x91);
    ppu.write_byte(0xff47, 0xe4); // palette: index n -> shade n
    // tile 1: every row 0xff,0xff (color index 3 everywhere)
    for row in 0..8u16 {
        ppu.write_byte(0x8010 + row * 2, 0xff);
        ppu.write_byte(0x8010 + row * 2 + 1, 0xff);
    }
    ppu.write_byte(0x9800, 1); // map cell (0,0) uses tile 1
    // run one scanline: OAM search, transfer (renders), HBlank
    ppu.tick(80 + 172);
    let screen = &ppu.screen_data;
    assert_eq!(screen[0], dmg_core::ppu::SHADE_BLACK);
    assert_eq!(screen[7], dmg_core::ppu::SHADE_BLACK);
    assert_eq!(screen[8], dmg_core::ppu::SHADE_WHITE); // next map cell: tile 0
}

#[test]
fn sprites_overlay_the_background() {
    let mut ppu = PPU::new();
    ppu.write_byte(0xff40, 0x93); // display, background and sprites on
    ppu.write_byte(0xff47, 0xe4); // both palettes map index n to shade n
    ppu.write_byte(0xff48, 0xe4);
    // tile 2: color index 1 everywhere (low plane set, high plane clear)
    for row in 0..8u16 {
        ppu.write_byte(0x8020 + row * 2, 0xff);
        ppu.write_byte(0x8021 + row * 2, 0x00);
    }
    // sprite 0 at the top-left corner, tile 2, no attributes
    ppu.write_byte(0xfe00, 16);
    ppu.write_byte(0xfe01, 8);
    ppu.write_byte(0xfe02, 2);
    ppu.write_byte(0xfe03, 0);
    ppu.tick(80 + 172); // render line 0
    let screen = &ppu.screen_data;
    assert_eq!(screen[0], dmg_core::ppu::SHADE_LIGHT_GREY);
    assert_eq!(screen[7], dmg_core::ppu::SHADE_LIGHT_GREY);
    assert_eq!(screen[8], dmg_core::ppu::SHADE_WHITE); // past the sprite
}

#[test]
fn sprite_behind_background_shows_only_over_index_zero() {
    let mut ppu = PPU::new();
    ppu.write_byte(0xff40, 0x93);
    ppu.write_byte(0xff47, 0xe4);
    ppu.write_byte(0xff48, 0xe4);
    // background tile 0 row 0: pixels 0-3 index 0, pixels 4-7 index 1
    ppu.write_byte(0x8000, 0x0f);
    // sprite tile 2: index 3 everywhere
    for row in 0..8u16 {
        ppu.write_byte(0x8020 + row * 2, 0xff);
        ppu.write_byte(0x8021 + row * 2, 0xff);
    }
    // sprite 0 at the corner, marked behind the background
    ppu.write_byte(0xfe00, 16);
    ppu.write_byte(0xfe01, 8);
    ppu.write_byte(0xfe02, 2);
    ppu.write_byte(0xfe03, 0x80);
    ppu.tick(80 + 172);
    let screen = &ppu.screen_data;
    assert_eq!(screen[0], dmg_core::ppu::SHADE_BLACK); // over background index 0
    assert_eq!(screen[4], dmg_core::ppu::SHADE_LIGHT_GREY); // hidden behind index 1
}

#[test]
fn sprite_x_flip_mirrors_columns() {
    let mut ppu = PPU::new();
    ppu.write_byte(0xff40, 0x93);
    ppu.write_byte(0xff48, 0xe4);
    // tile 2 row 0: only the leftmost pixel set (bit 7, index 1)
    ppu.write_byte(0x8020, 0x80);
    ppu.write_byte(0xfe00, 16);
    ppu.write_byte(0xfe01, 8);
    ppu.write_byte(0xfe02, 2);
    ppu.write_byte(0xfe03, 0x20); // x-flip
    ppu.tick(80 + 172);
    let screen = &ppu.screen_data;
    assert_eq!(screen[7], dmg_core::ppu::SHADE_LIGHT_GREY);
    assert_eq!(screen[0], dmg_core::ppu::SHADE_WHITE);
}

#[test]
fn window_covers_background_from_its_column() {
    let mut ppu = PPU::new();
    // display on, window on, window map at the high base
    ppu.write_byte(0xff40, 0x91 | 0x20 | 0x40);
    ppu.write_byte(0xff47, 0xe4);
    ppu.write_byte(0xff4a, 0); // window from the top line
    ppu.write_byte(0xff4b, 87); // and from pixel column 80
    // window map cell 0 names tile 1; tile 1 is index 3 everywhere
    ppu.write_byte(0x9c00, 1);
    for row in 0..8u16 {
        ppu.write_byte(0x8010 + row * 2, 0xff);
        ppu.write_byte(0x8011 + row * 2, 0xff);
    }
    ppu.tick(80 + 172);
    let screen = &ppu.screen_data;
    assert_eq!(screen[79], dmg_core::ppu::SHADE_WHITE); // background tile 0
    assert_eq!(screen[80], dmg_core::ppu::SHADE_BLACK); // window map cell 0: tile 1
    assert_eq!(screen[87], dmg_core::ppu::SHADE_BLACK);
    assert_eq!(screen[88], dmg_core::ppu::SHADE_WHITE); // window map cell 1: tile 0
}

#[test]
fn serial_output_through_a_program() {
    // LD A,'H'; LDH (0x01),A; LD A,0x81; LDH (0x02),A
    let mut cart = vec![0u8; 0x8000];
    let code = [0x3e, b'H', 0xe0, 0x01, 0x3e, 0x81, 0xe0, 0x02];
    cart[0x100..0x100 + code.len()].copy_from_slice(&code);
    let mut gb = Gameboy::new(cart).unwrap();
    for _ in 0..4 {
        gb.cpu.do_cycle();
    }
    assert_eq!(gb.serial_output(), &b"H".to_vec());
}

#[test]
fn interrupt_handler_returns_with_reti() {
    // handler at the VBlank vector: RETI
    let mut cart = vec![0u8; 0x8000];
    cart[0x40] = 0xd9;
    let mut gb = Gameboy::new(cart).unwrap();
    let cpu = &mut gb.cpu;
    cpu.pc = 0xc000;
    cpu.mmu.write_byte(0xc000, 0x00); // NOP at the interrupted point
    cpu.sp = 0xdffe;
    cpu.ime = true;
    cpu.mmu.interrupt_enable = 0x01;
    cpu.mmu.interrupt_flag = 0x01;
    assert_eq!(cpu.do_cycle(), 20);
    assert_eq!(cpu.pc, 0x40);
    assert!(!cpu.ime);
    cpu.do_cycle(); // RETI
    assert_eq!(cpu.pc, 0xc000);
    assert!(cpu.ime);
    assert_eq!(cpu.sp, 0xdffe);
}

#[test]
fn timer_periods_follow_tac() {
    let mut t = Timer::new();
    t.wb(0xff07, 0x05); // enabled, period 16
    t.tick(16);
    assert_eq!(t.rb(0xff05), 1);
    t.wb(0xff07, 0x06); // enabled, period 64
    t.tick(64);
    assert_eq!(t.rb(0xff05), 2);
    t.wb(0xff07, 0x04); // enabled, period 1024
    t.tick(1024);
    assert_eq!(t.rb(0xff05), 3);
    t.wb(0xff07, 0x00); // disabled
    t.tick(4096);
    assert_eq!(t.rb(0xff05), 3);
}

#[test]
fn joypad_press_selects_row_and_interrupts() {
    let mut j = Joypad::new();
    j.write_byte(0x10); // bit 4 set: report the direction row
    j.button_down(Button::Right);
    assert_eq!(j.read_byte() & 0x0f, 0x0e);
    assert_eq!(j.interrupt, 0x10);
    j.interrupt = 0;
    j.button_up(Button::Right);
    assert_eq!(j.read_byte() & 0x0f, 0x0f);
    assert_eq!(j.interrupt, 0);
}

#[test]
fn joypad_action_row() {
    let mut j = Joypad::new();
    j.write_byte(0x20); // bit 5 set: report the action row
    j.button_down(Button::A);
    assert_eq!(j.read_byte() & 0x0f, 0x0e);
    j.button_down(Button::Start);
    assert_eq!(j.read_byte() & 0x0f, 0x06);
}

#[test]
fn gpu_store_roundtrips() {
    let mut g = dmg_core::gpu::GPU::new();
    g.write_byte(0x8000, 0x12);
    g.write_byte(0xfe00, 0x34);
    g.write_byte(0xff42, 0x56);
    assert_eq!(g.read_byte(0x8000), 0x12);
    assert_eq!(g.read_byte(0xfe00), 0x34);
    assert_eq!(g.read_byte(0xff42), 0x56);
}

#[test]
fn io_store_roundtrips() {
    let mut io = dmg_core::io::IO::new();
    io.write_byte(0xff05, 0x77);
    assert_eq!(io.read_byte(0xff05), 0x77);
    assert_eq!(io.read_byte(0xff06), 0);
}
