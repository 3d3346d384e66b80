use dmg_core::mbc::{create_mbc, CartError, Mbc};
use dmg_core::mmu::MMU;

fn make_mmu() -> MMU {
    let cart = vec![0u8; 0x8000];
    MMU::new(cart).unwrap()
}

#[test]
fn startup_failures() {
    assert_eq!(MMU::new(vec![0u8; 0x100]).err(), Some(CartError::TooSmall));

    let mut cart = vec![0u8; 0x8000];
    cart[0x147] = 9;
    assert_eq!(MMU::new(cart).err(), Some(CartError::UnsupportedMbc));

    let mut cart = vec![0u8; 0x8000];
    cart[0x147] = 1;
    cart[0x149] = 4;
    assert_eq!(MMU::new(cart).err(), Some(CartError::UnsupportedRamSize));
}

#[test]
fn post_boot_io_defaults() {
    let mmu = make_mmu();
    assert_eq!(mmu.read_byte(0xff40), 0x91);
    assert_eq!(mmu.read_byte(0xff47), 0xfc);
    assert_eq!(mmu.read_byte(0xff48), 0xff);
    assert_eq!(mmu.read_byte(0xff49), 0xff);
}

#[test]
fn work_ram_and_high_ram_store() {
    let mut mmu = make_mmu();
    mmu.write_byte(0xc000, 0x11);
    mmu.write_byte(0xdfff, 0x22);
    mmu.write_byte(0xff80, 0x33);
    mmu.write_byte(0xfffe, 0x44);
    assert_eq!(mmu.read_byte(0xc000), 0x11);
    assert_eq!(mmu.read_byte(0xdfff), 0x22);
    assert_eq!(mmu.read_byte(0xff80), 0x33);
    assert_eq!(mmu.read_byte(0xfffe), 0x44);
}

#[test]
fn echo_ram_mirrors_work_ram() {
    let mut mmu = make_mmu();
    mmu.write_byte(0xc123, 0xab);
    assert_eq!(mmu.read_byte(0xe123), 0xab);
    mmu.write_byte(0xfdff, 0xcd);
    assert_eq!(mmu.read_byte(0xddff), 0xcd);
}

#[test]
fn unusable_and_sound_regions() {
    let mut mmu = make_mmu();
    mmu.write_byte(0xfea0, 0x99);
    assert_eq!(mmu.read_byte(0xfea0), 0);
    mmu.write_byte(0xff10, 0x99);
    assert_eq!(mmu.read_byte(0xff10), 0);
    // ROM region ignores plain writes on a bankless cartridge
    mmu.write_byte(0x1234, 0x99);
    assert_eq!(mmu.read_byte(0x1234), 0);
}

#[test]
fn word_roundtrip_in_writable_regions() {
    let mut mmu = make_mmu();
    for &addr in &[0x8000u16, 0x9ffe, 0xc000, 0xdffe, 0xe000, 0xfe00, 0xff80, 0xfffc] {
        mmu.write_word(addr, 0xbeef);
        assert_eq!(mmu.read_word(addr), 0xbeef);
    }
}

#[test]
fn interrupt_registers_store_and_read() {
    let mut mmu = make_mmu();
    mmu.write_byte(0xff0f, 0x15);
    mmu.write_byte(0xffff, 0x0a);
    assert_eq!(mmu.read_byte(0xff0f), 0x15);
    assert_eq!(mmu.read_byte(0xffff), 0x0a);
}

#[test]
fn dma_copies_work_ram_into_oam() {
    let mut mmu = make_mmu();
    for i in 0..0xa0u16 {
        mmu.write_byte(0xc000 + i, (i & 0xff) as u8);
    }
    mmu.write_byte(0xff46, 0xc0);
    for i in 0..0xa0u16 {
        assert_eq!(mmu.read_byte(0xfe00 + i), (i & 0xff) as u8);
    }
}

#[test]
fn serial_output_collects_emitted_bytes() {
    let mut mmu = make_mmu();
    for &b in b"Ok" {
        mmu.write_byte(0xff01, b);
        mmu.write_byte(0xff02, 0x81);
    }
    assert_eq!(mmu.serial.output, b"Ok".to_vec());
    assert_eq!(mmu.read_byte(0xff01), b'k');
}

#[test]
fn timer_overflow_reloads_and_raises_interrupt() {
    // TMA=0xF0, TIMA=0xFE, TAC=0x05 (enabled, period 16); after 48
    // clocks TIMA has been reloaded and the timer interrupt raised
    let mut mmu = make_mmu();
    mmu.write_byte(0xff06, 0xf0);
    mmu.write_byte(0xff05, 0xfe);
    mmu.write_byte(0xff07, 0x05);
    mmu.tick(48);
    assert_eq!(mmu.read_byte(0xff05), 0xf0);
    assert_eq!(mmu.read_byte(0xff0f) & 0x04, 0x04);
}

#[test]
fn div_counts_up_and_resets_on_write() {
    let mut mmu = make_mmu();
    mmu.tick(512);
    assert_eq!(mmu.read_byte(0xff04), 2);
    mmu.write_byte(0xff04, 0x77);
    assert_eq!(mmu.read_byte(0xff04), 0);
}

#[test]
fn mbc1_rom_banking() {
    // a 4-bank image whose banks are tagged at a fixed offset
    let mut cart = vec![0u8; 0x4000 * 4];
    cart[0x147] = 1;
    cart[0x149] = 2; // 8 KiB of external RAM
    for bank in 0..4usize {
        cart[bank * 0x4000 + 0x123] = bank as u8;
    }
    let mut mbc = create_mbc(cart).unwrap();
    assert_eq!(mbc.read_rom(0x0123), 0);
    // default bank 1
    assert_eq!(mbc.read_rom(0x4123), 1);
    // select bank 3
    mbc.write_rom(0x2000, 3);
    assert_eq!(mbc.read_rom(0x4123), 3);
    // writing 0 selects bank 1
    mbc.write_rom(0x2000, 0);
    assert_eq!(mbc.read_rom(0x4123), 1);
    // a bank past the image reads 0
    mbc.write_rom(0x2000, 9);
    assert_eq!(mbc.read_rom(0x4123), 0);
}

#[test]
fn mbc1_ram_enable_gates_access() {
    let mut cart = vec![0u8; 0x8000];
    cart[0x147] = 1;
    cart[0x149] = 2;
    let mut mbc = create_mbc(cart).unwrap();
    mbc.write_ram(0xa000, 0x55);
    assert_eq!(mbc.read_ram(0xa000), 0); // disabled: dropped, reads 0
    mbc.write_rom(0x0000, 0x0a); // enable
    mbc.write_ram(0xa000, 0x55);
    assert_eq!(mbc.read_ram(0xa000), 0x55);
    mbc.write_rom(0x0000, 0x00); // disable again
    assert_eq!(mbc.read_ram(0xa000), 0);
}

#[test]
fn mbc0_has_no_ram() {
    let cart = vec![0u8; 0x8000];
    let mut mbc = create_mbc(cart).unwrap();
    assert!(matches!(mbc, Mbc::Mbc0(_)));
    mbc.write_ram(0xa000, 0x55);
    assert_eq!(mbc.read_ram(0xa000), 0);
}

#[test]
fn ram_size_table() {
    assert_eq!(dmg_core::mbc::ram_size(0), 0);
    assert_eq!(dmg_core::mbc::ram_size(1), 0x800);
    assert_eq!(dmg_core::mbc::ram_size(2), 0x2000);
    assert_eq!(dmg_core::mbc::ram_size(3), 0x8000);
}
