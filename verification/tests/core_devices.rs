//! Tests of the leaf devices: framebuffer, RAM, OAM, controllers,
//! mapper, cartridge and the register types.

use nes::cartridge::{Cartridge, CartridgeMirror};
use nes::controller::{Controller, CONTROLLER_BUTTON_A, CONTROLLER_UP};
use nes::cpu_flags::CpuFlags;
use nes::mapper::Mapper0;
use nes::oam::{Oam, OamEntry};
use nes::ppu_regs::RamAddrData;
use nes::ram::Ram;
use nes::screen::{master_palette, Pixel, Screen};

#[test]
fn test() {
    let mut x: Screen = Screen::new(10, 10);
    x.set_pixel((11, 11), Pixel::new(255, 255, 255));
    println!("{:?}", x);
}

#[test]
fn mod_test() {
    let mut x: Screen = Screen::new(10, 10);
    x.set_pixel((11, 11), Pixel::new(255, 255, 255));
    // out-of-bounds writes are ignored and nothing panics
    assert_eq!(x.get_pixel((11, 11)), Pixel::new(0, 0, 0));
}

#[test]
fn screen_test() {
    let mut x: Screen = Screen::new(10, 10);
    x.set_pixel((11, 11), Pixel::new(255, 255, 255));
    x.set_pixel((3, 4), Pixel::new(9, 8, 7));
    // the write went to the work buffer; the draw buffer still shows black
    assert_eq!(x.get_pixel((3, 4)), Pixel::new(0, 0, 0));
    x.switch_buffer();
    assert_eq!(x.get_pixel((3, 4)), Pixel::new(9, 8, 7));
}

#[test]
fn test_bitfield_panic() {
    let x = RamAddrData(0);
    println!("{:?}", x);
    assert_eq!(x.coarse_x(), 0);
    assert_eq!(x.coarse_y(), 0);
    assert_eq!(x.fine_y(), 0);
    assert!(!x.nametable_x());
    assert!(!x.nametable_y());
}

#[test]
fn test_get_byte() {
    let mut oam = Oam::new();
    let mut i: u16 = 0;
    while i <= 255 {
        oam.set_byte(i as u8, i as u8);
        i += 1;
    }
    for i in 0..=255u8 {
        assert_eq!(oam.get_byte(i), i);
    }
}

#[test]
fn oam_entry_roundtrip_is_identity() {
    let bytes = [0x12u8, 0x34, 0x56, 0x78];
    let entry = OamEntry::from_bytes(bytes);
    assert_eq!(entry.to_bytes(), bytes);
    let e2 = OamEntry { y: 9, tile_id: 7, attribute: 0x40, x: 200 };
    assert_eq!(OamEntry::from_bytes(e2.to_bytes()), e2);
}

#[test]
fn oam_entries_address_the_same_bytes() {
    let mut oam = Oam::new();
    oam.set_entry(1, OamEntry { y: 1, tile_id: 2, attribute: 3, x: 4 });
    assert_eq!(oam.get_byte(4), 1);
    assert_eq!(oam.get_byte(5), 2);
    assert_eq!(oam.get_byte(6), 3);
    assert_eq!(oam.get_byte(7), 4);
    // entry indexing wraps at 64
    let e = oam.get_entry(65);
    assert_eq!(e.y, 1);
    assert_eq!(e.x, 4);
}

#[test]
fn ram_mirrored_access_folds_addresses() {
    let mut ram = Ram::new(2048);
    ram.write_mirrored(0x1FFF, 0xAB, 0x07FF);
    assert_eq!(ram.read(0x07FF), 0xAB);
    assert_eq!(ram.read_mirrored(0x0FFF, 0x07FF), 0xAB);
    ram.write(0x0000, 0x77);
    assert_eq!(ram.read_mirrored(0x1800, 0x07FF), 0x77);
}

#[test]
fn controller_sets_and_clears_buttons() {
    let mut c = Controller::empty();
    c.set(CONTROLLER_UP, true);
    c.set(CONTROLLER_BUTTON_A, true);
    assert!(c.contains(CONTROLLER_UP));
    assert_eq!(c.bits(), CONTROLLER_UP | CONTROLLER_BUTTON_A);
    c.set(CONTROLLER_UP, false);
    assert!(!c.contains(CONTROLLER_UP));
    assert_eq!(Controller::from_bits_truncate(0x5A).bits(), 0x5A);
}

#[test]
fn mapper0_maps_the_rom_window() {
    let one_bank = Mapper0::new(1, 1);
    assert_eq!(one_bank.map_cpu_read(0x7FFF), None);
    assert_eq!(one_bank.map_cpu_read(0x8000), Some(0));
    assert_eq!(one_bank.map_cpu_read(0xC123), Some(0x0123));
    let two_banks = Mapper0::new(2, 0);
    assert_eq!(two_banks.map_cpu_read(0xC123), Some(0x4123));
    assert_eq!(two_banks.map_ppu_read(0x1FFF), Some(0x1FFF));
    assert_eq!(two_banks.map_ppu_read(0x2000), None);
    // character RAM is writable, character ROM is not
    assert_eq!(two_banks.map_ppu_write(0x0010), Some(0x0010));
    assert_eq!(one_bank.map_ppu_write(0x0010), None);
}

#[test]
fn cartridge_routes_cpu_and_ppu_accesses() {
    let mut prog = vec![0u8; 16384];
    prog[0x0123] = 0x42;
    let mut cart = Cartridge::new(prog, Vec::new(), CartridgeMirror::Vertical);
    // one bank: the window folds onto 16 KiB
    assert_eq!(cart.cpu_map_read(0x8123), Some(0x42));
    assert_eq!(cart.cpu_map_read(0xC123), Some(0x42));
    assert_eq!(cart.cpu_map_read(0x0123), None);
    // an empty character image means character RAM
    assert_eq!(cart.ppu_map_write(0x0040, 0x99), Some(0x99));
    assert_eq!(cart.ppu_map_read(0x0040), Some(0x99));
    // program memory accepts patches through the write interface
    assert_eq!(cart.cpu_map_write(0xFFFC, 0x00), Some(0x00));
    assert_eq!(cart.cpu_map_read(0xFFFC), Some(0x00));
}

#[test]
fn cpu_flags_pack_into_bits() {
    let mut f = CpuFlags::empty();
    f.c = true;
    f.u = true;
    f.n = true;
    assert_eq!(f.bits(), 0x01 | 0x20 | 0x80);
    let g = CpuFlags::from_bits_truncate(0xB1);
    assert!(g.c && g.u && g.n && g.b);
    assert!(!g.z && !g.i && !g.d && !g.v);
}

#[test]
fn loopy_register_fields_pack_into_15_bits() {
    let mut r = RamAddrData(0);
    r.set_coarse_x(31);
    r.set_coarse_y(29);
    r.set_nametable_x(true);
    r.set_fine_y(5);
    assert_eq!(r.coarse_x(), 31);
    assert_eq!(r.coarse_y(), 29);
    assert!(r.nametable_x());
    assert!(!r.nametable_y());
    assert_eq!(r.fine_y(), 5);
    assert!(r.0 < 0x8000);
    // setters truncate their values to the field width
    r.set_coarse_x(0xFFFF);
    assert_eq!(r.coarse_x(), 31);
    assert!(r.0 < 0x8000);
}

#[test]
fn master_palette_has_known_colors() {
    assert_eq!(master_palette(0), Pixel::new(84, 84, 84));
    assert_eq!(master_palette(0x30), Pixel::new(236, 238, 236));
    assert_eq!(master_palette(63), Pixel::new(0, 0, 0));
}
