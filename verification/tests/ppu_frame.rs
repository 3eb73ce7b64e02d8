//! Tests of the bus, the PPU and whole-console behaviour: mirroring,
//! DMA, frame timing, sprite-zero collision and interrupt delivery.

use nes::bus::Bus;
use nes::cartridge::{Cartridge, CartridgeMirror};
use nes::oam::OamEntry;
use nes::system::System;

/// A cartridge with character RAM whose reset vector points at 0x8000
/// and whose interrupt vector points at 0x9000, both holding a jump to
/// themselves.
fn looping_cartridge() -> Cartridge {
    let mut prog = vec![0u8; 16384];
    // JMP $8000 at the reset target
    prog[0x0000] = 0x4C;
    prog[0x0001] = 0x00;
    prog[0x0002] = 0x80;
    // JMP $9000 at the interrupt handler
    prog[0x1000] = 0x4C;
    prog[0x1001] = 0x00;
    prog[0x1002] = 0x90;
    // vectors
    prog[0x3FFA] = 0x00;
    prog[0x3FFB] = 0x90;
    prog[0x3FFC] = 0x00;
    prog[0x3FFD] = 0x80;
    Cartridge::new(prog, Vec::new(), CartridgeMirror::Vertical)
}

#[test]
fn ram_mirroring_on_the_bus() {
    let mut bus = Bus::new(looping_cartridge());
    bus.write(0x07FF, 0x5A);
    assert_eq!(bus.read(0x0FFF), 0x5A);
    assert_eq!(bus.read(0x17FF), 0x5A);
    assert_eq!(bus.read(0x1FFF), 0x5A);
    bus.write(0x1000, 0xA5);
    assert_eq!(bus.read(0x0000), 0xA5);
}

#[test]
fn ppu_registers_mirror_modulo_eight() {
    let mut bus = Bus::new(looping_cartridge());
    // set a palette byte through the base data port...
    bus.write(0x2006, 0x3F);
    bus.write(0x2006, 0x00);
    bus.write(0x2007, 0x2A);
    // ...and one through the highest mirror of the same registers
    bus.write(0x3FFE, 0x3F);
    bus.write(0x3FFE, 0x01);
    bus.write(0x3FFF, 0x2B);
    // read both back through yet another mirror of the data port
    bus.write(0x200E, 0x3F);
    bus.write(0x2016, 0x00);
    assert_eq!(bus.read(0x201F), 0x2A);
    assert_eq!(bus.read(0x3FF7), 0x2B);
    // a control write through a mirror behaves like the base address
    bus.write(0x2000, 0x80);
    assert!(bus.ppu.control.enable_nmi);
    bus.write(0x3FF8, 0x00);
    assert!(!bus.ppu.control.enable_nmi);
}

#[test]
fn palette_aliases_read_the_same_byte() {
    let mut bus = Bus::new(looping_cartridge());
    bus.write(0x2006, 0x3F);
    bus.write(0x2006, 0x00);
    bus.write(0x2007, 0x21);
    // reading 0x3F10 must alias 0x3F00
    let v0 = bus.ppu.ppu_read(0x3F00, &bus.cartridge);
    let v1 = bus.ppu.ppu_read(0x3F10, &bus.cartridge);
    assert_eq!(v0, 0x21);
    assert_eq!(v0, v1);
    // and writing the alias lands in the base slot
    bus.ppu.ppu_write(0x3F14, 0x19, &mut bus.cartridge);
    assert_eq!(bus.ppu.ppu_read(0x3F04, &bus.cartridge), 0x19);
}

#[test]
fn dma_copies_a_page_into_oam_while_the_cpu_stalls() {
    let mut system = System::new(looping_cartridge());
    // fill CPU page 0x02 with 0x42
    for off in 0..=255u16 {
        system.cpu.bus.write(0x0200 + off, 0x42);
    }
    let pc_before = system.cpu.pc;
    system.cpu.bus.write(0x4014, 0x02);
    assert!(system.cpu.bus.dma.transfer);
    // run until the transfer completes, counting the CPU-rate ticks
    // the engine consumed
    let mut cpu_ticks: u32 = 0;
    let mut guard: u32 = 0;
    while system.cpu.bus.dma.transfer {
        if system.clock_counter % 3 == 0 {
            cpu_ticks += 1;
        }
        system.clock();
        guard += 1;
        assert!(guard < 10_000);
    }
    // one dummy synchronisation tick, then 256 reads and 256 writes
    assert!(cpu_ticks == 513 || cpu_ticks == 514);
    for i in 0..=255u8 {
        assert_eq!(system.cpu.bus.ppu.oam.get_byte(i), 0x42);
    }
    // the CPU did not run: its program counter has not advanced
    assert_eq!(system.cpu.pc, pc_before);
}

#[test]
fn frame_produces_262_by_341_dots() {
    let mut system = System::new(looping_cartridge());
    // finish the partial first frame
    let mut clocks: u32 = 0;
    while !system.cpu.bus.ppu.frame_complete {
        system.clock();
        clocks += 1;
        assert!(clocks < 90_000);
    }
    // a full frame from the pre-render dot takes 262 * 341 dots, less
    // the one dot skipped at scanline 0, dot 0
    let mut clocks: u32 = 0;
    system.clock();
    clocks += 1;
    while !system.cpu.bus.ppu.frame_complete {
        system.clock();
        clocks += 1;
        assert!(clocks < 90_000);
    }
    assert_eq!(clocks, 262 * 341 - 1);
}

#[test]
fn next_frame_terminates_and_hands_out_a_frame() {
    let mut system = System::new(looping_cartridge());
    {
        let screen = system.next_frame();
        assert_eq!(screen.flatten().len(), 256 * 240);
    }
    system.next_frame();
}

#[test]
fn sprite_zero_hit_is_detected() {
    let mut system = System::new(looping_cartridge());
    {
        let bus = &mut system.cpu.bus;
        // tile 1: every pixel opaque (low plane all ones)
        for row in 0..8u16 {
            bus.ppu.ppu_write(0x0010 + row, 0xFF, &mut bus.cartridge);
        }
        // background: put tile 1 at tile column 10, tile row 7 — the
        // tile covering pixel (80, 60)
        bus.ppu.ppu_write(0x2000 + 7 * 32 + 10, 0x01, &mut bus.cartridge);
        // sprite zero overlapping the same pixels
        bus.ppu.oam.set_entry(0, OamEntry { y: 59, tile_id: 1, attribute: 0, x: 80 });
        // enable background and sprites, left columns included
        bus.ppu.cpu_write(1, 0x1E, &mut bus.cartridge);
    }
    assert!(!system.cpu.bus.ppu.status.sprite_zero_hit);
    // run two frames so the pipelines are warm, then check the flag
    system.next_frame();
    system.next_frame();
    assert!(system.cpu.bus.ppu.status.sprite_zero_hit);
}

#[test]
fn vblank_delivers_one_nmi_per_frame() {
    let mut system = System::new(looping_cartridge());
    // enable the vertical-blank interrupt
    system.cpu.bus.write(0x2000, 0x80);
    let sp0 = system.cpu.stkp;
    system.next_frame();
    // exactly one interrupt was taken: three bytes went to the stack
    assert_eq!(system.cpu.stkp, sp0.wrapping_sub(3));
    // the program counter was redirected through the vector at 0xFFFA
    assert!(system.cpu.pc >= 0x9000 && system.cpu.pc <= 0x9002);
    // the pushed status byte has break clear and unused set
    let pushed_status = system.cpu.read(0x0100 + sp0.wrapping_sub(2) as u16);
    assert_eq!(pushed_status & 0x10, 0);
    assert_eq!(pushed_status & 0x20, 0x20);
    // the next frame delivers exactly one more
    system.next_frame();
    assert_eq!(system.cpu.stkp, sp0.wrapping_sub(6));
}
