//! System-wide laws: properties that tie several components together,
//! stated over the same spec functions the components' contracts use.

use crate::bus::{spec_bus_read_result, spec_bus_write_next, BusView};
use crate::cpu::{spec_pop, spec_push, CpuView, STACK_BASE};
use crate::cpu_flags::CpuFlags;
use crate::instructions::{spec_adc, spec_sbc, spec_zn};
use crate::oam::Oam;
use crate::ppu::{spec_ppu_read, Ppu, PpuView};
use crate::ppu_render::spec_dot_ord;
use crate::util::{lemma_u16_and_le, lemma_u16_and_7_is_mod, lemma_u8_not_is_sub};
use crate::cartridge::CartView;
use vstd::prelude::*;

verus! {

/// The stack never leaves its page: whatever the stack pointer is, a
/// push writes and a pop reads inside [0x0100, 0x01FF], and the stack
/// pointer stays an 8-bit offset, wrapping within the page.
pub proof fn lemma_stack_stays_in_page(c: CpuView, v: u8)
    ensures
        0x0100 <= STACK_BASE + c.stkp <= 0x01FF,
        spec_push(c, v).stkp < 256,
        spec_pop(c).1.stkp < 256,
        0x0100 <= STACK_BASE + spec_pop(c).1.stkp <= 0x01FF,
{
}

/// The sprite table is exactly 256 bytes in every well-formed state.
pub proof fn lemma_oam_is_256_bytes(o: Oam)
    requires
        o.inv(),
    ensures
        o@.len() == 256,
{
}

/// Both VRAM address composites fit in 15 bits in every well-formed
/// PPU state; every PPU operation preserves well-formedness, so they
/// fit at all times.
pub proof fn lemma_vram_composites_fit_15_bits(p: Ppu)
    requires
        p.inv(),
    ensures
        p@.vram_addr.0 < 0x8000,
        p@.tram_addr.0 < 0x8000,
{
}

/// Writing a byte through the bus and reading the same address back
/// returns the byte, for every address backed by RAM or by writable
/// cartridge memory.
pub proof fn lemma_bus_write_then_read(b: BusView, addr: u16, data: u8)
    requires
        b.inv(),
        addr <= 0x1FFF || addr >= 0x8000,
    ensures
        spec_bus_read_result(spec_bus_write_next(b, addr, data), addr) == data,
{
    if addr >= 0x8000 {
        lemma_u16_and_le(addr, b.cartridge.program_mask());
    } else {
        lemma_u16_and_le(addr, 0x07FF);
    }
}

/// RAM mirroring: each byte of the 2 KiB of RAM is visible at four
/// addresses, 0x0800 apart, and all four read the same value.
pub proof fn lemma_ram_mirrors(b: BusView, addr: u16)
    requires
        b.inv(),
        addr <= 0x07FF,
    ensures
        spec_bus_read_result(b, addr) == spec_bus_read_result(b, (addr + 0x0800) as u16),
        spec_bus_read_result(b, addr) == spec_bus_read_result(b, (addr + 0x1000) as u16),
        spec_bus_read_result(b, addr) == spec_bus_read_result(b, (addr + 0x1800) as u16),
{
    assert(addr <= 0x07FF ==> ((addr & 0x07FF) == addr && (((addr + 0x0800) as u16) & 0x07FF)
        == addr && (((addr + 0x1000) as u16) & 0x07FF) == addr && (((addr + 0x1800) as u16)
        & 0x07FF) == addr)) by (bit_vector);
}

/// PPU register mirroring: across the whole window [0x2000, 0x3FFF],
/// what a bus access does is determined by the address modulo 8 alone
/// — both the value read and the state the access leaves behind.
pub proof fn lemma_ppu_register_mirror(b: BusView, a1: u16, a2: u16, data: u8)
    requires
        b.inv(),
        0x2000 <= a1 <= 0x3FFF,
        0x2000 <= a2 <= 0x3FFF,
        a1 % 8 == a2 % 8,
    ensures
        spec_bus_read_result(b, a1) == spec_bus_read_result(b, a2),
        crate::bus::spec_bus_read_next(b, a1) == crate::bus::spec_bus_read_next(b, a2),
        spec_bus_write_next(b, a1, data) == spec_bus_write_next(b, a2, data),
{
    lemma_u16_and_7_is_mod(a1);
    lemma_u16_and_7_is_mod(a2);
}

/// Palette aliasing: the four sprite universal-background slots read
/// the same byte as the background slots they alias.
pub proof fn lemma_palette_aliases(p: PpuView, c: CartView)
    requires
        p.inv(),
        c.inv(),
    ensures
        spec_ppu_read(p, c, 0x3F10) == spec_ppu_read(p, c, 0x3F00),
        spec_ppu_read(p, c, 0x3F14) == spec_ppu_read(p, c, 0x3F04),
        spec_ppu_read(p, c, 0x3F18) == spec_ppu_read(p, c, 0x3F08),
        spec_ppu_read(p, c, 0x3F1C) == spec_ppu_read(p, c, 0x3F0C),
{
}

/// A frame is 262 scanlines of 341 dots: the dot position of every
/// well-formed PPU state lies in [0, 262 * 341), and the PPU clock's
/// contract advances it by exactly one dot per call — by two across
/// the one skipped dot at scanline 0, dot 0 — wrapping to zero, with
/// the frame flag raised, exactly when the last dot of the frame has
/// been produced.
pub proof fn lemma_frame_is_262_by_341_dots(p: Ppu)
    requires
        p.inv(),
    ensures
        0 <= spec_dot_ord(p@.scanline, p@.cycle) < 262 * 341,
{
}

/// Subtraction is addition of the complement: for every accumulator,
/// operand and carry, the subtract operation returns exactly what the
/// add operation returns on the bitwise-complemented operand — result
/// and all four flags. In plain arithmetic: the result byte is
/// A - M - (1 - C) modulo 256, and the carry reports that no borrow
/// was needed.
pub proof fn lemma_sbc_is_adc_of_complement(a: u8, m: u8, c: bool)
    ensures
        spec_sbc(a, m, c) == spec_adc(a, !m, c),
        spec_sbc(a, m, c).0 == (((a as int) - (m as int) - (if c {
            0int
        } else {
            1int
        }) + 256) % 256) as u8,
        spec_sbc(a, m, c).1 == ((a as int) - (m as int) - (if c {
            0int
        } else {
            1int
        }) >= 0),
{
    lemma_u8_not_is_sub(m);
}

/// Loading a value and transferring it between registers: after a load
/// of `k` followed by a transfer, both registers hold `k` and the zero
/// and negative flags reflect `k` — zero exactly when `k` is zero,
/// negative exactly when bit 7 of `k` is set.
pub proof fn lemma_load_then_transfer(st: CpuFlags, k: u8)
    ensures
        ({
            // the load leaves k in the accumulator with its flags
            let st1 = spec_zn(st, k);
            // the transfer copies the accumulator and sets flags again
            let st2 = spec_zn(st1, k);
            &&& st2.z == (k == 0)
            &&& st2.n == (k >= 128)
            &&& st2.c == st.c
            &&& st2.v == st.v
            &&& st2.i == st.i
        }),
{
}

} // verus!
