//! Addressing modes of the 6502: each mode resolves the operand
//! location (or latches the operand itself) and reports whether the
//! instruction may need one extra cycle.

use crate::cpu::{spec_fetch_pc, spec_inc16, spec_read1, Cpu, CpuData, CpuView};
use crate::util::lemma_u16_low_byte_is_mod;
use vstd::prelude::*;

verus! {

/// The twelve addressing modes of the instruction set.
#[derive(Clone, Copy, Debug, PartialEq, Eq, Structural)]
pub enum AddrType {
    /// Implied: the operand is the accumulator or none at all.
    Imp,
    /// Immediate: the operand is the next program byte.
    Imm,
    /// Zero page.
    Zp0,
    /// Zero page, X-indexed.
    Zpx,
    /// Zero page, Y-indexed.
    Zpy,
    /// Absolute.
    Abs,
    /// Absolute, X-indexed.
    Abx,
    /// Absolute, Y-indexed.
    Aby,
    /// Indirect, with the hardware page-wrap quirk.
    Ind,
    /// Indexed indirect (zero page + X, then a pointer load).
    Izx,
    /// Indirect indexed (a zero-page pointer load, then + Y).
    Izy,
    /// Relative, for branches.
    Rel,
}

/// A 16-bit sum with wrap-around.
pub open spec fn spec_add16(x: u16, y: u16) -> u16 {
    (((x as int) + (y as int)) % 0x10000) as u16
}

/// The addressing step as a function: the extra-cycle request and the
/// successor state of resolving an operand under each mode.
pub open spec fn spec_addrmode_step(c: CpuView, mode: AddrType) -> (u8, CpuView) {
    match mode {
        AddrType::Imp => (0u8, CpuView { data: CpuData { fetched: c.a, ..c.data }, ..c }),
        AddrType::Imm => (
            0u8,
            CpuView {
                data: CpuData { addr_abs: c.pc, ..c.data },
                pc: spec_inc16(c.pc),
                ..c
            },
        ),
        AddrType::Zp0 => {
            let (v, c1) = spec_fetch_pc(c);
            (0u8, CpuView { data: CpuData { addr_abs: v as u16, ..c1.data }, ..c1 })
        },
        AddrType::Zpx => {
            let (v, c1) = spec_fetch_pc(c);
            (
                0u8,
                CpuView {
                    data: CpuData {
                        addr_abs: (((v as int) + (c.x as int)) % 256) as u16,
                        ..c1.data
                    },
                    ..c1
                },
            )
        },
        AddrType::Zpy => {
            let (v, c1) = spec_fetch_pc(c);
            (
                0u8,
                CpuView {
                    data: CpuData {
                        addr_abs: (((v as int) + (c.y as int)) % 256) as u16,
                        ..c1.data
                    },
                    ..c1
                },
            )
        },
        AddrType::Abs => {
            let (lo, c1) = spec_fetch_pc(c);
            let (hi, c2) = spec_fetch_pc(c1);
            (
                0u8,
                CpuView {
                    data: CpuData { addr_abs: ((hi as u16) << 8) | (lo as u16), ..c2.data },
                    ..c2
                },
            )
        },
        AddrType::Abx => {
            let (lo, c1) = spec_fetch_pc(c);
            let (hi, c2) = spec_fetch_pc(c1);
            let base = ((hi as u16) << 8) | (lo as u16);
            let addr = spec_add16(base, c.x as u16);
            (
                if (addr & 0xFF00) != ((hi as u16) << 8) {
                    1u8
                } else {
                    0u8
                },
                CpuView { data: CpuData { addr_abs: addr, ..c2.data }, ..c2 },
            )
        },
        AddrType::Aby => {
            let (lo, c1) = spec_fetch_pc(c);
            let (hi, c2) = spec_fetch_pc(c1);
            let base = ((hi as u16) << 8) | (lo as u16);
            let addr = spec_add16(base, c.y as u16);
            (
                if (addr & 0xFF00) != ((hi as u16) << 8) {
                    1u8
                } else {
                    0u8
                },
                CpuView { data: CpuData { addr_abs: addr, ..c2.data }, ..c2 },
            )
        },
        AddrType::Ind => {
            let (plo, c1) = spec_fetch_pc(c);
            let (phi, c2) = spec_fetch_pc(c1);
            let ptr = ((phi as u16) << 8) | (plo as u16);
            let high_src = if plo == 0xFF {
                ptr & 0xFF00
            } else {
                (ptr + 1) as u16
            };
            let (lo, c3) = spec_read1(c2, ptr);
            let (hi, c4) = spec_read1(c3, high_src);
            (
                0u8,
                CpuView {
                    data: CpuData { addr_abs: ((hi as u16) << 8) | (lo as u16), ..c4.data },
                    ..c4
                },
            )
        },
        AddrType::Izx => {
            let (v, c1) = spec_fetch_pc(c);
            let zero = ((v as int) + (c.x as int)) as u16;
            let (lo, c2) = spec_read1(c1, (zero as int % 256) as u16);
            let (hi, c3) = spec_read1(c2, ((zero as int + 1) % 256) as u16);
            (
                0u8,
                CpuView {
                    data: CpuData { addr_abs: ((hi as u16) << 8) | (lo as u16), ..c3.data },
                    ..c3
                },
            )
        },
        AddrType::Izy => {
            let (v, c1) = spec_fetch_pc(c);
            let (lo, c2) = spec_read1(c1, v as u16);
            let (hi, c3) = spec_read1(c2, (((v as int) + 1) % 256) as u16);
            let base = ((hi as u16) << 8) | (lo as u16);
            let addr = spec_add16(base, c.y as u16);
            (
                if (addr & 0xFF00) != ((hi as u16) << 8) {
                    1u8
                } else {
                    0u8
                },
                CpuView { data: CpuData { addr_abs: addr, ..c3.data }, ..c3 },
            )
        },
        AddrType::Rel => {
            let (v, c1) = spec_fetch_pc(c);
            let rel = if v & 0x80 != 0 {
                ((v as u16) | 0xFF00) as u16
            } else {
                v as u16
            };
            (0u8, CpuView { data: CpuData { addr_rel: rel, ..c1.data }, ..c1 })
        },
    }
}

impl Cpu {
    /// Implied addressing: latch the accumulator as the operand.
    pub fn imp(&mut self) -> (r: u8)
        requires
            old(self).inv(),
        ensures
            final(self).inv(),
            crate::cpu::spec_ppu_timing_eq(final(self)@, old(self)@),
            final(self)@ == (CpuView {
                data: CpuData { fetched: old(self)@.a, ..old(self)@.data },
                ..old(self)@
            }),
            r == 0,
    {
        self.data.fetched = self.a;
        0
    }

    /// Immediate addressing: the operand is the next program byte.
    pub fn imm(&mut self) -> (r: u8)
        requires
            old(self).inv(),
        ensures
            final(self).inv(),
            crate::cpu::spec_ppu_timing_eq(final(self)@, old(self)@),
            final(self)@ == (CpuView {
                data: CpuData { addr_abs: old(self)@.pc, ..old(self)@.data },
                pc: spec_inc16(old(self)@.pc),
                ..old(self)@
            }),
            r == 0,
    {
        self.data.addr_abs = self.pc;
        self.pc = if self.pc == 0xFFFF {
            0
        } else {
            self.pc + 1
        };
        0
    }

    /// Zero-page addressing: the next program byte is the low-page
    /// address of the operand.
    pub fn zp0(&mut self) -> (r: u8)
        requires
            old(self).inv(),
        ensures
            final(self).inv(),
            crate::cpu::spec_ppu_timing_eq(final(self)@, old(self)@),
            ({
                let (v, c1) = spec_fetch_pc(old(self)@);
                final(self)@ == (CpuView {
                    data: CpuData { addr_abs: v as u16, ..c1.data },
                    ..c1
                })
            }),
            r == 0,
    {
        let v = self.read_inc_pc();
        self.data.addr_abs = v as u16;
        0
    }

    /// Zero-page addressing with X offset; the sum stays in the zero
    /// page.
    pub fn zpx(&mut self) -> (r: u8)
        requires
            old(self).inv(),
        ensures
            final(self).inv(),
            crate::cpu::spec_ppu_timing_eq(final(self)@, old(self)@),
            ({
                let (v, c1) = spec_fetch_pc(old(self)@);
                final(self)@ == (CpuView {
                    data: CpuData {
                        addr_abs: (((v as int) + (old(self)@.x as int)) % 256) as u16,
                        ..c1.data
                    },
                    ..c1
                })
            }),
            r == 0,
    {
        let v = self.read_inc_pc();
        let sum: u16 = (v as u16) + (self.x as u16);
        proof {
            lemma_u16_low_byte_is_mod(sum);
        }
        self.data.addr_abs = sum & 0x00FF;
        0
    }

    /// Zero-page addressing with Y offset; the sum stays in the zero
    /// page.
    pub fn zpy(&mut self) -> (r: u8)
        requires
            old(self).inv(),
        ensures
            final(self).inv(),
            crate::cpu::spec_ppu_timing_eq(final(self)@, old(self)@),
            ({
                let (v, c1) = spec_fetch_pc(old(self)@);
                final(self)@ == (CpuView {
                    data: CpuData {
                        addr_abs: (((v as int) + (old(self)@.y as int)) % 256) as u16,
                        ..c1.data
                    },
                    ..c1
                })
            }),
            r == 0,
    {
        let v = self.read_inc_pc();
        let sum: u16 = (v as u16) + (self.y as u16);
        proof {
            lemma_u16_low_byte_is_mod(sum);
        }
        self.data.addr_abs = sum & 0x00FF;
        0
    }

    /// Absolute addressing: the operand address is the next two
    /// program bytes, little endian.
    pub fn abs(&mut self) -> (r: u8)
        requires
            old(self).inv(),
        ensures
            final(self).inv(),
            crate::cpu::spec_ppu_timing_eq(final(self)@, old(self)@),
            ({
                let (lo, c1) = spec_fetch_pc(old(self)@);
                let (hi, c2) = spec_fetch_pc(c1);
                final(self)@ == (CpuView {
                    data: CpuData {
                        addr_abs: ((hi as u16) << 8) | (lo as u16),
                        ..c2.data
                    },
                    ..c2
                })
            }),
            r == 0,
    {
        let lo = self.read_inc_pc();
        let hi = self.read_inc_pc();
        self.data.addr_abs = ((hi as u16) << 8) | (lo as u16);
        0
    }

    /// Absolute addressing with X offset, wrapping; an extra cycle may
    /// be needed when the sum crosses a page.
    pub fn abx(&mut self) -> (r: u8)
        requires
            old(self).inv(),
        ensures
            final(self).inv(),
            crate::cpu::spec_ppu_timing_eq(final(self)@, old(self)@),
            ({
                let (lo, c1) = spec_fetch_pc(old(self)@);
                let (hi, c2) = spec_fetch_pc(c1);
                let base = ((hi as u16) << 8) | (lo as u16);
                let addr = spec_add16(base, old(self)@.x as u16);
                final(self)@ == (CpuView {
                    data: CpuData { addr_abs: addr, ..c2.data },
                    ..c2
                }) && r == (if (addr & 0xFF00) != ((hi as u16) << 8) {
                    1u8
                } else {
                    0u8
                })
            }),
    {
        let lo = self.read_inc_pc();
        let hi = self.read_inc_pc();
        let base: u16 = ((hi as u16) << 8) | (lo as u16);
        let addr: u16 = add16(base, self.x as u16);
        self.data.addr_abs = addr;
        if (addr & 0xFF00) != ((hi as u16) << 8) {
            1
        } else {
            0
        }
    }

    /// Absolute addressing with Y offset, wrapping; an extra cycle may
    /// be needed when the sum crosses a page.
    pub fn aby(&mut self) -> (r: u8)
        requires
            old(self).inv(),
        ensures
            final(self).inv(),
            crate::cpu::spec_ppu_timing_eq(final(self)@, old(self)@),
            ({
                let (lo, c1) = spec_fetch_pc(old(self)@);
                let (hi, c2) = spec_fetch_pc(c1);
                let base = ((hi as u16) << 8) | (lo as u16);
                let addr = spec_add16(base, old(self)@.y as u16);
                final(self)@ == (CpuView {
                    data: CpuData { addr_abs: addr, ..c2.data },
                    ..c2
                }) && r == (if (addr & 0xFF00) != ((hi as u16) << 8) {
                    1u8
                } else {
                    0u8
                })
            }),
    {
        let lo = self.read_inc_pc();
        let hi = self.read_inc_pc();
        let base: u16 = ((hi as u16) << 8) | (lo as u16);
        let addr: u16 = add16(base, self.y as u16);
        self.data.addr_abs = addr;
        if (addr & 0xFF00) != ((hi as u16) << 8) {
            1
        } else {
            0
        }
    }

    /// Indirect addressing: a pointer load through the next two
    /// program bytes, reproducing the hardware quirk that a pointer
    /// ending in 0xFF fetches its high byte from the start of the same
    /// page.
    pub fn ind(&mut self) -> (r: u8)
        requires
            old(self).inv(),
        ensures
            final(self).inv(),
            crate::cpu::spec_ppu_timing_eq(final(self)@, old(self)@),
            ({
                let (plo, c1) = spec_fetch_pc(old(self)@);
                let (phi, c2) = spec_fetch_pc(c1);
                let ptr = ((phi as u16) << 8) | (plo as u16);
                let high_src = if plo == 0xFF {
                    ptr & 0xFF00
                } else {
                    (ptr + 1) as u16
                };
                let (lo, c3) = spec_read1(c2, ptr);
                let (hi, c4) = spec_read1(c3, high_src);
                final(self)@ == (CpuView {
                    data: CpuData {
                        addr_abs: ((hi as u16) << 8) | (lo as u16),
                        ..c4.data
                    },
                    ..c4
                })
            }),
            r == 0,
    {
        let plo = self.read_inc_pc();
        let phi = self.read_inc_pc();
        let ptr: u16 = ((phi as u16) << 8) | (plo as u16);
        let high_src: u16 = if plo == 0xFF {
            // hardware quirk: the high byte wraps within the page
            ptr & 0xFF00
        } else {
            proof {
                assert(((phi as u16) << 8) | (plo as u16) < 0xFFFF) by (bit_vector)
                    requires
                        plo != 0xFF,
                ;
            }
            ptr + 1
        };
        let lo = self.read(ptr);
        let hi = self.read(high_src);
        self.data.addr_abs = ((hi as u16) << 8) | (lo as u16);
        0
    }

    /// Indexed indirect addressing: the next byte plus X names a
    /// zero-page slot holding the operand address.
    pub fn izx(&mut self) -> (r: u8)
        requires
            old(self).inv(),
        ensures
            final(self).inv(),
            crate::cpu::spec_ppu_timing_eq(final(self)@, old(self)@),
            ({
                let (v, c1) = spec_fetch_pc(old(self)@);
                let zero = ((v as int) + (old(self)@.x as int)) as u16;
                let (lo, c2) = spec_read1(c1, (zero as int % 256) as u16);
                let (hi, c3) = spec_read1(c2, ((zero as int + 1) % 256) as u16);
                final(self)@ == (CpuView {
                    data: CpuData {
                        addr_abs: ((hi as u16) << 8) | (lo as u16),
                        ..c3.data
                    },
                    ..c3
                })
            }),
            r == 0,
    {
        let v = self.read_inc_pc();
        let zero: u16 = (v as u16) + (self.x as u16);
        proof {
            lemma_u16_low_byte_is_mod(zero);
            lemma_u16_low_byte_is_mod((zero + 1) as u16);
        }
        let lo = self.read(zero & 0x00FF);
        let hi = self.read((zero + 1) & 0x00FF);
        self.data.addr_abs = ((hi as u16) << 8) | (lo as u16);
        0
    }

    /// Indirect indexed addressing: the next byte names a zero-page
    /// slot holding a pointer, to which Y is added; an extra cycle may
    /// be needed when the sum crosses a page.
    pub fn izy(&mut self) -> (r: u8)
        requires
            old(self).inv(),
        ensures
            final(self).inv(),
            crate::cpu::spec_ppu_timing_eq(final(self)@, old(self)@),
            ({
                let (v, c1) = spec_fetch_pc(old(self)@);
                let (lo, c2) = spec_read1(c1, v as u16);
                let (hi, c3) = spec_read1(c2, (((v as int) + 1) % 256) as u16);
                let base = ((hi as u16) << 8) | (lo as u16);
                let addr = spec_add16(base, old(self)@.y as u16);
                final(self)@ == (CpuView {
                    data: CpuData { addr_abs: addr, ..c3.data },
                    ..c3
                }) && r == (if (addr & 0xFF00) != ((hi as u16) << 8) {
                    1u8
                } else {
                    0u8
                })
            }),
    {
        let v = self.read_inc_pc();
        let zero: u16 = v as u16;
        proof {
            lemma_u16_low_byte_is_mod(zero);
            lemma_u16_low_byte_is_mod((zero + 1) as u16);
        }
        let lo = self.read(zero & 0x00FF);
        let hi = self.read((zero + 1) & 0x00FF);
        let base: u16 = ((hi as u16) << 8) | (lo as u16);
        let addr: u16 = add16(base, self.y as u16);
        self.data.addr_abs = addr;
        if (addr & 0xFF00) != ((hi as u16) << 8) {
            1
        } else {
            0
        }
    }

    /// Relative addressing: the next byte is a sign-extended branch
    /// offset.
    pub fn rel(&mut self) -> (r: u8)
        requires
            old(self).inv(),
        ensures
            final(self).inv(),
            crate::cpu::spec_ppu_timing_eq(final(self)@, old(self)@),
            ({
                let (v, c1) = spec_fetch_pc(old(self)@);
                let rel = if v & 0x80 != 0 {
                    ((v as u16) | 0xFF00) as u16
                } else {
                    v as u16
                };
                final(self)@ == (CpuView {
                    data: CpuData { addr_rel: rel, ..c1.data },
                    ..c1
                })
            }),
            r == 0,
    {
        let v = self.read_inc_pc();
        let mut rel: u16 = v as u16;
        if rel & 0x0080 != 0 {
            // sign extension: the offset is negative
            rel = rel | 0xFF00;
        }
        proof {
            assert(((v as u16) & 0x0080 != 0) == (v & 0x80 != 0)) by (bit_vector);
        }
        self.data.addr_rel = rel;
        0
    }

    /// Dispatch on an addressing mode tag.
    pub fn run_addrmode(&mut self, mode: AddrType) -> (r: u8)
        requires
            old(self).inv(),
        ensures
            final(self).inv(),
            crate::cpu::spec_ppu_timing_eq(final(self)@, old(self)@),
            r == 0 || r == 1,
            final(self)@.data.cycles == old(self)@.data.cycles,
            final(self)@.data.opcode == old(self)@.data.opcode,
            final(self)@.data.mode == old(self)@.data.mode,
            r == spec_addrmode_step(old(self)@, mode).0,
            final(self)@ == spec_addrmode_step(old(self)@, mode).1,
    {
        match mode {
            AddrType::Imp => self.imp(),
            AddrType::Imm => self.imm(),
            AddrType::Zp0 => self.zp0(),
            AddrType::Zpx => self.zpx(),
            AddrType::Zpy => self.zpy(),
            AddrType::Abs => self.abs(),
            AddrType::Abx => self.abx(),
            AddrType::Aby => self.aby(),
            AddrType::Ind => self.ind(),
            AddrType::Izx => self.izx(),
            AddrType::Izy => self.izy(),
            AddrType::Rel => self.rel(),
        }
    }
}

/// A 16-bit sum with wrap-around.
pub fn add16(x: u16, y: u16) -> (r: u16)
    ensures
        r == spec_add16(x, y),
{
    let wide: u32 = (x as u32) + (y as u32);
    (wide % 0x10000) as u16
}

} // verus!
