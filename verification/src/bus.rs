//! The system bus: the address decoder that connects the CPU to work
//! RAM, the PPU registers, the controller ports, the DMA trigger and
//! the cartridge, and the DMA stepping logic.

use crate::cartridge::{CartView, Cartridge};
use crate::controller::{Controller, CTRL_ADDR_END, CTRL_ADDR_START};
use crate::dma::{Dma, DMA_ADDR};
use crate::ppu::{spec_cpu_read_next, spec_cpu_read_result, spec_cpu_write_next, Ppu, PpuView};
use crate::ram::{Ram, RAM_ADDR_END, RAM_MIRROR, RAM_SIZE};
use crate::util::lemma_u16_and_le;
use vstd::prelude::*;

verus! {

/// The devices connected to the CPU.
#[derive(Clone, Debug)]
pub struct Bus {
    /// The console's picture processing unit.
    pub ppu: Ppu,
    /// 2 KiB of work RAM behind an 8 KiB mirror window.
    pub ram: Ram,
    /// The live gamepad state written by the host.
    pub controllers: [Controller; 2],
    /// The latched shift registers read by the program.
    pub controller_state: [Controller; 2],
    /// The game cartridge, shared with the PPU bus.
    pub cartridge: Cartridge,
    /// The sprite page-copy engine.
    pub dma: Dma,
}

/// The mathematical state of the bus and everything behind it.
#[verifier::ext_equal]
pub struct BusView {
    /// The PPU.
    pub ppu: PpuView,
    /// The work RAM bytes.
    pub ram: Seq<u8>,
    /// The live gamepad state.
    pub controllers: Seq<Controller>,
    /// The latched controller shift registers.
    pub controller_state: Seq<Controller>,
    /// The cartridge.
    pub cartridge: CartView,
    /// The DMA engine.
    pub dma: Dma,
}

impl View for Bus {
    type V = BusView;

    open spec fn view(&self) -> BusView {
        BusView {
            ppu: self.ppu@,
            ram: self.ram@,
            controllers: self.controllers@,
            controller_state: self.controller_state@,
            cartridge: self.cartridge@,
            dma: self.dma,
        }
    }
}

impl BusView {
    /// Well-formedness of the bus and every device on it.
    pub open spec fn inv(&self) -> bool {
        &&& self.ppu.inv()
        &&& self.ram.len() == RAM_SIZE
        &&& self.controllers.len() == 2
        &&& self.controller_state.len() == 2
        &&& self.cartridge.inv()
    }
}

/// What a CPU read through the bus returns: the cartridge first, then
/// mirrored RAM, the PPU registers mirrored modulo 8, or the high bit
/// of a controller shift register.
pub open spec fn spec_bus_read_result(b: BusView, addr: u16) -> u8 {
    if addr >= 0x8000 {
        b.cartridge.program[(addr & b.cartridge.program_mask()) as int]
    } else if addr <= RAM_ADDR_END {
        b.ram[(addr & RAM_MIRROR) as int]
    } else if addr <= 0x3FFF {
        spec_cpu_read_result(b.ppu, b.cartridge, addr & 0x07)
    } else if addr == CTRL_ADDR_START || addr == CTRL_ADDR_END {
        if b.controller_state[(addr & 1) as int].bits & 0x80 != 0 {
            1u8
        } else {
            0u8
        }
    } else {
        0u8
    }
}

/// The bus after a CPU read: PPU register reads advance PPU state, a
/// controller read shifts its register left one bit; everything else
/// is untouched.
pub open spec fn spec_bus_read_next(b: BusView, addr: u16) -> BusView {
    if addr >= 0x8000 {
        b
    } else if addr <= RAM_ADDR_END {
        b
    } else if addr <= 0x3FFF {
        BusView { ppu: spec_cpu_read_next(b.ppu, b.cartridge, addr & 0x07), ..b }
    } else if addr == CTRL_ADDR_START || addr == CTRL_ADDR_END {
        let which = (addr & 1) as int;
        BusView {
            controller_state: b.controller_state.update(
                which,
                Controller { bits: b.controller_state[which].bits << 1 },
            ),
            ..b
        }
    } else {
        b
    }
}

/// The bus after a CPU write: the cartridge claims the ROM window,
/// then mirrored RAM, the PPU registers (which may reach character
/// RAM), the DMA trigger, or a controller latch.
pub open spec fn spec_bus_write_next(b: BusView, addr: u16, data: u8) -> BusView {
    if addr >= 0x8000 {
        BusView { cartridge: b.cartridge.spec_cpu_write(addr, data), ..b }
    } else if addr <= RAM_ADDR_END {
        BusView { ram: b.ram.update((addr & RAM_MIRROR) as int, data), ..b }
    } else if addr <= 0x3FFF {
        let (p, c) = spec_cpu_write_next(b.ppu, b.cartridge, addr & 0x07, data);
        BusView { ppu: p, cartridge: c, ..b }
    } else if addr == DMA_ADDR {
        BusView { dma: Dma { page: data, addr: 0, transfer: true, ..b.dma }, ..b }
    } else if addr == CTRL_ADDR_START || addr == CTRL_ADDR_END {
        let which = (addr & 1) as int;
        BusView {
            controller_state: b.controller_state.update(which, b.controllers[which]),
            ..b
        }
    } else {
        b
    }
}

impl Bus {
    /// Well-formedness of the bus and every device on it.
    pub open spec fn inv(&self) -> bool {
        self@.inv()
    }

    /// A bus with a fresh PPU, zeroed RAM, idle controllers and DMA,
    /// and the given cartridge inserted.
    pub fn new(cartridge: Cartridge) -> (r: Bus)
        requires
            cartridge.inv(),
        ensures
            r.inv(),
            r@.cartridge == cartridge@,
            r@.ram == Seq::<u8>::new(RAM_SIZE as nat, |i: int| 0u8),
            r@.dma == (Dma { page: 0u8, addr: 0u8, data: 0u8, transfer: false, dummy: true }),
            r@.controllers[0].bits == 0,
            r@.controllers[1].bits == 0,
            r@.ppu.cycle == 0,
            r@.ppu.scanline == 0,
            !r@.ppu.nmi,
    {
        Bus {
            ppu: Ppu::new(),
            ram: Ram::new(RAM_SIZE),
            controllers: [Controller::empty(), Controller::empty()],
            controller_state: [Controller::empty(), Controller::empty()],
            cartridge,
            dma: Dma::new(),
        }
    }

    /// Replace the inserted cartridge.
    pub fn insert_cartridge(&mut self, cartridge: Cartridge)
        requires
            old(self).inv(),
            cartridge.inv(),
        ensures
            final(self).inv(),
            final(self)@ == (BusView { cartridge: cartridge@, ..old(self)@ }),
    {
        self.cartridge = cartridge;
    }

    /// Reset the PPU and the DMA engine; RAM, the cartridge and the
    /// controllers keep their state.
    pub fn reset(&mut self)
        requires
            old(self).inv(),
        ensures
            final(self).inv(),
            final(self)@.ram == old(self)@.ram,
            final(self)@.cartridge == old(self)@.cartridge,
            final(self)@.controllers == old(self)@.controllers,
            final(self)@.controller_state == old(self)@.controller_state,
            final(self)@.dma == (Dma { page: 0u8, addr: 0u8, data: 0u8, transfer: false, dummy: true }),
            final(self)@.ppu.cycle == 0,
            final(self)@.ppu.scanline == 0,
            final(self)@.ppu.vram_addr.0 == 0,
            final(self)@.ppu.tram_addr.0 == 0,
            final(self)@.ppu.address_latch == 0,
            final(self)@.ppu.fine_x == 0,
            final(self)@.ppu.oam == old(self)@.ppu.oam,
            final(self)@.ppu.nmi == old(self)@.ppu.nmi,
    {
        self.ppu.reset();
        self.dma = Dma::new();
    }

    /// A CPU write, routed to the device that owns the address.
    pub fn write(&mut self, addr: u16, data: u8)
        requires
            old(self).inv(),
        ensures
            final(self).inv(),
            final(self)@ == spec_bus_write_next(old(self)@, addr, data),
    {
        match self.cartridge.cpu_map_write(addr, data) {
            Some(_) => {},
            None => {
                if addr <= RAM_ADDR_END {
                    // mirrors every 2 KiB
                    proof {
                        lemma_u16_and_le(addr, RAM_MIRROR);
                    }
                    self.ram.write_mirrored(addr, data, RAM_MIRROR);
                } else if addr <= 0x3FFF {
                    // mirrors onto the eight PPU registers
                    self.ppu.cpu_write(addr & 0x07, data, &mut self.cartridge);
                } else if addr == DMA_ADDR {
                    self.dma.page = data;
                    self.dma.addr = 0x00;
                    self.dma.transfer = true;
                } else if addr == CTRL_ADDR_START || addr == CTRL_ADDR_END {
                    proof {
                        lemma_u16_and_le(addr, 1);
                    }
                    let which = (addr & 1) as usize;
                    self.controller_state[which] = self.controllers[which];
                } else {
                    // unmapped: the write is ignored
                }
            },
        }
        proof {
            crate::util::lemma_u16_and_idempotent(addr, 0x07);
            assert(self@ =~= spec_bus_write_next(old(self)@, addr, data));
        }
    }

    /// A CPU read, routed to the device that owns the address.
    /// Mutating: PPU and controller reads advance device state.
    pub fn read(&mut self, addr: u16) -> (r: u8)
        requires
            old(self).inv(),
        ensures
            final(self).inv(),
            r == spec_bus_read_result(old(self)@, addr),
            final(self)@ == spec_bus_read_next(old(self)@, addr),
    {
        let mut data: u8 = 0;
        match self.cartridge.cpu_map_read(addr) {
            Some(mapped) => {
                data = mapped;
            },
            None => {
                if addr <= RAM_ADDR_END {
                    data = self.ram.read_mirrored(addr, RAM_MIRROR);
                } else if addr <= 0x3FFF {
                    data = self.ppu.cpu_read(addr & 0x07, &self.cartridge);
                } else if addr == CTRL_ADDR_START || addr == CTRL_ADDR_END {
                    proof {
                        lemma_u16_and_le(addr, 1);
                    }
                    let which = (addr & 1) as usize;
                    data = if self.controller_state[which].bits & 0x80 != 0 {
                        1
                    } else {
                        0
                    };
                    let shifted = Controller {
                        bits: self.controller_state[which].bits << 1,
                    };
                    self.controller_state[which] = shifted;
                } else {
                    // unmapped: reads as zero
                }
            },
        }
        proof {
            crate::util::lemma_u16_and_idempotent(addr, 0x07);
            assert(self@ =~= spec_bus_read_next(old(self)@, addr));
        }
        data
    }

    /// One system-clock step of the DMA engine. Returns whether the
    /// engine consumed the CPU's tick: while a transfer runs, the
    /// engine first synchronises to an odd clock, then alternates
    /// reading a byte from CPU address space (even clocks) and writing
    /// it into the sprite table (odd clocks) until the page wraps.
    pub fn treat_dma_transfer(&mut self, clock_counter: u32) -> (r: bool)
        requires
            old(self).inv(),
        ensures
            final(self).inv(),
            r == old(self)@.dma.transfer,
            !old(self)@.dma.transfer ==> final(self)@ == old(self)@,
            old(self)@.dma.transfer && old(self)@.dma.dummy ==> final(self)@ == (BusView {
                dma: Dma {
                    dummy: !(clock_counter % 2 == 1),
                    ..old(self)@.dma
                },
                ..old(self)@
            }),
            old(self)@.dma.transfer && !old(self)@.dma.dummy && clock_counter % 2 == 0 ==> final(self)@ == (BusView {
                dma: Dma {
                    data: spec_bus_read_result(
                        old(self)@,
                        ((old(self)@.dma.page as u16) << 8) | (old(self)@.dma.addr as u16),
                    ),
                    ..old(self)@.dma
                },
                ..spec_bus_read_next(
                    old(self)@,
                    ((old(self)@.dma.page as u16) << 8) | (old(self)@.dma.addr as u16),
                )
            }),
            old(self)@.dma.transfer && !old(self)@.dma.dummy && clock_counter % 2 == 1 ==> final(self)@ == (BusView {
                ppu: PpuView {
                    oam: old(self)@.ppu.oam.update(
                        old(self)@.dma.addr as int,
                        old(self)@.dma.data,
                    ),
                    ..old(self)@.ppu
                },
                dma: Dma {
                    addr: (((old(self)@.dma.addr as int) + 1) % 256) as u8,
                    transfer: !(old(self)@.dma.addr == 255),
                    dummy: old(self)@.dma.addr == 255,
                    ..old(self)@.dma
                },
                ..old(self)@
            }),
    {
        if self.dma.transfer {
            if self.dma.dummy {
                if clock_counter % 2 == 1 {
                    // synchronised to an odd CPU cycle
                    self.dma.dummy = false;
                }
            } else if clock_counter % 2 == 0 {
                // even cycle: read from CPU address space
                let a: u16 = ((self.dma.page as u16) << 8) | (self.dma.addr as u16);
                let byte = self.read(a);
                self.dma.data = byte;
            } else {
                // odd cycle: write into the sprite table
                self.ppu.oam.set_byte(self.dma.addr, self.dma.data);
                self.dma.addr = if self.dma.addr == 255 {
                    0
                } else {
                    self.dma.addr + 1
                };
                if self.dma.addr == 0x00 {
                    // the page wrapped: the transfer is complete
                    self.dma.transfer = false;
                    self.dma.dummy = true;
                }
            }
            true
        } else {
            false
        }
    }
}

} // verus!
