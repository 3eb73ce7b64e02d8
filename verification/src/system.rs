//! The console: a CPU (owning the bus and all devices) driven together
//! with the PPU on a fixed 1:3 clock ratio, with DMA stalls and
//! interrupt delivery.

use crate::bus::BusView;
use crate::cartridge::Cartridge;
use crate::controller::Controller;
use crate::cpu::{Cpu, CpuView};
use crate::ppu_render::spec_dot_ord;
use crate::screen::Screen;
use vstd::prelude::*;

verus! {

/// Number of PPU dots in one base NTSC frame.
pub const DOTS_PER_FRAME: u32 = 89342;

/// The emulated console.
#[derive(Clone, Debug)]
pub struct System {
    /// The CPU, which owns the bus, the PPU, and the cartridge.
    pub cpu: Cpu,
    /// Counts system clocks; the CPU runs on every third one.
    pub clock_counter: u32,
}

/// The mathematical state of the console.
#[verifier::ext_equal]
pub struct SystemView {
    /// The CPU and everything behind it.
    pub cpu: CpuView,
    /// The system clock counter.
    pub clock_counter: u32,
}

impl View for System {
    type V = SystemView;

    open spec fn view(&self) -> SystemView {
        SystemView { cpu: self.cpu@, clock_counter: self.clock_counter }
    }
}

impl System {
    /// Well-formedness of the whole console.
    pub open spec fn inv(&self) -> bool {
        self.cpu.inv()
    }

    /// The PPU's position within the frame.
    pub open spec fn spec_ord(&self) -> int {
        spec_dot_ord(self@.cpu.bus.ppu.scanline, self@.cpu.bus.ppu.cycle)
    }

    /// A console with the cartridge inserted, reset and ready to run.
    pub fn new(cartridge: Cartridge) -> (r: System)
        requires
            cartridge.inv(),
        ensures
            r.inv(),
            r@.clock_counter == 0,
            r@.cpu.bus.ppu.cycle == 0,
            r@.cpu.bus.ppu.scanline == 0,
            r@.cpu.bus.cartridge.program == cartridge@.program,
            r@.cpu.bus.cartridge.mirror == cartridge@.mirror,
            r@.cpu.data.cycles == 8,
            !r@.cpu.bus.dma.transfer,
    {
        let mut system = System { cpu: Cpu::new(cartridge), clock_counter: 0 };
        system.reset();
        system
    }

    /// The framebuffer.
    pub fn screen(&self) -> (r: &Screen)
        ensures
            r@ == self@.cpu.bus.ppu.screen,
    {
        self.cpu.bus.ppu.screen()
    }

    /// The live gamepad state.
    pub fn controllers(&self) -> (r: &[Controller; 2])
        ensures
            r@ == self@.cpu.bus.controllers,
    {
        &self.cpu.bus.controllers
    }

    /// Replace the live gamepad state for the coming frame.
    pub fn set_controllers(&mut self, controllers: [Controller; 2])
        requires
            old(self).inv(),
        ensures
            final(self).inv(),
            final(self)@ == (SystemView {
                cpu: CpuView {
                    bus: BusView { controllers: controllers@, ..old(self)@.cpu.bus },
                    ..old(self)@.cpu
                },
                ..old(self)@
            }),
    {
        self.cpu.bus.controllers = controllers;
    }

    /// One system clock: the PPU advances one dot; on every third
    /// clock either the DMA engine or the CPU takes the tick; a
    /// pending PPU interrupt is then delivered to the CPU.
    pub fn clock(&mut self)
        requires
            old(self).inv(),
        ensures
            final(self).inv(),
            final(self)@.clock_counter == (if old(self)@.clock_counter == 0xFFFFFFFF {
                0u32
            } else {
                (old(self)@.clock_counter + 1) as u32
            }),
            ({
                let o = spec_dot_ord(
                    old(self)@.cpu.bus.ppu.scanline,
                    old(self)@.cpu.bus.ppu.cycle,
                );
                let n = spec_dot_ord(
                    final(self)@.cpu.bus.ppu.scanline,
                    final(self)@.cpu.bus.ppu.cycle,
                );
                if old(self)@.cpu.bus.ppu.scanline == 0 && old(self)@.cpu.bus.ppu.cycle == 0 {
                    n == o + 2
                } else if o == 89341 {
                    n == 0
                } else {
                    n == o + 1
                }
            }),
            final(self)@.cpu.bus.ppu.frame_complete == (spec_dot_ord(
                old(self)@.cpu.bus.ppu.scanline,
                old(self)@.cpu.bus.ppu.cycle,
            ) == 89341),
            !final(self)@.cpu.bus.ppu.nmi,
            ({
                let raised = old(self)@.cpu.bus.ppu.nmi || (old(self)@.cpu.bus.ppu.scanline == 241
                    && old(self)@.cpu.bus.ppu.cycle == 1
                    && old(self)@.cpu.bus.ppu.control.enable_nmi);
                old(self)@.cpu.bus.dma.transfer && !raised ==> final(self)@.cpu.pc == old(
                    self,
                )@.cpu.pc
            }),
            ({
                let raised = old(self)@.cpu.bus.ppu.nmi || (old(self)@.cpu.bus.ppu.scanline == 241
                    && old(self)@.cpu.bus.ppu.cycle == 1
                    && old(self)@.cpu.bus.ppu.control.enable_nmi);
                // a raised interrupt is delivered within the same tick:
                // the CPU enters its handler stall with interrupts off
                raised ==> final(self)@.cpu.data.cycles == 8 && final(self)@.cpu.status.i
            }),
    {
        // the PPU borrows the cartridge for its own bus
        self.cpu.bus.ppu.clock(&self.cpu.bus.cartridge);

        if self.clock_counter % 3 == 0 {
            // it may be the CPU's turn, unless a DMA transfer holds it
            let counter = self.clock_counter;
            self.tick_cpu_or_dma(counter);
        }

        if self.cpu.bus.ppu.interrupt_sent() {
            // drawing finished: hand the frame interrupt to the CPU
            self.cpu.bus.ppu.interrupt_done();
            self.cpu.nmi();
        }

        self.clock_counter = if self.clock_counter == 0xFFFFFFFF {
            0
        } else {
            self.clock_counter + 1
        };
    }

    /// Give the third tick to the DMA engine when a transfer runs,
    /// and to the CPU otherwise.
    fn tick_cpu_or_dma(&mut self, counter: u32)
        requires
            old(self).inv(),
        ensures
            final(self).inv(),
            final(self)@.cpu.bus.ppu.cycle == old(self)@.cpu.bus.ppu.cycle,
            final(self)@.cpu.bus.ppu.scanline == old(self)@.cpu.bus.ppu.scanline,
            final(self)@.cpu.bus.ppu.frame_complete == old(self)@.cpu.bus.ppu.frame_complete,
            final(self)@.cpu.bus.ppu.nmi == old(self)@.cpu.bus.ppu.nmi,
            old(self)@.cpu.bus.dma.transfer ==> final(self)@.cpu.pc == old(self)@.cpu.pc,
            final(self)@.clock_counter == old(self)@.clock_counter,
    {
        let dma_treated = self.cpu.bus.treat_dma_transfer(counter);
        if !dma_treated {
            self.cpu.clock();
        }
    }

    /// Run system clocks until the PPU reports a finished frame, then
    /// hand out the stable draw buffer. One frame is bounded: at most
    /// 89342 dots are produced before the frame completes.
    pub fn next_frame(&mut self) -> (r: &Screen)
        requires
            old(self).inv(),
        ensures
            final(self).inv(),
            r@ == final(self)@.cpu.bus.ppu.screen,
            !final(self)@.cpu.bus.ppu.frame_complete,
    {
        loop
            invariant
                self.inv(),
            ensures
                self.inv(),
                !self.cpu.bus.ppu.frame_complete,
            decreases (if self.cpu.bus.ppu.frame_complete {
                0int
            } else {
                89342 - spec_dot_ord(self@.cpu.bus.ppu.scanline, self@.cpu.bus.ppu.cycle)
            }),
        {
            let ready = self.cpu.bus.ppu.screen_ready();
            if ready {
                break ;
            }
            self.clock();
        }
        self.screen()
    }

    /// Reset the CPU, the bus devices and the clock counter.
    pub fn reset(&mut self)
        requires
            old(self).inv(),
        ensures
            final(self).inv(),
            final(self)@.clock_counter == 0,
            final(self)@.cpu.bus.ppu.cycle == 0,
            final(self)@.cpu.bus.ppu.scanline == 0,
            final(self)@.cpu.a == 0,
            final(self)@.cpu.x == 0,
            final(self)@.cpu.y == 0,
            final(self)@.cpu.stkp == 0xFD,
            final(self)@.cpu.data.cycles == 8,
            !final(self)@.cpu.bus.dma.transfer,
            final(self)@.cpu.bus.cartridge == old(self)@.cpu.bus.cartridge,
            final(self)@.cpu.bus.ram == old(self)@.cpu.bus.ram,
    {
        self.cpu.reset();
        self.cpu.bus.reset();
        self.clock_counter = 0;
    }
}

} // verus!
