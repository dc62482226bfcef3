//! The processor's address bus: 2 KiB of work RAM, the registers of the
//! picture unit, the sprite DMA port, the controller port and the cartridge.
//!
//! The bus is also the console's clock: one [`Bus::tick`] is one processor
//! cycle, and moves the picture unit on by three dots.
use crate::controller::{Button, Controller, ControllerView, CONTROLLER_ADDRESS};
use crate::mapper::MapperView;
use crate::memory::{zeroed, zeros};
use crate::ricoh2c02::model::PpuView;
use crate::ricoh2c02::registers::{PPU_CTRL, PPU_END, PPU_OAMDATA, PPU_START};
use crate::ricoh2c02::Ricoh2C02;
use vstd::prelude::*;

verus! {

/// Size of the work RAM, which repeats four times below 0x2000.
pub const RAM_SIZE: usize = 0x800;

/// The port that starts a sprite DMA.
pub const OAM_DMA: u16 = 0x4014;

/// The bus, owning the devices on it. The cartridge is reached through the
/// picture unit, which holds it.
pub struct Bus {
    controller: Controller,
    ppu: Ricoh2C02,
    ram: Vec<u8>,
    cycles: u64,
}

/// The mathematical content of a [`Bus`] and of all that hangs on it.
pub struct BusView {
    pub controller: ControllerView,
    pub ppu: PpuView,
    pub ram: Seq<u8>,
    /// Processor cycles since power-on, modulo 2^64.
    pub cycles: u64,
}

/// The register of the picture unit that a processor address reaches.
pub open spec fn ppu_register(address: u16) -> u16 {
    (PPU_CTRL + address % 8) as u16
}

impl BusView {
    /// The picture unit is well formed and the work RAM has its size.
    pub open spec fn wf(self) -> bool {
        &&& self.ppu.wf()
        &&& self.ram.len() == RAM_SIZE
    }

    /// The bus at power-on.
    pub open spec fn init(ppu: PpuView) -> BusView {
        BusView { controller: ControllerView::init(), ppu, ram: zeros(RAM_SIZE as nat), cycles: 0 }
    }

    /// One processor cycle: three dots of the picture unit.
    pub open spec fn tick(self) -> BusView {
        BusView {
            ppu: self.ppu.tick().tick().tick(),
            cycles: self.cycles.wrapping_add(1),
            ..self
        }
    }

    /// The byte that a read of `address` returns.
    pub open spec fn read_value(self, address: u16) -> u8 {
        if address < PPU_START {
            self.ram[(address % 0x800) as int]
        } else if address <= PPU_END {
            self.ppu.io_read_value(ppu_register(address))
        } else if address == CONTROLLER_ADDRESS {
            self.controller.read_value()
        } else if MapperView::in_range(address) {
            self.ppu.mapper.read_prg(address)
        } else {
            0
        }
    }

    /// The bus after a read of `address`: reads of the picture unit's
    /// registers and of the controller port leave their marks there.
    pub open spec fn read(self, address: u16) -> BusView {
        if PPU_START <= address <= PPU_END {
            BusView { ppu: self.ppu.io_read(ppu_register(address)), ..self }
        } else if address == CONTROLLER_ADDRESS {
            BusView { controller: self.controller.after_read(), ..self }
        } else {
            self
        }
    }

    /// The bus after byte `i` of a sprite DMA from `page`: one cycle to read
    /// the byte, one to write it to the sprite memory port.
    #[verifier::opaque]
    pub open spec fn dma_step(self, page: u8, i: int) -> BusView {
        let address = (page * 256 + i) as u16;
        let fetched = self.tick();
        let value = fetched.read_value(address);
        let ready = fetched.read(address).tick();
        BusView { ppu: ready.ppu.io_write(PPU_OAMDATA, value), ..ready }
    }

    /// The bus after bytes `i` to 255 of a sprite DMA from `page`.
    pub open spec fn dma_copy(self, page: u8, i: int) -> BusView
        decreases 256 - i,
    {
        if i >= 256 {
            self
        } else {
            self.dma_step(page, i).dma_copy(page, i + 1)
        }
    }

    /// The bus after a sprite DMA from `page`: one idle cycle, one more when
    /// the transfer starts on an odd cycle, then the 256 bytes.
    pub open spec fn dma(self, page: u8) -> BusView {
        if self.cycles % 2 == 1 {
            self.tick().tick().dma_copy(page, 0)
        } else {
            self.tick().dma_copy(page, 0)
        }
    }

    /// The bus after a write of `value` to `address`. The ports that are not
    /// modelled swallow the write.
    pub open spec fn write(self, address: u16, value: u8) -> BusView {
        if address < PPU_START {
            BusView { ram: self.ram.update((address % 0x800) as int, value), ..self }
        } else if address <= PPU_END {
            BusView { ppu: self.ppu.io_write(ppu_register(address), value), ..self }
        } else if MapperView::in_range(address) {
            BusView {
                ppu: PpuView { mapper: self.ppu.mapper.write_prg(address, value), ..self.ppu },
                ..self
            }
        } else if address == CONTROLLER_ADDRESS {
            BusView { controller: self.controller.io_write(value), ..self }
        } else if address == OAM_DMA {
            self.dma(value)
        } else {
            self
        }
    }

    /// The bus after a completed frame was asked for.
    pub open spec fn take_redraw(self) -> BusView {
        BusView { ppu: self.ppu.take_redraw(), ..self }
    }

    /// The bus after a pending interrupt was asked for.
    pub open spec fn take_nmi(self) -> BusView {
        BusView { ppu: self.ppu.take_nmi(), ..self }
    }

    pub open spec fn set_button(self, button: Button, pressed: bool) -> BusView {
        BusView { controller: self.controller.set_button(button, pressed), ..self }
    }

    pub open spec fn set_buttons(self, state: u8) -> BusView {
        BusView { controller: self.controller.set_buttons(state), ..self }
    }
}

impl View for Bus {
    type V = BusView;

    closed spec fn view(&self) -> BusView {
        BusView {
            controller: self.controller@,
            ppu: self.ppu@,
            ram: self.ram@,
            cycles: self.cycles,
        }
    }
}

impl Bus {
    pub open spec fn wf(&self) -> bool {
        self@.wf()
    }

    /// A bus with cleared work RAM and a released controller around a picture
    /// unit and the cartridge that it holds.
    pub fn new(ppu: Ricoh2C02) -> (r: Bus)
        requires
            ppu.wf(),
        ensures
            r.wf(),
            r@ == BusView::init(ppu@),
    {
        Bus { controller: Controller::new(), ppu, ram: zeroed(RAM_SIZE), cycles: 0 }
    }

    /// The frame as RGB24: 240 rows of 256 pixels, three bytes each.
    pub fn draw_screen(&self) -> (r: Vec<u8>)
        requires
            self.wf(),
        ensures
            r@ == self@.ppu.screen_rgb(),
    {
        self.ppu.draw_screen()
    }

    /// Processor cycles since power-on, modulo 2^64.
    pub fn cycles(&self) -> (r: u64)
        ensures
            r == self@.cycles,
    {
        self.cycles
    }

    /// Reads the byte at `address`, without spending a cycle.
    pub fn read(&mut self, address: u16) -> (r: u8)
        requires
            old(self).wf(),
        ensures
            final(self).wf(),
            r == old(self)@.read_value(address),
            final(self)@ == old(self)@.read(address),
    {
        if address < PPU_START {
            return self.ram[address as usize % RAM_SIZE];
        }
        if self.ppu.in_range(address) {
            return self.ppu.io_read(PPU_CTRL + (address % 8));
        }
        if self.controller.in_range(address) {
            return self.controller.io_read();
        }
        if self.ppu.mapper_in_range(address) {
            return self.ppu.mapper_read_prg(address);
        }
        0
    }

    /// Presses or releases one button of the controller.
    pub fn set_button(&mut self, button: Button, state: bool)
        requires
            old(self).wf(),
        ensures
            final(self).wf(),
            final(self)@ == old(self)@.set_button(button, state),
    {
        self.controller.set_button(button, state);
    }

    /// Replaces the state of all eight buttons of the controller.
    pub fn set_buttons(&mut self, state: u8)
        requires
            old(self).wf(),
        ensures
            final(self).wf(),
            final(self)@ == old(self)@.set_buttons(state),
    {
        self.controller.set_buttons(state);
    }

    /// Whether a frame has been completed since this was last asked.
    pub fn should_redraw(&mut self) -> (r: bool)
        requires
            old(self).wf(),
        ensures
            final(self).wf(),
            r == old(self)@.ppu.regs.redraw,
            final(self)@ == old(self)@.take_redraw(),
    {
        self.ppu.should_redraw()
    }

    /// Whether the picture unit has raised an interrupt since this was last
    /// asked.
    pub fn should_nmi(&mut self) -> (r: bool)
        requires
            old(self).wf(),
        ensures
            final(self).wf(),
            r == old(self)@.ppu.regs.should_nmi,
            final(self)@ == old(self)@.take_nmi(),
    {
        self.ppu.should_nmi()
    }

    /// Spends one processor cycle.
    pub fn tick(&mut self)
        requires
            old(self).wf(),
        ensures
            final(self).wf(),
            final(self)@ == old(self)@.tick(),
    {
        self.ppu.tick();
        self.ppu.tick();
        self.ppu.tick();
        self.cycles = self.cycles.wrapping_add(1);
    }

    fn dma_step(&mut self, page: u8, i: u16)
        requires
            old(self).wf(),
            i < 256,
        ensures
            final(self).wf(),
            final(self)@ == old(self)@.dma_step(page, i as int),
    {
        proof {
            reveal(BusView::dma_step);
        }
        let transfer_address: u16 = ((page as u16) * 256) + i;
        self.tick();
        let data = self.read(transfer_address);
        self.tick();
        self.ppu.io_write(PPU_OAMDATA, data);
    }

    fn dma(&mut self, page: u8)
        requires
            old(self).wf(),
        ensures
            final(self).wf(),
            final(self)@ == old(self)@.dma(page),
    {
        let odd = self.cycles % 2 == 1;
        self.tick();
        if odd {
            self.tick();
        }
        let ghost start = self@;
        let mut i: u16 = 0;
        while i < 256
            invariant
                self.wf(),
                i <= 256,
                self@.dma_copy(page, i as int) == start.dma_copy(page, 0),
            decreases 256 - i,
        {
            self.dma_step(page, i);
            i += 1;
        }
    }

    /// Writes `value` to `address`, without spending a cycle of its own. A
    /// write to the DMA port stalls for the 513 or 514 cycles of the
    /// transfer.
    pub fn write(&mut self, address: u16, value: u8)
        requires
            old(self).wf(),
        ensures
            final(self).wf(),
            final(self)@ == old(self)@.write(address, value),
    {
        if address < PPU_START {
            self.ram[address as usize % RAM_SIZE] = value;
            return ;
        }
        if self.ppu.in_range(address) {
            self.ppu.io_write(PPU_CTRL + (address % 8), value);
            return ;
        }
        if self.ppu.mapper_in_range(address) {
            self.ppu.mapper_write_prg(address, value);
            return ;
        }
        if self.controller.in_range(address) {
            self.controller.io_write(value);
            return ;
        }
        if address == OAM_DMA {
            self.dma(value);
        }
    }
}

} // verus!
