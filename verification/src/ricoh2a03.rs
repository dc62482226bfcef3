//! The 2A03 processor.
//!
//! [`Ricoh2A03::step`] runs one instruction; every access that it makes to
//! the bus spends one cycle there first. What each operation does is defined
//! on the processor's view, in [`model`].
pub mod alu;
pub mod decode;
pub mod instructions;
pub mod lemmas;
pub mod load;
pub mod model;
pub mod status;
pub mod store;
pub mod timing;

use crate::bus::Bus;
use crate::controller::Button;
use crate::ricoh2a03::alu::{crosses_page, Registers};
use crate::ricoh2a03::decode::Mode;
use crate::ricoh2a03::model::{CpuView, STACK_PAGE};
use crate::ricoh2a03::status::Status;
use vstd::prelude::*;

verus! {

/// The processor, owning the bus and all that hangs on it.
pub struct Ricoh2A03 {
    regs: Registers,
    bus: Bus,
    strict: bool,
}

impl View for Ricoh2A03 {
    type V = CpuView;

    closed spec fn view(&self) -> CpuView {
        CpuView { regs: self.regs, bus: self.bus@, strict: self.strict }
    }
}

impl Ricoh2A03 {
    pub open spec fn wf(&self) -> bool {
        self@.wf()
    }

    /// A processor on a bus, as a reset signal leaves it. The reset sequence
    /// itself has not run yet: see [`Ricoh2A03::reset`].
    pub fn new(bus: Bus) -> (r: Ricoh2A03)
        requires
            bus.wf(),
        ensures
            r.wf(),
            r@ == CpuView::init(bus@),
    {
        Ricoh2A03 {
            regs: Registers { pc: 0xc000, a: 0, x: 0, y: 0, s: 0xfd, p: Status::new() },
            bus,
            strict: false,
        }
    }

    /// Chooses whether an opcode that is not implemented stops the run.
    pub fn set_strict(&mut self, strict: bool)
        ensures
            final(self)@ == (CpuView { strict, ..old(self)@ }),
    {
        self.strict = strict;
    }

    /// The registers as they stand.
    pub fn registers(&self) -> (r: Registers)
        ensures
            r == self@.regs,
    {
        self.regs
    }

    /// Replaces the registers, as a debugger or a test harness does.
    pub fn set_registers(&mut self, regs: Registers)
        ensures
            final(self)@ == old(self)@.with_regs(regs),
    {
        self.regs = regs;
    }

    /// Processor cycles since power-on, modulo 2^64.
    pub fn cycles(&self) -> (r: u64)
        ensures
            r == self@.bus.cycles,
    {
        self.bus.cycles()
    }

    /// Whether adding `b` to `a` changes the high byte.
    pub fn cross(&self, a: u16, b: u16) -> (r: bool)
        ensures
            r == crosses_page(a, b),
    {
        (a.wrapping_add(b)) & 0xff00 != a & 0xff00
    }

    /// The frame as RGB24: 240 rows of 256 pixels, three bytes each.
    pub fn draw_screen(&self) -> (r: Vec<u8>)
        requires
            self.wf(),
        ensures
            r@ == self@.bus.ppu.screen_rgb(),
    {
        self.bus.draw_screen()
    }

    /// Whether a frame has been completed since this was last asked.
    pub fn should_redraw(&mut self) -> (r: bool)
        requires
            old(self).wf(),
        ensures
            final(self).wf(),
            r == old(self)@.bus.ppu.regs.redraw,
            final(self)@ == old(self)@.with_bus(old(self)@.bus.take_redraw()),
    {
        self.bus.should_redraw()
    }

    /// Whether the picture unit has raised an interrupt since this was last
    /// asked.
    pub fn should_nmi(&mut self) -> (r: bool)
        requires
            old(self).wf(),
        ensures
            final(self).wf(),
            r == old(self)@.bus.ppu.regs.should_nmi,
            final(self)@ == old(self)@.with_bus(old(self)@.bus.take_nmi()),
    {
        self.bus.should_nmi()
    }

    /// No device on this bus raises the maskable interrupt.
    pub fn should_irq(&mut self) -> (r: bool)
        ensures
            !r,
            final(self)@ == old(self)@,
    {
        false
    }

    /// Presses or releases one button of the controller.
    pub fn set_button(&mut self, button: Button, state: bool)
        requires
            old(self).wf(),
        ensures
            final(self).wf(),
            final(self)@ == old(self)@.with_bus(old(self)@.bus.set_button(button, state)),
    {
        self.bus.set_button(button, state);
    }

    /// Replaces the state of all eight buttons of the controller.
    pub fn set_buttons(&mut self, state: u8)
        requires
            old(self).wf(),
        ensures
            final(self).wf(),
            final(self)@ == old(self)@.with_bus(old(self)@.bus.set_buttons(state)),
    {
        self.bus.set_buttons(state);
    }

    /// Sets N and Z from a result.
    pub fn set_nz(&mut self, value: u8)
        ensures
            final(self)@ == old(self)@.with_regs(old(self)@.regs.with_nz(value)),
    {
        self.regs = self.regs.set_nz(value);
    }

    // ----- the bus -----

    /// Spends one cycle without an access to the bus.
    pub fn tick(&mut self)
        requires
            old(self).wf(),
        ensures
            final(self).wf(),
            final(self)@ == old(self)@.tick(),
    {
        self.bus.tick();
    }

    /// Spends one cycle and reads a byte.
    pub fn read8(&mut self, address: u16) -> (r: u8)
        requires
            old(self).wf(),
        ensures
            final(self).wf(),
            final(self)@ == old(self)@.read8(address).0,
            r == old(self)@.read8(address).1,
    {
        self.tick();
        self.bus.read(address)
    }

    /// Spends one cycle and writes a byte.
    pub fn write8(&mut self, address: u16, value: u8)
        requires
            old(self).wf(),
        ensures
            final(self).wf(),
            final(self)@ == old(self)@.write8(address, value),
    {
        self.tick();
        self.bus.write(address, value)
    }

    /// Reads a word whose low byte is at `address1` and whose high byte is at
    /// `address2`: two cycles.
    pub fn read16_d(&mut self, address1: u16, address2: u16) -> (r: u16)
        requires
            old(self).wf(),
        ensures
            final(self).wf(),
            final(self)@ == old(self)@.read16_d(address1, address2).0,
            r == old(self)@.read16_d(address1, address2).1,
    {
        let lo = self.read8(address1);
        let hi = self.read8(address2);
        (lo as u16) | ((hi as u16) << 8)
    }

    /// Reads the word at `address`: two cycles.
    pub fn read16(&mut self, address: u16) -> (r: u16)
        requires
            old(self).wf(),
        ensures
            final(self).wf(),
            final(self)@ == old(self)@.read16(address).0,
            r == old(self)@.read16(address).1,
    {
        self.read16_d(address, address.wrapping_add(1))
    }

    // ----- the stack -----

    /// Pulls a byte from the stack.
    pub fn pop8(&mut self) -> (r: u8)
        requires
            old(self).wf(),
        ensures
            final(self).wf(),
            final(self)@ == old(self)@.pop8().0,
            r == old(self)@.pop8().1,
    {
        let s = self.regs.s.wrapping_add(1);
        self.regs.s = s;
        self.read8(STACK_PAGE + (s as u16))
    }

    /// Pulls a word from the stack, low byte first.
    pub fn pop16(&mut self) -> (r: u16)
        requires
            old(self).wf(),
        ensures
            final(self).wf(),
            final(self)@ == old(self)@.pop16().0,
            r == old(self)@.pop16().1,
    {
        let lo = self.pop8();
        let hi = self.pop8();
        (lo as u16) | ((hi as u16) << 8)
    }

    /// Pushes a byte onto the stack.
    pub fn push8(&mut self, value: u8)
        requires
            old(self).wf(),
        ensures
            final(self).wf(),
            final(self)@ == old(self)@.push8(value),
    {
        let s = self.regs.s;
        self.write8(STACK_PAGE + (s as u16), value);
        self.regs.s = s.wrapping_sub(1);
    }

    /// Pushes a word onto the stack, high byte first.
    pub fn push16(&mut self, value: u16)
        requires
            old(self).wf(),
        ensures
            final(self).wf(),
            final(self)@ == old(self)@.push16(value),
    {
        self.push8((value >> 8) as u8);
        self.push8((value & 0xff) as u8);
    }

    // ----- addressing -----

    /// Immediate: the operand is the byte at the program counter, which moves
    /// past it.
    pub fn imm(&mut self) -> (r: u16)
        ensures
            final(self)@ == old(self)@.imm().0,
            r == old(self)@.imm().1,
    {
        let pc = self.regs.pc;
        self.regs.pc = pc.wrapping_add(1);
        pc
    }

    /// The same for an operand of two bytes.
    pub fn imm16(&mut self) -> (r: u16)
        ensures
            final(self)@ == old(self)@.imm16().0,
            r == old(self)@.imm16().1,
    {
        let pc = self.regs.pc;
        self.regs.pc = pc.wrapping_add(2);
        pc
    }

    /// Zero page.
    pub fn zp(&mut self) -> (r: u16)
        requires
            old(self).wf(),
        ensures
            final(self).wf(),
            final(self)@ == old(self)@.zp().0,
            r == old(self)@.zp().1,
    {
        let imm = self.imm();
        self.read8(imm) as u16
    }

    /// Zero page indexed by X.
    pub fn zpx(&mut self) -> (r: u16)
        requires
            old(self).wf(),
        ensures
            final(self).wf(),
            final(self)@ == old(self)@.zpx().0,
            r == old(self)@.zpx().1,
    {
        let x = self.regs.x;
        self.tick();
        let base = self.zp();
        base.wrapping_add(x as u16) % 0x100
    }

    /// Zero page indexed by Y.
    pub fn zpy(&mut self) -> (r: u16)
        requires
            old(self).wf(),
        ensures
            final(self).wf(),
            final(self)@ == old(self)@.zpy().0,
            r == old(self)@.zpy().1,
    {
        let y = self.regs.y;
        self.tick();
        let base = self.zp();
        base.wrapping_add(y as u16) % 0x100
    }

    /// Absolute.
    pub fn abs(&mut self) -> (r: u16)
        requires
            old(self).wf(),
        ensures
            final(self).wf(),
            final(self)@ == old(self)@.abs().0,
            r == old(self)@.abs().1,
    {
        let imm = self.imm16();
        self.read16(imm)
    }

    fn abs_indexed(&mut self, index: u8) -> (r: u16)
        requires
            old(self).wf(),
        ensures
            final(self).wf(),
            final(self)@ == old(self)@.abs_indexed(index).0,
            r == old(self)@.abs_indexed(index).1,
    {
        let base = self.abs();
        if self.cross(base, index as u16) {
            self.tick();
        }
        base.wrapping_add(index as u16)
    }

    fn abs_indexed_fixed(&mut self, index: u8) -> (r: u16)
        requires
            old(self).wf(),
        ensures
            final(self).wf(),
            final(self)@ == old(self)@.abs_indexed_fixed(index).0,
            r == old(self)@.abs_indexed_fixed(index).1,
    {
        self.tick();
        let base = self.abs();
        base.wrapping_add(index as u16)
    }

    /// Absolute indexed by X, for a read.
    pub fn absx(&mut self) -> (r: u16)
        requires
            old(self).wf(),
        ensures
            final(self).wf(),
            final(self)@ == old(self)@.abs_indexed(old(self)@.regs.x).0,
            r == old(self)@.abs_indexed(old(self)@.regs.x).1,
    {
        self.abs_indexed(self.regs.x)
    }

    /// Absolute indexed by Y, for a read.
    pub fn absy(&mut self) -> (r: u16)
        requires
            old(self).wf(),
        ensures
            final(self).wf(),
            final(self)@ == old(self)@.abs_indexed(old(self)@.regs.y).0,
            r == old(self)@.abs_indexed(old(self)@.regs.y).1,
    {
        self.abs_indexed(self.regs.y)
    }

    /// Indexed indirect: through the pointer in page zero at the operand byte
    /// plus X.
    pub fn indx(&mut self) -> (r: u16)
        requires
            old(self).wf(),
        ensures
            final(self).wf(),
            final(self)@ == old(self)@.indx().0,
            r == old(self)@.indx().1,
    {
        let i = self.zpx();
        self.read16_d(i, i.wrapping_add(1) % 0x100)
    }

    /// Indirect indexed, for a read: through the pointer in page zero at the
    /// operand byte, plus Y.
    pub fn indy(&mut self) -> (r: u16)
        requires
            old(self).wf(),
        ensures
            final(self).wf(),
            final(self)@ == old(self)@.indy().0,
            r == old(self)@.indy().1,
    {
        let y = self.regs.y as u16;
        let i = self.zp();
        let base = self.read16_d(i, i.wrapping_add(1) % 0x100);
        if self.cross(base, y) {
            self.tick();
        }
        base.wrapping_add(y)
    }

    fn indy_fixed(&mut self) -> (r: u16)
        requires
            old(self).wf(),
        ensures
            final(self).wf(),
            final(self)@ == old(self)@.indy_fixed().0,
            r == old(self)@.indy_fixed().1,
    {
        let y = self.regs.y as u16;
        self.tick();
        let i = self.zp();
        let base = self.read16_d(i, i.wrapping_add(1) % 0x100);
        base.wrapping_add(y)
    }

    /// Works out the address of an instruction's operand.
    pub fn operand(&mut self, mode: Mode, fixed: bool) -> (r: u16)
        requires
            old(self).wf(),
        ensures
            final(self).wf(),
            final(self)@ == old(self)@.operand(mode, fixed).0,
            r == old(self)@.operand(mode, fixed).1,
    {
        match mode {
            Mode::Immediate => self.imm(),
            Mode::ZeroPage => self.zp(),
            Mode::ZeroPageX => self.zpx(),
            Mode::ZeroPageY => self.zpy(),
            Mode::Absolute => self.abs(),
            Mode::AbsoluteX => if fixed {
                self.abs_indexed_fixed(self.regs.x)
            } else {
                self.abs_indexed(self.regs.x)
            },
            Mode::AbsoluteY => if fixed {
                self.abs_indexed_fixed(self.regs.y)
            } else {
                self.abs_indexed(self.regs.y)
            },
            Mode::IndirectX => self.indx(),
            Mode::IndirectY => if fixed {
                self.indy_fixed()
            } else {
                self.indy()
            },
        }
    }
}

} // verus!
