//! Reading an operand through each addressing mode.
use crate::ricoh2a03::decode::Mode;
use crate::ricoh2a03::Ricoh2A03;
use vstd::prelude::*;

verus! {

impl Ricoh2A03 {
    /// Finds the operand of the given mode and reads it.
    pub fn load(&mut self, mode: Mode) -> (r: u8)
        requires
            old(self).wf(),
        ensures
            final(self).wf(),
            final(self)@ == old(self)@.load(mode).0,
            r == old(self)@.load(mode).1,
    {
        let at = self.operand(mode, false);
        self.read8(at)
    }

    /// Reads the byte that follows the opcode.
    pub fn load_imm(&mut self) -> (r: u8)
        requires
            old(self).wf(),
        ensures
            final(self).wf(),
            final(self)@ == old(self)@.load(Mode::Immediate).0,
            r == old(self)@.load(Mode::Immediate).1,
    {
        self.load(Mode::Immediate)
    }

    /// Reads a byte in page zero.
    pub fn load_zp(&mut self) -> (r: u8)
        requires
            old(self).wf(),
        ensures
            final(self).wf(),
            final(self)@ == old(self)@.load(Mode::ZeroPage).0,
            r == old(self)@.load(Mode::ZeroPage).1,
    {
        self.load(Mode::ZeroPage)
    }

    /// Reads a byte in page zero, indexed by X.
    pub fn load_zp_x(&mut self) -> (r: u8)
        requires
            old(self).wf(),
        ensures
            final(self).wf(),
            final(self)@ == old(self)@.load(Mode::ZeroPageX).0,
            r == old(self)@.load(Mode::ZeroPageX).1,
    {
        self.load(Mode::ZeroPageX)
    }

    /// Reads a byte in page zero, indexed by Y.
    pub fn load_zp_y(&mut self) -> (r: u8)
        requires
            old(self).wf(),
        ensures
            final(self).wf(),
            final(self)@ == old(self)@.load(Mode::ZeroPageY).0,
            r == old(self)@.load(Mode::ZeroPageY).1,
    {
        self.load(Mode::ZeroPageY)
    }

    /// Reads a byte at an absolute address.
    pub fn load_abs(&mut self) -> (r: u8)
        requires
            old(self).wf(),
        ensures
            final(self).wf(),
            final(self)@ == old(self)@.load(Mode::Absolute).0,
            r == old(self)@.load(Mode::Absolute).1,
    {
        self.load(Mode::Absolute)
    }

    /// Reads a byte at an absolute address plus X.
    pub fn load_abs_x(&mut self) -> (r: u8)
        requires
            old(self).wf(),
        ensures
            final(self).wf(),
            final(self)@ == old(self)@.load(Mode::AbsoluteX).0,
            r == old(self)@.load(Mode::AbsoluteX).1,
    {
        self.load(Mode::AbsoluteX)
    }

    /// Reads a byte at an absolute address plus Y.
    pub fn load_abs_y(&mut self) -> (r: u8)
        requires
            old(self).wf(),
        ensures
            final(self).wf(),
            final(self)@ == old(self)@.load(Mode::AbsoluteY).0,
            r == old(self)@.load(Mode::AbsoluteY).1,
    {
        self.load(Mode::AbsoluteY)
    }

    /// Reads a byte through a pointer in page zero at the operand plus X.
    pub fn load_ind_x(&mut self) -> (r: u8)
        requires
            old(self).wf(),
        ensures
            final(self).wf(),
            final(self)@ == old(self)@.load(Mode::IndirectX).0,
            r == old(self)@.load(Mode::IndirectX).1,
    {
        self.load(Mode::IndirectX)
    }

    /// Reads a byte through a pointer in page zero, plus Y.
    pub fn load_ind_y(&mut self) -> (r: u8)
        requires
            old(self).wf(),
        ensures
            final(self).wf(),
            final(self)@ == old(self)@.load(Mode::IndirectY).0,
            r == old(self)@.load(Mode::IndirectY).1,
    {
        self.load(Mode::IndirectY)
    }
}

} // verus!
