//! Writing an operand through each addressing mode.
use crate::ricoh2a03::decode::Mode;
use crate::ricoh2a03::Ricoh2A03;
use vstd::prelude::*;

verus! {

impl Ricoh2A03 {
    /// Finds the operand of the given mode and writes `value` to it.
    pub fn store(&mut self, mode: Mode, value: u8)
        requires
            old(self).wf(),
        ensures
            final(self).wf(),
            final(self)@ == old(self)@.store(mode, value),
    {
        let at = self.operand(mode, true);
        self.write8(at, value);
    }

    /// Writes a byte in page zero.
    pub fn store_zp(&mut self, value: u8)
        requires
            old(self).wf(),
        ensures
            final(self).wf(),
            final(self)@ == old(self)@.store(Mode::ZeroPage, value),
    {
        self.store(Mode::ZeroPage, value);
    }

    /// Writes a byte in page zero, indexed by X.
    pub fn store_zp_x(&mut self, value: u8)
        requires
            old(self).wf(),
        ensures
            final(self).wf(),
            final(self)@ == old(self)@.store(Mode::ZeroPageX, value),
    {
        self.store(Mode::ZeroPageX, value);
    }

    /// Writes a byte in page zero, indexed by Y.
    pub fn store_zp_y(&mut self, value: u8)
        requires
            old(self).wf(),
        ensures
            final(self).wf(),
            final(self)@ == old(self)@.store(Mode::ZeroPageY, value),
    {
        self.store(Mode::ZeroPageY, value);
    }

    /// Writes a byte at an absolute address.
    pub fn store_abs(&mut self, value: u8)
        requires
            old(self).wf(),
        ensures
            final(self).wf(),
            final(self)@ == old(self)@.store(Mode::Absolute, value),
    {
        self.store(Mode::Absolute, value);
    }

    /// Writes a byte at an absolute address plus X.
    pub fn store_abs_x(&mut self, value: u8)
        requires
            old(self).wf(),
        ensures
            final(self).wf(),
            final(self)@ == old(self)@.store(Mode::AbsoluteX, value),
    {
        self.store(Mode::AbsoluteX, value);
    }

    /// Writes a byte at an absolute address plus Y.
    pub fn store_abs_y(&mut self, value: u8)
        requires
            old(self).wf(),
        ensures
            final(self).wf(),
            final(self)@ == old(self)@.store(Mode::AbsoluteY, value),
    {
        self.store(Mode::AbsoluteY, value);
    }

    /// Writes a byte through a pointer in page zero at the operand plus X.
    pub fn store_ind_x(&mut self, value: u8)
        requires
            old(self).wf(),
        ensures
            final(self).wf(),
            final(self)@ == old(self)@.store(Mode::IndirectX, value),
    {
        self.store(Mode::IndirectX, value);
    }

    /// Writes a byte through a pointer in page zero, plus Y.
    pub fn store_ind_y(&mut self, value: u8)
        requires
            old(self).wf(),
        ensures
            final(self).wf(),
            final(self)@ == old(self)@.store(Mode::IndirectY, value),
    {
        self.store(Mode::IndirectY, value);
    }
}

} // verus!
