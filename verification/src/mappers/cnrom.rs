//! CNROM: fixed program ROM and a switchable 8 KiB pattern bank.
use crate::rom::{MirrorMode, Rom, RomView};
use vstd::prelude::*;

verus! {

/// A cartridge on a CNROM board.
pub struct Cnrom {
    rom: Rom,
    chr_bank: u8,
}

/// The mathematical content of a [`Cnrom`] board.
pub struct CnromView {
    pub rom: RomView,
    pub chr_bank: u8,
}

impl CnromView {
    pub open spec fn wf(self) -> bool {
        self.rom.wf()
    }

    pub open spec fn init(rom: RomView) -> CnromView {
        CnromView { rom, chr_bank: 0 }
    }

    pub open spec fn in_range(address: u16) -> bool {
        address >= 0x4020
    }

    pub open spec fn mirroring(self) -> MirrorMode {
        self.rom.mirroring()
    }

    /// The byte at `address` within the selected pattern bank.
    pub open spec fn read_chr(self, address: u16) -> u8 {
        self.rom.read_chr(self.chr_bank * 8192 + address)
    }

    /// 0xff below 0x8000; above, the program ROM repeated over the window.
    pub open spec fn read_prg(self, address: u16) -> u8 {
        if address < 0x8000 || self.rom.prg_banks() == 0 {
            0xff
        } else {
            self.rom.read_prg((address - 0x8000) % (16384 * self.rom.prg_banks()))
        }
    }

    pub open spec fn write_chr(self, address: u16, value: u8) -> CnromView {
        self
    }

    /// A write anywhere in the ROM window selects the pattern bank by its
    /// two low bits.
    pub open spec fn write_prg(self, address: u16, value: u8) -> CnromView {
        if address >= 0x8000 {
            CnromView { chr_bank: value & 0x03, ..self }
        } else {
            self
        }
    }
}

impl View for Cnrom {
    type V = CnromView;

    closed spec fn view(&self) -> CnromView {
        CnromView { rom: self.rom@, chr_bank: self.chr_bank }
    }
}

impl Cnrom {
    pub open spec fn wf(&self) -> bool {
        self@.wf()
    }

    /// The board at power-on, around a cartridge image.
    pub fn new(rom: Rom) -> (r: Cnrom)
        requires
            rom.wf(),
        ensures
            r.wf(),
            r@ == CnromView::init(rom@),
    {
        Cnrom { rom, chr_bank: 0 }
    }

    pub fn mirroring(&self) -> (r: MirrorMode)
        ensures
            r == self@.mirroring(),
    {
        self.rom.mirroring()
    }

    pub fn in_range(&self, address: u16) -> (r: bool)
        ensures
            r == CnromView::in_range(address),
    {
        address >= 0x4020
    }

    pub fn read_chr(&self, address: u16) -> (r: u8)
        requires
            self.wf(),
            address < 0x2000,
        ensures
            r == self@.read_chr(address),
    {
        let bank_address: usize = self.chr_bank as usize * 8192;
        self.rom.read_chr(bank_address + address as usize)
    }

    pub fn read_prg(&self, address: u16) -> (r: u8)
        requires
            self.wf(),
        ensures
            r == self@.read_prg(address),
    {
        if address < 0x8000 {
            return 0xff;
        }
        let prg_address: usize = address as usize - 0x8000;
        let prg_banks = self.rom.prg_banks();
        if prg_banks == 0 {
            return 0xff;
        }
        self.rom.read_prg(prg_address % (16384 * prg_banks))
    }

    pub fn write_chr(&mut self, address: u16, value: u8)
        requires
            old(self).wf(),
            address < 0x2000,
        ensures
            final(self).wf(),
            final(self)@ == old(self)@.write_chr(address, value),
    {
    }

    pub fn write_prg(&mut self, address: u16, value: u8)
        requires
            old(self).wf(),
        ensures
            final(self).wf(),
            final(self)@ == old(self)@.write_prg(address, value),
    {
        if address >= 0x8000 {
            self.chr_bank = value & 0x03;
        }
    }
}

} // verus!
