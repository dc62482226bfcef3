//! UxROM: a switchable 16 KiB program bank below a fixed last bank, and 8 KiB
//! of pattern RAM.
use crate::memory::{zeroed, zeros};
use crate::rom::{MirrorMode, Rom, RomView};
use vstd::prelude::*;

verus! {

/// A cartridge on a UxROM board.
pub struct Unrom {
    rom: Rom,
    chr_ram: Vec<u8>,
    prg_bank: u8,
}

/// The mathematical content of a [`Unrom`] board.
pub struct UnromView {
    pub rom: RomView,
    pub chr_ram: Seq<u8>,
    pub prg_bank: u8,
}

impl UnromView {
    pub open spec fn wf(self) -> bool {
        &&& self.rom.wf()
        &&& self.chr_ram.len() == 0x2000
    }

    pub open spec fn init(rom: RomView) -> UnromView {
        UnromView { rom, chr_ram: zeros(0x2000), prg_bank: 0 }
    }

    pub open spec fn in_range(address: u16) -> bool {
        address >= 0x4020
    }

    pub open spec fn mirroring(self) -> MirrorMode {
        self.rom.mirroring()
    }

    pub open spec fn read_chr(self, address: u16) -> u8 {
        self.chr_ram[address as int]
    }

    /// 0xff below 0x8000; the selected bank up to 0xbfff; the last bank of
    /// the image from 0xc000.
    pub open spec fn read_prg(self, address: u16) -> u8 {
        if address < 0x8000 {
            0xff
        } else if address < 0xc000 {
            self.rom.read_prg(self.prg_bank * 16384 + (address - 0x8000))
        } else {
            self.rom.read_prg((self.rom.prg_banks() - 1) * 16384 + (address - 0xc000))
        }
    }

    pub open spec fn write_chr(self, address: u16, value: u8) -> UnromView {
        UnromView { chr_ram: self.chr_ram.update(address as int, value), ..self }
    }

    /// A write anywhere in the ROM window selects the bank by its low nibble.
    pub open spec fn write_prg(self, address: u16, value: u8) -> UnromView {
        if address >= 0x8000 {
            UnromView { prg_bank: value & 0x0f, ..self }
        } else {
            self
        }
    }
}

impl View for Unrom {
    type V = UnromView;

    closed spec fn view(&self) -> UnromView {
        UnromView { rom: self.rom@, chr_ram: self.chr_ram@, prg_bank: self.prg_bank }
    }
}

impl Unrom {
    pub open spec fn wf(&self) -> bool {
        self@.wf()
    }

    /// The board at power-on, around a cartridge image.
    pub fn new(rom: Rom) -> (r: Unrom)
        requires
            rom.wf(),
        ensures
            r.wf(),
            r@ == UnromView::init(rom@),
    {
        Unrom { rom, chr_ram: zeroed(0x2000), prg_bank: 0 }
    }

    pub fn mirroring(&self) -> (r: MirrorMode)
        ensures
            r == self@.mirroring(),
    {
        self.rom.mirroring()
    }

    pub fn in_range(&self, address: u16) -> (r: bool)
        ensures
            r == UnromView::in_range(address),
    {
        address >= 0x4020
    }

    pub fn read_chr(&self, address: u16) -> (r: u8)
        requires
            self.wf(),
            address < 0x2000,
        ensures
            r == self@.read_chr(address),
    {
        self.chr_ram[address as usize]
    }

    pub fn read_prg(&self, address: u16) -> (r: u8)
        requires
            self.wf(),
        ensures
            r == self@.read_prg(address),
    {
        if address < 0x8000 {
            return 0xff;
        }
        if address < 0xc000 {
            let prg_address: usize = address as usize - 0x8000;
            let bank_offset: usize = self.prg_bank as usize * 16384;
            self.rom.read_prg(bank_offset + prg_address)
        } else {
            let banks = self.rom.prg_banks();
            if banks == 0 {
                return 0xff;
            }
            let prg_address: usize = address as usize - 0xc000;
            let bank_offset: usize = (banks - 1) * 16384;
            self.rom.read_prg(bank_offset + prg_address)
        }
    }

    pub fn write_chr(&mut self, address: u16, value: u8)
        requires
            old(self).wf(),
            address < 0x2000,
        ensures
            final(self).wf(),
            final(self)@ == old(self)@.write_chr(address, value),
    {
        self.chr_ram[address as usize] = value;
    }

    pub fn write_prg(&mut self, address: u16, value: u8)
        requires
            old(self).wf(),
        ensures
            final(self).wf(),
            final(self)@ == old(self)@.write_prg(address, value),
    {
        if address >= 0x8000 {
            self.prg_bank = value & 0x0f;
        }
    }
}

} // verus!
