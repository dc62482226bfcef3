//! NROM: no bank switching, 8 KiB of work RAM, pattern RAM when the image
//! brings no pattern ROM.
use crate::memory::{zeroed, zeros};
use crate::rom::{MirrorMode, Rom, RomView};
use vstd::prelude::*;

verus! {

/// A cartridge on an NROM board.
pub struct Nrom {
    rom: Rom,
    ram: Vec<u8>,
    chr_ram: Vec<u8>,
}

/// The mathematical content of an [`Nrom`] board.
pub struct NromView {
    pub rom: RomView,
    pub ram: Seq<u8>,
    pub chr_ram: Seq<u8>,
}

impl NromView {
    pub open spec fn wf(self) -> bool {
        &&& self.rom.wf()
        &&& self.ram.len() == 0x2000
        &&& self.chr_ram.len() == (if self.rom.chr_banks() == 0 { 0x2000nat } else { 0nat })
    }

    /// The board as it is when the console is switched on.
    pub open spec fn init(rom: RomView) -> NromView {
        NromView {
            rom,
            ram: zeros(0x2000),
            chr_ram: if rom.chr_banks() == 0 { zeros(0x2000) } else { zeros(0) },
        }
    }

    /// The processor addresses that the board answers.
    pub open spec fn in_range(address: u16) -> bool {
        address >= 0x4020
    }

    pub open spec fn mirroring(self) -> MirrorMode {
        self.rom.mirroring()
    }

    /// Pattern RAM when the image has no pattern bank, pattern ROM otherwise.
    pub open spec fn read_chr(self, address: u16) -> u8 {
        if self.rom.chr_banks() == 0 {
            self.chr_ram[address as int]
        } else {
            self.rom.read_chr(address as int)
        }
    }

    /// 0xff below 0x6000, work RAM up to 0x7fff, program ROM from 0x8000; a
    /// single bank shows in both halves of the ROM window.
    pub open spec fn read_prg(self, address: u16) -> u8 {
        if address < 0x6000 {
            0xff
        } else if address < 0x8000 {
            self.ram[address - 0x6000]
        } else if self.rom.prg_banks() == 1 {
            self.rom.read_prg((address - 0x8000) % 16384)
        } else {
            self.rom.read_prg(address - 0x8000)
        }
    }

    /// Writes reach the pattern RAM only; pattern ROM ignores them.
    pub open spec fn write_chr(self, address: u16, value: u8) -> NromView {
        if self.rom.chr_banks() == 0 {
            NromView { chr_ram: self.chr_ram.update(address as int, value), ..self }
        } else {
            self
        }
    }

    /// Writes reach the work RAM only.
    pub open spec fn write_prg(self, address: u16, value: u8) -> NromView {
        if 0x6000 <= address < 0x8000 {
            NromView { ram: self.ram.update(address - 0x6000, value), ..self }
        } else {
            self
        }
    }
}

impl View for Nrom {
    type V = NromView;

    closed spec fn view(&self) -> NromView {
        NromView { rom: self.rom@, ram: self.ram@, chr_ram: self.chr_ram@ }
    }
}

impl Nrom {
    pub open spec fn wf(&self) -> bool {
        self@.wf()
    }

    /// The board at power-on, around a cartridge image.
    pub fn new(rom: Rom) -> (r: Nrom)
        requires
            rom.wf(),
        ensures
            r.wf(),
            r@ == NromView::init(rom@),
    {
        let chr_ram = if rom.chr_banks() == 0 {
            zeroed(0x2000)
        } else {
            zeroed(0)
        };
        Nrom { rom, ram: zeroed(0x2000), chr_ram }
    }

    pub fn mirroring(&self) -> (r: MirrorMode)
        ensures
            r == self@.mirroring(),
    {
        self.rom.mirroring()
    }

    pub fn in_range(&self, address: u16) -> (r: bool)
        ensures
            r == NromView::in_range(address),
    {
        address >= 0x4020
    }

    pub fn read_chr(&self, address: u16) -> (r: u8)
        requires
            self.wf(),
            address < 0x2000,
        ensures
            r == self@.read_chr(address),
    {
        if self.rom.chr_banks() == 0 {
            self.chr_ram[address as usize]
        } else {
            self.rom.read_chr(address as usize)
        }
    }

    pub fn read_prg(&self, address: u16) -> (r: u8)
        requires
            self.wf(),
        ensures
            r == self@.read_prg(address),
    {
        if address < 0x6000 {
            return 0xff;
        }
        if address < 0x8000 {
            return self.ram[address as usize - 0x6000];
        }
        let prg_address: usize = address as usize - 0x8000;
        if self.rom.prg_banks() == 1 {
            self.rom.read_prg(prg_address % 16384)
        } else {
            self.rom.read_prg(prg_address)
        }
    }

    pub fn write_chr(&mut self, address: u16, value: u8)
        requires
            old(self).wf(),
            address < 0x2000,
        ensures
            final(self).wf(),
            final(self)@ == old(self)@.write_chr(address, value),
    {
        if self.rom.chr_banks() == 0 {
            self.chr_ram[address as usize] = value;
        }
    }

    pub fn write_prg(&mut self, address: u16, value: u8)
        requires
            old(self).wf(),
        ensures
            final(self).wf(),
            final(self)@ == old(self)@.write_prg(address, value),
    {
        if address >= 0x6000 && address < 0x8000 {
            self.ram[address as usize - 0x6000] = value;
        }
    }
}

} // verus!
