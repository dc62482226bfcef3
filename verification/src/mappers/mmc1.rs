//! MMC1: registers loaded one bit at a time through a five-stage shift
//! register, three program banking modes, 8 KiB of work RAM and 8 KiB of
//! pattern RAM.
use crate::memory::{zeroed, zeros};
use crate::rom::{MirrorMode, Rom, RomView};
use vstd::prelude::*;

verus! {

/// The shift register when no bit has been loaded: a lone 1 in bit 4, which
/// reaches bit 0 when the fifth bit arrives.
pub const SHIFT_EMPTY: u8 = 0x10;

/// A cartridge on an MMC1 board.
pub struct Mmc1 {
    rom: Rom,
    prg_ram: Vec<u8>,
    chr_ram: Vec<u8>,
    shift: u8,
    control: u8,
    chr_bank_0: u8,
    chr_bank_1: u8,
    prg_bank: u8,
}

/// The mathematical content of an [`Mmc1`] board.
pub struct Mmc1View {
    pub rom: RomView,
    pub prg_ram: Seq<u8>,
    pub chr_ram: Seq<u8>,
    pub shift: u8,
    pub control: u8,
    pub chr_bank_0: u8,
    pub chr_bank_1: u8,
    pub prg_bank: u8,
}

/// The register that a processor address selects: bits 13 and 14.
pub open spec fn register_select(address: u16) -> u16 {
    (address >> 13) & 3
}

/// The five-bit value that five serial writes spell, first write lowest.
pub open spec fn serial_value(v1: u8, v2: u8, v3: u8, v4: u8, v5: u8) -> u8 {
    (v1 & 1) | ((v2 & 1) << 1) | ((v3 & 1) << 2) | ((v4 & 1) << 3) | ((v5 & 1) << 4)
}

impl Mmc1View {
    pub open spec fn wf(self) -> bool {
        &&& self.rom.wf()
        &&& self.prg_ram.len() == 0x2000
        &&& self.chr_ram.len() == 0x2000
    }

    pub open spec fn init(rom: RomView) -> Mmc1View {
        Mmc1View {
            rom,
            prg_ram: zeros(0x2000),
            chr_ram: zeros(0x2000),
            shift: SHIFT_EMPTY,
            control: 0x0f,
            chr_bank_0: 0,
            chr_bank_1: 0,
            prg_bank: 0,
        }
    }

    pub open spec fn in_range(address: u16) -> bool {
        address >= 0x4020
    }

    /// Control bits 0 and 1: one screen (0, 1), vertical (2), horizontal (3).
    pub open spec fn mirroring(self) -> MirrorMode {
        if self.control & 0x03 == 2 {
            MirrorMode::Vertical
        } else if self.control & 0x03 == 3 {
            MirrorMode::Horizontal
        } else {
            MirrorMode::OneScreen
        }
    }

    pub open spec fn read_chr(self, address: u16) -> u8 {
        self.chr_ram[address as int]
    }

    /// 0xff below 0x6000 and work RAM up to 0x7fff. Above, control bits 2 and
    /// 3 choose: one 32 KiB bank (0, 1); first bank fixed at 0x8000 and a
    /// switched bank at 0xc000 (2); a switched bank at 0x8000 and the last
    /// bank fixed at 0xc000 (3).
    pub open spec fn read_prg(self, address: u16) -> u8 {
        let offset = address - 0x8000;
        if address < 0x6000 {
            0xff
        } else if address < 0x8000 {
            self.prg_ram[address - 0x6000]
        } else if self.control & 0x0c == 0x08 {
            if address < 0xc000 {
                self.rom.read_prg(offset)
            } else {
                self.rom.read_prg(offset - 16384 + self.prg_bank * 16384)
            }
        } else if self.control & 0x0c == 0x0c {
            if address < 0xc000 {
                self.rom.read_prg(offset + self.prg_bank * 16384)
            } else {
                self.rom.read_prg(offset - 16384 + (self.rom.prg_banks() - 1) * 16384)
            }
        } else {
            self.rom.read_prg(offset + (self.prg_bank & 0x0e) * 16384)
        }
    }

    pub open spec fn write_chr(self, address: u16, value: u8) -> Mmc1View {
        Mmc1View { chr_ram: self.chr_ram.update(address as int, value), ..self }
    }

    /// Stores a completed five-bit value in the register that `address`
    /// selects, and empties the shift register.
    pub open spec fn commit(self, address: u16, data: u8) -> Mmc1View {
        let select = register_select(address);
        if select == 0 {
            Mmc1View { shift: SHIFT_EMPTY, control: data, ..self }
        } else if select == 1 {
            Mmc1View { shift: SHIFT_EMPTY, chr_bank_0: data, ..self }
        } else if select == 2 {
            Mmc1View { shift: SHIFT_EMPTY, chr_bank_1: data, ..self }
        } else {
            Mmc1View { shift: SHIFT_EMPTY, prg_bank: data, ..self }
        }
    }

    /// Below 0x6000 nothing; up to 0x7fff the work RAM. In the ROM window a
    /// value with bit 7 set empties the shift register and forces the program
    /// mode bits of control, and does nothing else; any other value feeds its
    /// bit 0 into the shift register, and the fifth such bit commits.
    pub open spec fn write_prg(self, address: u16, value: u8) -> Mmc1View {
        let data = ((value & 0x1) << 4) | (self.shift >> 1);
        if address < 0x6000 {
            self
        } else if address < 0x8000 {
            Mmc1View { prg_ram: self.prg_ram.update(address - 0x6000, value), ..self }
        } else if value & 0x80 != 0 {
            Mmc1View { shift: SHIFT_EMPTY, control: self.control | 0x0c, ..self }
        } else if self.shift & 0x1 == 0x1 {
            self.commit(address, data)
        } else {
            Mmc1View { shift: data, ..self }
        }
    }
}

/// A write with bit 7 set into the ROM window leaves the shift register empty
/// and both program mode bits of control set, whatever was loaded before.
pub proof fn lemma_reset_write(s: Mmc1View, address: u16, value: u8)
    requires
        address >= 0x8000,
        value & 0x80 != 0,
    ensures
        s.write_prg(address, value).shift == SHIFT_EMPTY,
        s.write_prg(address, value).control & 0x0c == 0x0c,
        s.write_prg(address, value).control & 0x13 == s.control & 0x13,
        s.write_prg(address, value) == (Mmc1View {
            shift: SHIFT_EMPTY,
            control: s.write_prg(address, value).control,
            ..s
        }),
{
    let c = s.control;
    assert((c | 0x0c) & 0x0c == 0x0c && (c | 0x0c) & 0x13 == c & 0x13) by (bit_vector);
}

/// From an empty shift register, five writes without bit 7 into the ROM
/// window commit the value that their low bits spell to the register that
/// the address of the fifth selects, and leave the shift register empty
/// again. The addresses of the first four do not matter.
pub proof fn lemma_serial_load(
    s: Mmc1View,
    a1: u16,
    v1: u8,
    a2: u16,
    v2: u8,
    a3: u16,
    v3: u8,
    a4: u16,
    v4: u8,
    a5: u16,
    v5: u8,
)
    requires
        s.shift == SHIFT_EMPTY,
        a1 >= 0x8000 && a2 >= 0x8000 && a3 >= 0x8000 && a4 >= 0x8000 && a5 >= 0x8000,
        v1 & 0x80 == 0 && v2 & 0x80 == 0 && v3 & 0x80 == 0 && v4 & 0x80 == 0 && v5 & 0x80 == 0,
    ensures
        s.write_prg(a1, v1).write_prg(a2, v2).write_prg(a3, v3).write_prg(a4, v4).write_prg(a5, v5)
            == s.commit(a5, serial_value(v1, v2, v3, v4, v5)),
{
    assert({
        let d1 = ((v1 & 0x1) << 4) | (0x10u8 >> 1);
        let d2 = ((v2 & 0x1) << 4) | (d1 >> 1);
        let d3 = ((v3 & 0x1) << 4) | (d2 >> 1);
        let d4 = ((v4 & 0x1) << 4) | (d3 >> 1);
        let d5 = ((v5 & 0x1) << 4) | (d4 >> 1);
        &&& 0x10u8 & 0x1 != 0x1
        &&& d1 & 0x1 != 0x1
        &&& d2 & 0x1 != 0x1
        &&& d3 & 0x1 != 0x1
        &&& d4 & 0x1 == 0x1
        &&& d5 == (v1 & 1) | ((v2 & 1) << 1) | ((v3 & 1) << 2) | ((v4 & 1) << 3) | ((v5 & 1) << 4)
    }) by (bit_vector);
    let s1 = s.write_prg(a1, v1);
    let s2 = s1.write_prg(a2, v2);
    let s3 = s2.write_prg(a3, v3);
    let s4 = s3.write_prg(a4, v4);
    assert(s1 == Mmc1View { shift: s1.shift, ..s });
    assert(s2 == Mmc1View { shift: s2.shift, ..s });
    assert(s3 == Mmc1View { shift: s3.shift, ..s });
    assert(s4 == Mmc1View { shift: s4.shift, ..s });
}

impl View for Mmc1 {
    type V = Mmc1View;

    closed spec fn view(&self) -> Mmc1View {
        Mmc1View {
            rom: self.rom@,
            prg_ram: self.prg_ram@,
            chr_ram: self.chr_ram@,
            shift: self.shift,
            control: self.control,
            chr_bank_0: self.chr_bank_0,
            chr_bank_1: self.chr_bank_1,
            prg_bank: self.prg_bank,
        }
    }
}

impl Mmc1 {
    pub open spec fn wf(&self) -> bool {
        self@.wf()
    }

    /// The board at power-on, around a cartridge image.
    pub fn new(rom: Rom) -> (r: Mmc1)
        requires
            rom.wf(),
        ensures
            r.wf(),
            r@ == Mmc1View::init(rom@),
    {
        Mmc1 {
            rom,
            prg_ram: zeroed(0x2000),
            chr_ram: zeroed(0x2000),
            shift: SHIFT_EMPTY,
            control: 0x0f,
            chr_bank_0: 0,
            chr_bank_1: 0,
            prg_bank: 0,
        }
    }

    pub fn mirroring(&self) -> (r: MirrorMode)
        ensures
            r == self@.mirroring(),
    {
        let mode = self.control & 0x03;
        if mode == 2 {
            MirrorMode::Vertical
        } else if mode == 3 {
            MirrorMode::Horizontal
        } else {
            MirrorMode::OneScreen
        }
    }

    pub fn in_range(&self, address: u16) -> (r: bool)
        ensures
            r == Mmc1View::in_range(address),
    {
        address >= 0x4020
    }

    pub fn read_chr(&self, address: u16) -> (r: u8)
        requires
            self.wf(),
            address < 0x2000,
        ensures
            r == self@.read_chr(address),
    {
        self.chr_ram[address as usize]
    }

    pub fn read_prg(&self, address: u16) -> (r: u8)
        requires
            self.wf(),
        ensures
            r == self@.read_prg(address),
    {
        if address < 0x6000 {
            return 0xff;
        }
        if address < 0x8000 {
            return self.prg_ram[address as usize - 0x6000];
        }
        let prg_address: usize = address as usize - 0x8000;
        let mode = self.control & 0x0c;
        if mode == 0x08 {
            if address < 0xc000 {
                self.rom.read_prg(prg_address)
            } else {
                self.rom.read_prg((prg_address - 16384) + self.prg_bank as usize * 16384)
            }
        } else if mode == 0x0c {
            if address < 0xc000 {
                self.rom.read_prg(prg_address + self.prg_bank as usize * 16384)
            } else {
                let banks = self.rom.prg_banks();
                if banks == 0 {
                    return 0xff;
                }
                self.rom.read_prg((prg_address - 16384) + (banks - 1) * 16384)
            }
        } else {
            let bank = self.prg_bank & 0x0e;
            self.rom.read_prg(prg_address + bank as usize * 16384)
        }
    }

    pub fn write_chr(&mut self, address: u16, value: u8)
        requires
            old(self).wf(),
            address < 0x2000,
        ensures
            final(self).wf(),
            final(self)@ == old(self)@.write_chr(address, value),
    {
        self.chr_ram[address as usize] = value;
    }

    pub fn write_prg(&mut self, address: u16, value: u8)
        requires
            old(self).wf(),
        ensures
            final(self).wf(),
            final(self)@ == old(self)@.write_prg(address, value),
            address >= 0x8000 && value & 0x80 != 0 ==> final(self)@.shift == SHIFT_EMPTY
                && final(self)@.control & 0x0c == 0x0c,
    {
        if address < 0x6000 {
            return ;
        }
        if address < 0x8000 {
            self.prg_ram[address as usize - 0x6000] = value;
            return ;
        }
        if value & 0x80 != 0 {
            proof {
                lemma_reset_write(self@, address, value);
            }
            self.shift = SHIFT_EMPTY;
            self.control |= 0x0c;
            return ;
        }
        let data = ((value & 0x1) << 4) | (self.shift >> 1);
        if self.shift & 0x1 == 0x1 {
            let select = (address >> 13) & 3;
            if select == 0 {
                self.control = data;
            } else if select == 1 {
                self.chr_bank_0 = data;
            } else if select == 2 {
                self.chr_bank_1 = data;
            } else {
                self.prg_bank = data;
            }
            self.shift = SHIFT_EMPTY;
        } else {
            self.shift = data;
        }
    }
}

} // verus!
