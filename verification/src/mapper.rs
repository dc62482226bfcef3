//! The cartridge as the console sees it: one board out of the four modelled,
//! answering the processor on the program side and the picture unit on the
//! pattern side.
use crate::mappers::cnrom::{Cnrom, CnromView};
use crate::mappers::mmc1::{Mmc1, Mmc1View};
use crate::mappers::nrom::{Nrom, NromView};
use crate::mappers::unrom::{Unrom, UnromView};
use crate::rom::{MirrorMode, NesError, Rom, RomView};
use vstd::prelude::*;

verus! {

/// A cartridge on one of the four boards.
pub enum Mapper {
    Nrom(Nrom),
    Mmc1(Mmc1),
    Unrom(Unrom),
    Cnrom(Cnrom),
}

/// The mathematical content of a [`Mapper`].
pub enum MapperView {
    Nrom(NromView),
    Mmc1(Mmc1View),
    Unrom(UnromView),
    Cnrom(CnromView),
}

impl MapperView {
    pub open spec fn wf(self) -> bool {
        match self {
            MapperView::Nrom(m) => m.wf(),
            MapperView::Mmc1(m) => m.wf(),
            MapperView::Unrom(m) => m.wf(),
            MapperView::Cnrom(m) => m.wf(),
        }
    }

    /// The board that an image asks for by its number, as at power-on; none
    /// for the numbers above 3.
    pub open spec fn init(rom: RomView) -> Option<MapperView> {
        let id = rom.mapper();
        if id == 0 {
            Some(MapperView::Nrom(NromView::init(rom)))
        } else if id == 1 {
            Some(MapperView::Mmc1(Mmc1View::init(rom)))
        } else if id == 2 {
            Some(MapperView::Unrom(UnromView::init(rom)))
        } else if id == 3 {
            Some(MapperView::Cnrom(CnromView::init(rom)))
        } else {
            None
        }
    }

    /// Every board answers the processor from 0x4020 up.
    pub open spec fn in_range(address: u16) -> bool {
        address >= 0x4020
    }

    pub open spec fn mirroring(self) -> MirrorMode {
        match self {
            MapperView::Nrom(m) => m.mirroring(),
            MapperView::Mmc1(m) => m.mirroring(),
            MapperView::Unrom(m) => m.mirroring(),
            MapperView::Cnrom(m) => m.mirroring(),
        }
    }

    pub open spec fn read_chr(self, address: u16) -> u8 {
        match self {
            MapperView::Nrom(m) => m.read_chr(address),
            MapperView::Mmc1(m) => m.read_chr(address),
            MapperView::Unrom(m) => m.read_chr(address),
            MapperView::Cnrom(m) => m.read_chr(address),
        }
    }

    pub open spec fn read_prg(self, address: u16) -> u8 {
        match self {
            MapperView::Nrom(m) => m.read_prg(address),
            MapperView::Mmc1(m) => m.read_prg(address),
            MapperView::Unrom(m) => m.read_prg(address),
            MapperView::Cnrom(m) => m.read_prg(address),
        }
    }

    pub open spec fn write_chr(self, address: u16, value: u8) -> MapperView {
        match self {
            MapperView::Nrom(m) => MapperView::Nrom(m.write_chr(address, value)),
            MapperView::Mmc1(m) => MapperView::Mmc1(m.write_chr(address, value)),
            MapperView::Unrom(m) => MapperView::Unrom(m.write_chr(address, value)),
            MapperView::Cnrom(m) => MapperView::Cnrom(m.write_chr(address, value)),
        }
    }

    pub open spec fn write_prg(self, address: u16, value: u8) -> MapperView {
        match self {
            MapperView::Nrom(m) => MapperView::Nrom(m.write_prg(address, value)),
            MapperView::Mmc1(m) => MapperView::Mmc1(m.write_prg(address, value)),
            MapperView::Unrom(m) => MapperView::Unrom(m.write_prg(address, value)),
            MapperView::Cnrom(m) => MapperView::Cnrom(m.write_prg(address, value)),
        }
    }
}

impl View for Mapper {
    type V = MapperView;

    open spec fn view(&self) -> MapperView {
        match *self {
            Mapper::Nrom(m) => MapperView::Nrom(m@),
            Mapper::Mmc1(m) => MapperView::Mmc1(m@),
            Mapper::Unrom(m) => MapperView::Unrom(m@),
            Mapper::Cnrom(m) => MapperView::Cnrom(m@),
        }
    }
}

impl Mapper {
    pub open spec fn wf(&self) -> bool {
        self@.wf()
    }

    /// Whether the cartridge answers the processor at `address`.
    pub fn in_range(&self, address: u16) -> (r: bool)
        ensures
            r == MapperView::in_range(address),
    {
        address >= 0x4020
    }

    /// The arrangement of the nametables that the board asks for now.
    pub fn mirroring(&self) -> (r: MirrorMode)
        ensures
            r == self@.mirroring(),
    {
        match self {
            Mapper::Nrom(m) => m.mirroring(),
            Mapper::Mmc1(m) => m.mirroring(),
            Mapper::Unrom(m) => m.mirroring(),
            Mapper::Cnrom(m) => m.mirroring(),
        }
    }

    /// The pattern byte that the picture unit sees at `address`.
    pub fn read_chr(&self, address: u16) -> (r: u8)
        requires
            self.wf(),
            address < 0x2000,
        ensures
            r == self@.read_chr(address),
    {
        match self {
            Mapper::Nrom(m) => m.read_chr(address),
            Mapper::Mmc1(m) => m.read_chr(address),
            Mapper::Unrom(m) => m.read_chr(address),
            Mapper::Cnrom(m) => m.read_chr(address),
        }
    }

    /// The byte that the processor sees at `address`.
    pub fn read_prg(&self, address: u16) -> (r: u8)
        requires
            self.wf(),
        ensures
            r == self@.read_prg(address),
    {
        match self {
            Mapper::Nrom(m) => m.read_prg(address),
            Mapper::Mmc1(m) => m.read_prg(address),
            Mapper::Unrom(m) => m.read_prg(address),
            Mapper::Cnrom(m) => m.read_prg(address),
        }
    }

    /// A write of the picture unit into the pattern tables.
    pub fn write_chr(&mut self, address: u16, value: u8)
        requires
            old(self).wf(),
            address < 0x2000,
        ensures
            final(self).wf(),
            final(self)@ == old(self)@.write_chr(address, value),
    {
        match self {
            Mapper::Nrom(m) => m.write_chr(address, value),
            Mapper::Mmc1(m) => m.write_chr(address, value),
            Mapper::Unrom(m) => m.write_chr(address, value),
            Mapper::Cnrom(m) => m.write_chr(address, value),
        }
    }

    /// A write of the processor into the cartridge: to its RAM, or to the
    /// registers of the board.
    pub fn write_prg(&mut self, address: u16, value: u8)
        requires
            old(self).wf(),
        ensures
            final(self).wf(),
            final(self)@ == old(self)@.write_prg(address, value),
    {
        match self {
            Mapper::Nrom(m) => m.write_prg(address, value),
            Mapper::Mmc1(m) => m.write_prg(address, value),
            Mapper::Unrom(m) => m.write_prg(address, value),
            Mapper::Cnrom(m) => m.write_prg(address, value),
        }
    }
}

/// Builds the board that the image asks for.
///
/// Numbers 0 to 3 give NROM, MMC1, UxROM and CNROM in their power-on state;
/// any other number is refused with that number.
pub fn create_mapper(rom: Rom) -> (r: Result<Mapper, NesError>)
    requires
        rom.wf(),
    ensures
        match MapperView::init(rom@) {
            Some(m) => r is Ok && r->Ok_0.wf() && r->Ok_0@ == m,
            None => r == Err::<Mapper, NesError>(NesError::UnsupportedMapper(rom@.mapper())),
        },
{
    let id = rom.mapper();
    if id == 0 {
        Ok(Mapper::Nrom(Nrom::new(rom)))
    } else if id == 1 {
        Ok(Mapper::Mmc1(Mmc1::new(rom)))
    } else if id == 2 {
        Ok(Mapper::Unrom(Unrom::new(rom)))
    } else if id == 3 {
        Ok(Mapper::Cnrom(Cnrom::new(rom)))
    } else {
        Err(NesError::UnsupportedMapper(id))
    }
}

} // verus!
