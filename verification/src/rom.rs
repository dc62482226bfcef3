//! Cartridge images in the iNES container format.
use vstd::prelude::*;

verus! {

/// Size in bytes of one character (pattern) bank.
pub const ROM_CHR_BANK_SIZE: usize = 8192;

/// Size in bytes of the container header.
pub const ROM_HEADER_SIZE: usize = 16;

/// Size in bytes of one program bank.
pub const ROM_PRG_BANK_SIZE: usize = 16384;

/// How the four logical nametables are laid over the physical pages.
#[derive(Clone, Copy, Debug, PartialEq, Eq, Structural)]
pub enum MirrorMode {
    Horizontal,
    Vertical,
    FourScreen,
    OneScreen,
}

/// What can go wrong while a console is put together or run.
#[derive(Clone, Copy, Debug, PartialEq, Eq, Structural)]
pub enum NesError {
    /// The image does not start with the container's magic, or is cut short.
    InvalidRom,
    /// The image asks for a cartridge board that is not modelled.
    UnsupportedMapper(u8),
    /// The processor met an opcode that it does not implement, in strict mode.
    IllegalOpcode(u8),
}

/// The fields of the sixteen header bytes that the console reads.
#[derive(Clone, Copy, Debug, PartialEq, Eq)]
pub struct INesHeader {
    pub magic: [u8; 4],
    pub prg: u8,
    pub chr: u8,
    pub flags6: u8,
    pub flags7: u8,
    pub ram: u8,
    pub flags9: u8,
}

/// A cartridge image: its header, its program bytes and its pattern bytes.
#[derive(Clone, Debug)]
pub struct Rom {
    header: INesHeader,
    prg: Vec<u8>,
    chr: Vec<u8>,
}

/// The mathematical content of a [`Rom`].
pub struct RomView {
    pub header: INesHeader,
    pub prg: Seq<u8>,
    pub chr: Seq<u8>,
}

/// Number of program bytes that a header announces.
pub open spec fn prg_size(header: INesHeader) -> int {
    header.prg as int * 16384
}

/// Number of pattern bytes that a header announces.
pub open spec fn chr_size(header: INesHeader) -> int {
    header.chr as int * 8192
}

/// The header that the first sixteen bytes of an image spell.
pub open spec fn parse_header(image: Seq<u8>) -> INesHeader
    recommends
        image.len() >= 16,
{
    INesHeader {
        magic: [image[0], image[1], image[2], image[3]],
        prg: image[4],
        chr: image[5],
        flags6: image[6],
        flags7: image[7],
        ram: image[8],
        flags9: image[9],
    }
}

/// An image is well formed when it is long enough for a header, starts with
/// `NES` and the byte 0x1a, and holds all the bytes that its header announces.
pub open spec fn image_valid(image: Seq<u8>) -> bool {
    &&& image.len() >= 16
    &&& image[0] == 0x4e
    &&& image[1] == 0x45
    &&& image[2] == 0x53
    &&& image[3] == 0x1a
    &&& image.len() >= 16 + prg_size(parse_header(image)) + chr_size(parse_header(image))
}

/// The cartridge that a well formed image holds.
pub open spec fn parse_image(image: Seq<u8>) -> RomView
    recommends
        image_valid(image),
{
    let header = parse_header(image);
    RomView {
        header,
        prg: image.subrange(16, 16 + prg_size(header)),
        chr: image.subrange(16 + prg_size(header), 16 + prg_size(header) + chr_size(header)),
    }
}

impl RomView {
    /// The banks are as long as the header says.
    pub open spec fn wf(self) -> bool {
        &&& self.prg.len() == prg_size(self.header)
        &&& self.chr.len() == chr_size(self.header)
    }

    /// The board number: low nibble from flags 6, high nibble from flags 7.
    pub open spec fn mapper(self) -> u8 {
        (self.header.flags6 >> 4) | (self.header.flags7 & 0xf0)
    }

    /// Four-screen when bit 3 of flags 6 is set, else vertical when bit 0 is
    /// set, else horizontal.
    pub open spec fn mirroring(self) -> MirrorMode {
        if self.header.flags6 & 0x08 != 0 {
            MirrorMode::FourScreen
        } else if self.header.flags6 & 0x01 != 0 {
            MirrorMode::Vertical
        } else {
            MirrorMode::Horizontal
        }
    }

    /// The program byte at an offset; 0xff past the end of the program.
    pub open spec fn read_prg(self, address: int) -> u8 {
        if 0 <= address < self.prg.len() {
            self.prg[address]
        } else {
            0xff
        }
    }

    /// The pattern byte at an offset; 0xff past the end of the patterns.
    pub open spec fn read_chr(self, address: int) -> u8 {
        if 0 <= address < self.chr.len() {
            self.chr[address]
        } else {
            0xff
        }
    }

    pub open spec fn prg_banks(self) -> int {
        self.header.prg as int
    }

    pub open spec fn chr_banks(self) -> int {
        self.header.chr as int
    }
}

impl View for Rom {
    type V = RomView;

    closed spec fn view(&self) -> RomView {
        RomView { header: self.header, prg: self.prg@, chr: self.chr@ }
    }
}

impl Rom {
    /// Well-formedness of the stored banks; every constructor establishes it.
    pub open spec fn wf(&self) -> bool {
        self@.wf()
    }

    /// Reads a cartridge out of the bytes of an iNES file.
    ///
    /// Succeeds exactly on the well formed images, and then holds the header
    /// and the two bank arrays that follow it; bytes after them are ignored.
    pub fn new(image: &[u8]) -> (r: Result<Rom, NesError>)
        ensures
            image_valid(image@) ==> r is Ok && r->Ok_0.wf() && r->Ok_0@ == parse_image(image@),
            !image_valid(image@) ==> r == Err::<Rom, NesError>(NesError::InvalidRom),
    {
        if image.len() < ROM_HEADER_SIZE {
            return Err(NesError::InvalidRom);
        }
        let header = INesHeader {
            magic: [image[0], image[1], image[2], image[3]],
            prg: image[4],
            chr: image[5],
            flags6: image[6],
            flags7: image[7],
            ram: image[8],
            flags9: image[9],
        };
        assert(header == parse_header(image@));
        if header.magic[0] != 0x4e || header.magic[1] != 0x45 || header.magic[2] != 0x53
            || header.magic[3] != 0x1a {
            return Err(NesError::InvalidRom);
        }
        let prg_len: usize = header.prg as usize * ROM_PRG_BANK_SIZE;
        let chr_len: usize = header.chr as usize * ROM_CHR_BANK_SIZE;
        if image.len() - ROM_HEADER_SIZE < prg_len + chr_len {
            return Err(NesError::InvalidRom);
        }
        let prg = copy_range(image, ROM_HEADER_SIZE, ROM_HEADER_SIZE + prg_len);
        let chr = copy_range(image, ROM_HEADER_SIZE + prg_len, ROM_HEADER_SIZE + prg_len + chr_len);
        Ok(Rom { header, prg, chr })
    }

    /// The board number announced by the header.
    pub fn mapper(&self) -> (r: u8)
        ensures
            r == self@.mapper(),
    {
        (self.header.flags6 >> 4) | (self.header.flags7 & 0xf0)
    }

    /// The nametable arrangement announced by the header.
    pub fn mirroring(&self) -> (r: MirrorMode)
        ensures
            r == self@.mirroring(),
    {
        if self.header.flags6 & 0x08 != 0 {
            MirrorMode::FourScreen
        } else if self.header.flags6 & 0x01 != 0 {
            MirrorMode::Vertical
        } else {
            MirrorMode::Horizontal
        }
    }

    /// The pattern byte at `address`, or 0xff where the image holds none.
    pub fn read_chr(&self, address: usize) -> (r: u8)
        ensures
            r == self@.read_chr(address as int),
    {
        if address < self.chr.len() {
            self.chr[address]
        } else {
            0xff
        }
    }

    /// The program byte at `address`, or 0xff where the image holds none.
    pub fn read_prg(&self, address: usize) -> (r: u8)
        ensures
            r == self@.read_prg(address as int),
    {
        if address < self.prg.len() {
            self.prg[address]
        } else {
            0xff
        }
    }

    /// Number of 16 KiB program banks.
    pub fn prg_banks(&self) -> (r: usize)
        requires
            self.wf(),
        ensures
            r == self@.prg_banks(),
    {
        self.prg.len() / ROM_PRG_BANK_SIZE
    }

    /// Number of 8 KiB pattern banks.
    pub fn chr_banks(&self) -> (r: usize)
        requires
            self.wf(),
        ensures
            r == self@.chr_banks(),
    {
        self.chr.len() / ROM_CHR_BANK_SIZE
    }
}

/// Copies `image[from..to]` into a fresh vector.
fn copy_range(image: &[u8], from: usize, to: usize) -> (out: Vec<u8>)
    requires
        from <= to <= image@.len(),
    ensures
        out@ == image@.subrange(from as int, to as int),
{
    let mut out: Vec<u8> = Vec::new();
    let mut i: usize = from;
    while i < to
        invariant
            from <= i <= to <= image@.len(),
            out@ == image@.subrange(from as int, i as int),
        decreases to - i,
    {
        out.push(image[i]);
        i += 1;
        assert(out@ =~= image@.subrange(from as int, i as int));
    }
    out
}

} // verus!
