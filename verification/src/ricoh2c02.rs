//! The 2C02 picture unit.
//!
//! The unit is clocked one dot at a time by [`Ricoh2C02::tick`], and talks to
//! the processor through eight registers ([`Ricoh2C02::io_read`],
//! [`Ricoh2C02::io_write`]). What each operation does is defined on the
//! unit's view, in [`model`].
pub mod wellformed;
pub mod lemmas;
pub mod model;
pub mod pipeline;
pub mod registers;
pub mod sprites;
pub mod timing;

use crate::bits::lemma_mask_u8;
use crate::mapper::Mapper;
use crate::memory::{zeroed, zeros};
use crate::ricoh2c02::model::{nametable_index, palette_index, rgb_at, PpuView, PALETTE};
use crate::ricoh2c02::registers::{
    lemma_fifteen_bits, Control, Evaluation, Flags, Mask, Registers, PPU_ADDR, PPU_CTRL,
    PPU_DATA, PPU_END, PPU_MASK, PPU_OAMADDR, PPU_OAMDATA, PPU_PRERENDER, PPU_SCROLL, PPU_START,
    PPU_STATUS, PPU_VBLANK_START,
};
use crate::rom::MirrorMode;
use vstd::prelude::*;

verus! {

/// The picture unit, owning its memories and the cartridge.
pub struct Ricoh2C02 {
    regs: Registers,
    mapper: Mapper,
    framebuffer: Vec<u8>,
    nametables: Vec<u8>,
    palette: Vec<u8>,
    oam: Vec<u8>,
    secondary_oam: Vec<u8>,
    sprite_shift_low: [u8; 8],
    sprite_shift_high: [u8; 8],
    sprite_latch: [u8; 8],
    sprite_counter: [u8; 8],
}

impl View for Ricoh2C02 {
    type V = PpuView;

    closed spec fn view(&self) -> PpuView {
        PpuView {
            regs: self.regs,
            mapper: self.mapper@,
            framebuffer: self.framebuffer@,
            nametables: self.nametables@,
            palette: self.palette@,
            oam: self.oam@,
            secondary_oam: self.secondary_oam@,
            sprite_shift_low: self.sprite_shift_low@,
            sprite_shift_high: self.sprite_shift_high@,
            sprite_latch: self.sprite_latch@,
            sprite_counter: self.sprite_counter@,
        }
    }
}

impl Ricoh2C02 {
    /// Well-formedness: the memories have their sizes, the dot counter and the
    /// line counter are within a frame, `v` and `t` within fifteen bits, and
    /// palette and frame hold colours below 64.
    pub open spec fn wf(&self) -> bool {
        self@.wf()
    }

    /// A picture unit at power-on, reading patterns from `mapper`.
    pub fn new(mapper: Mapper) -> (r: Ricoh2C02)
        requires
            mapper.wf(),
        ensures
            r.wf(),
            r@ == PpuView::init(mapper@),
    {
        let r = Ricoh2C02 {
            regs: Registers {
                scanline: PPU_PRERENDER,
                cycle: 0,
                odd: false,
                short_line: false,
                latch: 0,
                read_buffer: 0,
                oam_addr: 0,
                ctrl: Control {
                    nmi_enable: false,
                    tall_sprites: false,
                    bg_pattern_table: 0,
                    sprite_pattern_table: 0,
                    vram_increment: 1,
                },
                mask: Mask {
                    sprite_enable: false,
                    background_enable: false,
                    lc_sprite_enable: false,
                    lc_background_enable: false,
                    greyscale: false,
                },
                status: Flags { vblank: false, sprite_0_hit: false, sprite_overflow: false },
                should_nmi: false,
                redraw: false,
                suppress_vblank: false,
                vram_address: 0,
                temp_vram_address: 0,
                fine_x_scroll: 0,
                write_toggle: false,
                tile_address: 0,
                tile_low: 0,
                tile_high: 0,
                tile_shift_low: 0,
                tile_shift_high: 0,
                attribute_shift_low: 0,
                attribute_shift_high: 0,
                attribute_latch_low: 0,
                attribute_latch_high: 0,
                next_attribute_latch_low: 0,
                next_attribute_latch_high: 0,
                eval: Evaluation {
                    oam_index: 0,
                    oam_2_addr: 0,
                    oam_buffer: 0,
                    oam_overflow: false,
                    sprite_0_next: false,
                },
                sprite_0_line: false,
            },
            mapper,
            framebuffer: zeroed(256 * 240),
            nametables: zeroed(0x1000),
            palette: zeroed(0x20),
            oam: zeroed(256),
            secondary_oam: zeroed(32),
            sprite_shift_low: [0, 0, 0, 0, 0, 0, 0, 0],
            sprite_shift_high: [0, 0, 0, 0, 0, 0, 0, 0],
            sprite_latch: [0, 0, 0, 0, 0, 0, 0, 0],
            sprite_counter: [0, 0, 0, 0, 0, 0, 0, 0],
        };
        assert(r.sprite_shift_low@ =~= zeros(8));
        assert(r.sprite_shift_high@ =~= zeros(8));
        assert(r.sprite_latch@ =~= zeros(8));
        assert(r.sprite_counter@ =~= zeros(8));
        r
    }

    /// Whether this frame is an odd one.
    pub fn odd(&self) -> (r: bool)
        ensures
            r == self@.regs.odd,
    {
        self.regs.odd
    }

    /// Whether the frame before this one was odd, so that the line before the
    /// first visible one is a dot short while rendering is on.
    pub fn short_line(&self) -> (r: bool)
        ensures
            r == self@.regs.short_line,
            self.wf() && r ==> !self@.regs.odd,
    {
        self.regs.short_line
    }

    /// The line being drawn, from -1 to 260.
    pub fn scanline(&self) -> (r: i16)
        ensures
            r == self@.regs.scanline,
    {
        self.regs.scanline
    }

    /// The dot that the next tick works on, from 0 to 340.
    pub fn cycle(&self) -> (r: u16)
        ensures
            r == self@.regs.cycle,
    {
        self.regs.cycle
    }

    /// The processor addresses behind which the registers lie.
    pub fn in_range(&self, address: u16) -> (r: bool)
        ensures
            r == (PPU_START <= address <= PPU_END),
    {
        address >= PPU_START && address <= PPU_END
    }

    /// Whether the background or the sprites are switched on.
    pub fn rendering_enabled(&self) -> (r: bool)
        ensures
            r == self@.rendering_enabled(),
    {
        self.regs.mask.background_enable || self.regs.mask.sprite_enable
    }

    // ----- the cartridge, for the processor's side of the bus -----

    /// Whether the cartridge answers the processor at `address`.
    pub fn mapper_in_range(&self, address: u16) -> (r: bool)
        ensures
            r == crate::mapper::MapperView::in_range(address),
    {
        self.mapper.in_range(address)
    }

    /// The byte that the cartridge shows the processor at `address`.
    pub fn mapper_read_prg(&self, address: u16) -> (r: u8)
        requires
            self.wf(),
        ensures
            r == self@.mapper.read_prg(address),
    {
        self.mapper.read_prg(address)
    }

    /// A write of the processor into the cartridge.
    pub fn mapper_write_prg(&mut self, address: u16, value: u8)
        requires
            old(self).wf(),
        ensures
            final(self).wf(),
            final(self)@ == (PpuView {
                mapper: old(self)@.mapper.write_prg(address, value),
                ..old(self)@
            }),
    {
        self.mapper.write_prg(address, value);
    }

    // ----- the video address space -----

    fn nametable_offset(&self, address: u16) -> (r: usize)
        requires
            self.wf(),
        ensures
            r == nametable_index(self@.mapper.mirroring(), address),
            r < 0x1000,
    {
        let page: u16 = (address % 0x1000) / 0x400;
        let physical: u16 = match self.mapper.mirroring() {
            MirrorMode::Horizontal => page / 2,
            MirrorMode::Vertical => page % 2,
            MirrorMode::OneScreen => 0,
            MirrorMode::FourScreen => page,
        };
        (physical * 0x400 + address % 0x400) as usize
    }

    /// Reads a nametable byte through the mirroring of the cartridge.
    pub fn nametable_read(&self, address: u16) -> (r: u8)
        requires
            self.wf(),
        ensures
            r == self@.nametable_read(address),
    {
        let index = self.nametable_offset(address);
        self.nametables[index]
    }

    /// Writes a nametable byte through the mirroring of the cartridge.
    pub fn nametable_write(&mut self, address: u16, value: u8)
        requires
            old(self).wf(),
        ensures
            final(self).wf(),
            final(self)@ == old(self)@.nametable_write(address, value),
    {
        let index = self.nametable_offset(address);
        self.nametables[index] = value;
    }

    fn palette_offset(address: u16) -> (r: usize)
        ensures
            r == palette_index(address),
            r < 0x20,
    {
        let a: u16 = address % 0x20;
        if a >= 0x10 && a % 4 == 0 {
            (a - 0x10) as usize
        } else {
            a as usize
        }
    }

    /// Reads a palette entry; the result is a colour below 64.
    pub fn palette_read(&self, address: u16) -> (r: u8)
        requires
            self.wf(),
        ensures
            r == self@.palette_read(address),
            r < 64,
    {
        let value = self.palette[Self::palette_offset(address)];
        proof {
            lemma_mask_u8(value, 0x30);
        }
        if self.regs.mask.greyscale {
            value & 0x30
        } else {
            value
        }
    }

    /// Writes a palette entry.
    pub fn palette_write(&mut self, address: u16, value: u8)
        requires
            old(self).wf(),
        ensures
            final(self).wf(),
            final(self)@ == old(self)@.palette_write(address, value),
    {
        proof {
            lemma_mask_u8(value, 0x3f);
        }
        let index = Self::palette_offset(address);
        self.palette[index] = value & 0x3f;
    }

    /// Reads a byte of the video address space.
    pub fn vram_read(&self, address: u16) -> (r: u8)
        requires
            self.wf(),
        ensures
            r == self@.vram_read(address),
    {
        let address = address % 0x4000;
        if address < 0x2000 {
            return self.mapper.read_chr(address);
        }
        if address < 0x3f00 {
            return self.nametable_read(address);
        }
        self.palette_read(address)
    }

    /// Writes a byte of the video address space.
    pub fn vram_write(&mut self, address: u16, value: u8)
        requires
            old(self).wf(),
        ensures
            final(self).wf(),
            final(self)@ == old(self)@.vram_write(address, value),
    {
        let address = address % 0x4000;
        if address < 0x2000 {
            self.mapper.write_chr(address, value);
            return ;
        }
        if address < 0x3f00 {
            self.nametable_write(address, value);
            return ;
        }
        self.palette_write(address, value);
    }

    // ----- the scroll registers -----

    fn copy_horizontal_bits(&mut self)
        requires
            old(self).wf(),
        ensures
            final(self).wf(),
            final(self)@ == old(self)@.copy_horizontal_bits(),
            final(self)@.same_dot(old(self)@),
    {
        proof {
            lemma_fifteen_bits(self.regs.vram_address, self.regs.temp_vram_address, 0, 0);
        }
        self.regs.vram_address &= !0x041f;
        self.regs.vram_address |= self.regs.temp_vram_address & 0x041f;
    }

    fn copy_vertical_bits(&mut self)
        requires
            old(self).wf(),
        ensures
            final(self).wf(),
            final(self)@ == old(self)@.copy_vertical_bits(),
            final(self)@.same_dot(old(self)@),
    {
        proof {
            lemma_fifteen_bits(self.regs.vram_address, self.regs.temp_vram_address, 0, 0);
        }
        self.regs.vram_address &= !0x7be0;
        self.regs.vram_address |= self.regs.temp_vram_address & 0x7be0;
    }

    fn increment_horizontal_scroll(&mut self)
        requires
            old(self).wf(),
        ensures
            final(self).wf(),
            final(self)@ == old(self)@.increment_horizontal_scroll(),
            final(self)@.same_dot(old(self)@),
    {
        proof {
            lemma_fifteen_bits(self.regs.vram_address, self.regs.temp_vram_address, 0, 0);
        }
        if (self.regs.vram_address & 0x001f) == 31 {
            self.regs.vram_address &= !0x001f;
            self.regs.vram_address ^= 0x0400;
        } else {
            self.regs.vram_address += 1;
        }
    }

    fn increment_vertical_scroll(&mut self)
        requires
            old(self).wf(),
        ensures
            final(self).wf(),
            final(self)@ == old(self)@.increment_vertical_scroll(),
            final(self)@.same_dot(old(self)@),
    {
        proof {
            lemma_fifteen_bits(self.regs.vram_address, self.regs.temp_vram_address, 0, 0);
        }
        if (self.regs.vram_address & 0x7000) != 0x7000 {
            self.regs.vram_address += 0x1000;
        } else {
            self.regs.vram_address &= !0x7000;
            let mut coarse_y: u16 = (self.regs.vram_address & 0x03e0) >> 5;
            if coarse_y == 29 {
                coarse_y = 0;
                self.regs.vram_address ^= 0x0800;
            } else if coarse_y == 31 {
                coarse_y = 0;
            } else {
                coarse_y += 1;
            }
            self.regs.vram_address &= !0x03e0;
            self.regs.vram_address |= coarse_y << 5;
        }
    }

    /// The nametable address of the tile that `v` points at.
    pub fn get_tile_address(&self) -> (r: u16)
        ensures
            r == self@.get_tile_address(),
    {
        0x2000 | (self.regs.vram_address & 0x0fff)
    }

    /// The attribute table address of the tile that `v` points at.
    pub fn get_attribute_address(&self) -> (r: u16)
        ensures
            r == self@.get_attribute_address(),
    {
        let mut address: u16 = 0x23c0;
        address |= self.regs.vram_address & 0x0c00;
        address |= (self.regs.vram_address >> 4) & 0x38;
        address |= (self.regs.vram_address >> 2) & 0x07;
        address
    }

    // ----- the register interface -----

    fn read_status(&mut self) -> (r: u8)
        requires
            old(self).wf(),
        ensures
            final(self).wf(),
            r == old(self)@.io_read_value(PPU_STATUS),
            final(self)@ == old(self)@.io_read(PPU_STATUS),
    {
        let vblank: u8 = if self.regs.status.vblank { 0x80 } else { 0 };
        let sprite_0_hit: u8 = if self.regs.status.sprite_0_hit { 0x40 } else { 0 };
        let sprite_overflow: u8 = if self.regs.status.sprite_overflow { 0x20 } else { 0 };
        let latch: u8 = (self.regs.latch & 0x1f) | ((vblank | sprite_0_hit) | sprite_overflow);
        let suppress = self.regs.suppress_vblank || (self.regs.scanline == PPU_VBLANK_START
            && self.regs.cycle <= 1);
        self.regs.latch = latch;
        self.regs.status.vblank = false;
        self.regs.write_toggle = false;
        self.regs.should_nmi = false;
        self.regs.suppress_vblank = suppress;
        latch
    }

    fn read_data(&mut self) -> (r: u8)
        requires
            old(self).wf(),
        ensures
            final(self).wf(),
            r == old(self)@.io_read_value(PPU_DATA),
            final(self)@ == old(self)@.io_read(PPU_DATA),
    {
        let vram_address = self.regs.vram_address;
        proof {
            lemma_fifteen_bits(vram_address, vram_address, 0, self.regs.ctrl.vram_increment);
        }
        let latch: u8;
        let buffer: u8;
        if vram_address % 0x4000 >= 0x3f00 {
            latch = self.vram_read(vram_address);
            buffer = self.nametable_read(vram_address);
        } else {
            latch = self.regs.read_buffer;
            buffer = self.vram_read(vram_address);
        }
        self.regs.latch = latch;
        self.regs.read_buffer = buffer;
        self.regs.vram_address = vram_address.wrapping_add(self.regs.ctrl.vram_increment) & 0x7fff;
        latch
    }

    /// Reads the register at `address`, between 0x2000 and 0x2007.
    ///
    /// The write-only registers answer with the last byte that crossed the
    /// interface. Reading the status register always clears the write toggle.
    pub fn io_read(&mut self, address: u16) -> (r: u8)
        requires
            old(self).wf(),
            PPU_CTRL <= address <= PPU_DATA,
        ensures
            final(self).wf(),
            r == old(self)@.io_read_value(address),
            final(self)@ == old(self)@.io_read(address),
            address == PPU_STATUS ==> !final(self)@.regs.write_toggle && !final(self)@.regs.status.vblank,
    {
        if address == PPU_STATUS {
            self.read_status()
        } else if address == PPU_OAMDATA {
            let latch = self.oam[self.regs.oam_addr as usize];
            self.regs.latch = latch;
            latch
        } else if address == PPU_DATA {
            self.read_data()
        } else {
            self.regs.latch
        }
    }

    fn write_ctrl(&mut self, value: u8)
        requires
            old(self).wf(),
        ensures
            final(self).wf(),
            final(self)@ == old(self)@.with_regs(PpuView::write_ctrl(old(self)@.regs, value)),
    {
        proof {
            lemma_fifteen_bits(0, self.regs.temp_vram_address, value, 0);
        }
        self.regs.latch = value;
        self.regs.ctrl = Control {
            nmi_enable: (value & 0x80) != 0,
            tall_sprites: (value & 0x20) != 0,
            bg_pattern_table: if (value & 0x10) != 0 { 0x1000 } else { 0 },
            sprite_pattern_table: if (value & 0x08) != 0 { 0x1000 } else { 0 },
            vram_increment: if (value & 0x04) != 0 { 32 } else { 1 },
        };
        self.regs.temp_vram_address = (self.regs.temp_vram_address & !0x0c00) | (((value as u16)
            & 0x03) << 10);
    }

    fn write_mask(&mut self, value: u8)
        requires
            old(self).wf(),
        ensures
            final(self).wf(),
            final(self)@ == old(self)@.with_regs(PpuView::write_mask(old(self)@.regs, value)),
    {
        self.regs.latch = value;
        self.regs.mask = Mask {
            sprite_enable: (value & 0x10) != 0,
            background_enable: (value & 0x08) != 0,
            lc_sprite_enable: (value & 0x04) != 0,
            lc_background_enable: (value & 0x02) != 0,
            greyscale: (value & 0x01) != 0,
        };
    }

    fn write_scroll(&mut self, value: u8)
        requires
            old(self).wf(),
        ensures
            final(self).wf(),
            final(self)@ == old(self)@.with_regs(PpuView::write_scroll(old(self)@.regs, value)),
    {
        proof {
            lemma_fifteen_bits(0, self.regs.temp_vram_address, value, 0);
            lemma_mask_u8(value, 0x7);
        }
        let t = self.regs.temp_vram_address;
        self.regs.latch = value;
        if self.regs.write_toggle {
            self.regs.temp_vram_address = ((t & !0x73e0) | (((value as u16) & 0xf8) << 2)) | (((
            value as u16) & 0x07) << 12);
            self.regs.write_toggle = false;
        } else {
            self.regs.temp_vram_address = (t & !0x001f) | ((value as u16) >> 3);
            self.regs.fine_x_scroll = value & 0x7;
            self.regs.write_toggle = true;
        }
    }

    fn write_addr(&mut self, value: u8)
        requires
            old(self).wf(),
        ensures
            final(self).wf(),
            final(self)@ == old(self)@.with_regs(PpuView::write_addr(old(self)@.regs, value)),
    {
        proof {
            lemma_fifteen_bits(0, self.regs.temp_vram_address, value, 0);
        }
        let t = self.regs.temp_vram_address;
        self.regs.latch = value;
        if self.regs.write_toggle {
            let address = (t & !0x00ff) | (value as u16);
            self.regs.temp_vram_address = address;
            self.regs.vram_address = address;
            self.regs.write_toggle = false;
        } else {
            self.regs.temp_vram_address = (t & !0xff00) | (((value as u16) & 0x3f) << 8);
            self.regs.write_toggle = true;
        }
    }

    fn write_data(&mut self, value: u8)
        requires
            old(self).wf(),
        ensures
            final(self).wf(),
            final(self)@ == old(self)@.write_data(value),
    {
        let vram_address = self.regs.vram_address;
        proof {
            lemma_fifteen_bits(vram_address, vram_address, 0, self.regs.ctrl.vram_increment);
        }
        self.vram_write(vram_address, value);
        assert(self.regs == old(self).regs);
        self.regs.latch = value;
        self.regs.vram_address = vram_address.wrapping_add(self.regs.ctrl.vram_increment) & 0x7fff;
    }

    /// Writes the register at `address`, between 0x2000 and 0x2007.
    pub fn io_write(&mut self, address: u16, value: u8)
        requires
            old(self).wf(),
            PPU_CTRL <= address <= PPU_DATA,
        ensures
            final(self).wf(),
            final(self)@ == old(self)@.io_write(address, value),
    {
        if address == PPU_CTRL {
            self.write_ctrl(value);
        } else if address == PPU_MASK {
            self.write_mask(value);
        } else if address == PPU_OAMADDR {
            self.regs.latch = value;
            self.regs.oam_addr = value;
        } else if address == PPU_OAMDATA {
            self.oam[self.regs.oam_addr as usize] = value;
            self.regs.latch = value;
            self.regs.oam_addr = self.regs.oam_addr.wrapping_add(1);
        } else if address == PPU_SCROLL {
            self.write_scroll(value);
        } else if address == PPU_ADDR {
            self.write_addr(value);
        } else if address == PPU_DATA {
            self.write_data(value);
        } else {
            self.regs.latch = value;
        }
    }

    /// Whether an interrupt has been raised since this was last asked; asking
    /// takes the interrupt.
    pub fn should_nmi(&mut self) -> (r: bool)
        ensures
            r == old(self)@.regs.should_nmi,
            final(self)@ == old(self)@.take_nmi(),
            old(self).wf() ==> final(self).wf(),
    {
        let r = self.regs.should_nmi;
        self.regs.should_nmi = false;
        r
    }

    /// Whether a frame has been completed since this was last asked; asking
    /// takes the frame.
    pub fn should_redraw(&mut self) -> (r: bool)
        ensures
            r == old(self)@.regs.redraw,
            final(self)@ == old(self)@.take_redraw(),
            old(self).wf() ==> final(self).wf(),
    {
        let r = self.regs.redraw;
        self.regs.redraw = false;
        r
    }

    /// The frame as RGB24: 240 rows of 256 pixels, three bytes each.
    pub fn draw_screen(&self) -> (r: Vec<u8>)
        requires
            self.wf(),
        ensures
            r@ == self@.screen_rgb(),
    {
        let mut out: Vec<u8> = Vec::new();
        let mut i: usize = 0;
        while i < 256 * 240
            invariant
                self.wf(),
                i <= 256 * 240,
                out@.len() == 3 * i,
                forall|k: int| 0 <= k < 3 * i ==> out@[k] == rgb_at(self@.framebuffer, k),
            decreases 256 * 240 - i,
        {
            let colour: usize = self.framebuffer[i] as usize;
            assert(self@.framebuffer[i as int] < 64);
            let p: usize = colour * 3;
            out.push(PALETTE[p]);
            out.push(PALETTE[p + 1]);
            out.push(PALETTE[p + 2]);
            i += 1;
        }
        assert(out@ =~= self@.screen_rgb());
        out
    }
}

} // verus!
