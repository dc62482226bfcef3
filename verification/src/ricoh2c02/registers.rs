//! The registers, latches and counters of the picture unit: everything in it
//! that is not a memory.
use vstd::prelude::*;

verus! {

/// The first processor address behind which the registers lie.
pub const PPU_START: u16 = 0x2000;

/// The last processor address behind which the registers lie.
pub const PPU_END: u16 = 0x3fff;

pub const PPU_CTRL: u16 = 0x2000;

pub const PPU_MASK: u16 = 0x2001;

pub const PPU_STATUS: u16 = 0x2002;

pub const PPU_OAMADDR: u16 = 0x2003;

pub const PPU_OAMDATA: u16 = 0x2004;

pub const PPU_SCROLL: u16 = 0x2005;

pub const PPU_ADDR: u16 = 0x2006;

pub const PPU_DATA: u16 = 0x2007;

/// The line before the first visible one, on which the flags are cleared.
pub const PPU_PRERENDER: i16 = -1;

/// The idle line after the last visible one.
pub const PPU_POSTRENDER: i16 = 240;

/// The line on whose second dot the vertical blank begins.
pub const PPU_VBLANK_START: i16 = 241;

/// The last line of a frame.
pub const PPU_VBLANK_END: i16 = 260;

/// The last dot of a line.
pub const PPU_LAST_CYCLE: u16 = 340;

/// What the control register holds.
#[derive(Clone, Copy, Debug)]
pub struct Control {
    pub nmi_enable: bool,
    /// Sprites are 16 lines tall instead of 8.
    pub tall_sprites: bool,
    pub bg_pattern_table: u16,
    pub sprite_pattern_table: u16,
    pub vram_increment: u16,
}

/// What the mask register holds.
#[derive(Clone, Copy, Debug)]
pub struct Mask {
    pub sprite_enable: bool,
    pub background_enable: bool,
    /// Sprites show in the eight leftmost columns.
    pub lc_sprite_enable: bool,
    /// The background shows in the eight leftmost columns.
    pub lc_background_enable: bool,
    pub greyscale: bool,
}

/// The three flags of the status register.
#[derive(Clone, Copy, Debug)]
pub struct Flags {
    pub vblank: bool,
    pub sprite_0_hit: bool,
    pub sprite_overflow: bool,
}

/// The state of the sprite evaluation.
#[derive(Clone, Copy, Debug)]
pub struct Evaluation {
    /// Where the evaluation reads the sprite memory.
    pub oam_index: u8,
    pub oam_2_addr: u8,
    pub oam_buffer: u8,
    pub oam_overflow: bool,
    /// Sprite 0 is among the sprites found for the next line.
    pub sprite_0_next: bool,
}

/// All registers of the picture unit.
#[derive(Clone, Copy, Debug)]
pub struct Registers {
    /// The line being drawn, from -1 to 260.
    pub scanline: i16,
    /// The dot that the next tick works on, from 0 to 340.
    pub cycle: u16,
    /// Whether this frame is an odd one. The flag flips after line 260.
    pub odd: bool,
    /// Whether the frame before this one was odd, so that the line before
    /// the first visible one leaves out a dot while rendering is on.
    pub short_line: bool,
    /// The last byte that crossed the register interface.
    pub latch: u8,
    /// The byte that the next read of the data port returns.
    pub read_buffer: u8,
    /// The sprite address, which the sprite data port reads and writes at.
    pub oam_addr: u8,
    pub ctrl: Control,
    pub mask: Mask,
    pub status: Flags,
    /// An interrupt has been raised and not yet taken.
    pub should_nmi: bool,
    /// A frame has been completed and not yet fetched.
    pub redraw: bool,
    /// The status port was read so close before the vertical blank that the
    /// flag will not be set in this frame.
    pub suppress_vblank: bool,
    /// `v`: the current video address, 15 bits.
    pub vram_address: u16,
    /// `t`: the address being assembled, 15 bits.
    pub temp_vram_address: u16,
    /// `x`: the fine horizontal scroll, 3 bits.
    pub fine_x_scroll: u8,
    /// `w`: set between the two writes of a pair.
    pub write_toggle: bool,
    pub tile_address: u16,
    pub tile_low: u8,
    pub tile_high: u8,
    pub tile_shift_low: u16,
    pub tile_shift_high: u16,
    pub attribute_shift_low: u8,
    pub attribute_shift_high: u8,
    pub attribute_latch_low: u8,
    pub attribute_latch_high: u8,
    pub next_attribute_latch_low: u8,
    pub next_attribute_latch_high: u8,
    pub eval: Evaluation,
    /// Sprite 0 sits in the first slot on this line.
    pub sprite_0_line: bool,
}

impl Control {
    /// What a byte written to the control register means.
    pub open spec fn decode(value: u8) -> Control {
        Control {
            nmi_enable: (value & 0x80) != 0,
            tall_sprites: (value & 0x20) != 0,
            bg_pattern_table: if (value & 0x10) != 0 { 0x1000 } else { 0 },
            sprite_pattern_table: if (value & 0x08) != 0 { 0x1000 } else { 0 },
            vram_increment: if (value & 0x04) != 0 { 32 } else { 1 },
        }
    }

    pub open spec fn wf(self) -> bool {
        &&& self.vram_increment == 1 || self.vram_increment == 32
        &&& self.bg_pattern_table == 0 || self.bg_pattern_table == 0x1000
        &&& self.sprite_pattern_table == 0 || self.sprite_pattern_table == 0x1000
    }

    /// Height of a sprite in lines.
    pub open spec fn sprite_size(self) -> u8 {
        if self.tall_sprites {
            16
        } else {
            8
        }
    }
}

impl Mask {
    /// What a byte written to the mask register means.
    pub open spec fn decode(value: u8) -> Mask {
        Mask {
            sprite_enable: (value & 0x10) != 0,
            background_enable: (value & 0x08) != 0,
            lc_sprite_enable: (value & 0x04) != 0,
            lc_background_enable: (value & 0x02) != 0,
            greyscale: (value & 0x01) != 0,
        }
    }

    pub open spec fn rendering_enabled(self) -> bool {
        self.background_enable || self.sprite_enable
    }
}

impl Flags {
    /// The three flags as they stand in bits 7, 6 and 5 of the status byte.
    pub open spec fn bits(self) -> u8 {
        (if self.vblank { 0x80u8 } else { 0u8 }) | (if self.sprite_0_hit { 0x40u8 } else { 0u8 })
            | (if self.sprite_overflow { 0x20u8 } else { 0u8 })
    }
}

impl Registers {
    /// The registers of a picture unit that has just been switched on: all
    /// clear, about to start the line before the first visible one.
    pub open spec fn init() -> Registers {
        Registers {
            scanline: PPU_PRERENDER,
            cycle: 0,
            odd: false,
            short_line: false,
            latch: 0,
            read_buffer: 0,
            oam_addr: 0,
            ctrl: Control {
                nmi_enable: false,
                tall_sprites: false,
                bg_pattern_table: 0,
                sprite_pattern_table: 0,
                vram_increment: 1,
            },
            mask: Mask {
                sprite_enable: false,
                background_enable: false,
                lc_sprite_enable: false,
                lc_background_enable: false,
                greyscale: false,
            },
            status: Flags { vblank: false, sprite_0_hit: false, sprite_overflow: false },
            should_nmi: false,
            redraw: false,
            suppress_vblank: false,
            vram_address: 0,
            temp_vram_address: 0,
            fine_x_scroll: 0,
            write_toggle: false,
            tile_address: 0,
            tile_low: 0,
            tile_high: 0,
            tile_shift_low: 0,
            tile_shift_high: 0,
            attribute_shift_low: 0,
            attribute_shift_high: 0,
            attribute_latch_low: 0,
            attribute_latch_high: 0,
            next_attribute_latch_low: 0,
            next_attribute_latch_high: 0,
            eval: Evaluation {
                oam_index: 0,
                oam_2_addr: 0,
                oam_buffer: 0,
                oam_overflow: false,
                sprite_0_next: false,
            },
            sprite_0_line: false,
        }
    }

    pub open spec fn wf(self) -> bool {
        &&& -1 <= self.scanline <= 260
        &&& self.cycle <= 340
        &&& !(self.odd && self.short_line)
        &&& self.ctrl.wf()
        &&& self.vram_address < 0x8000
        &&& self.temp_vram_address < 0x8000
        &&& self.fine_x_scroll < 8
        &&& self.eval.oam_2_addr <= 32
        &&& self.eval.oam_2_addr % 4 == 0
    }

    pub open spec fn rendering_enabled(self) -> bool {
        self.mask.rendering_enabled()
    }

    /// The line number as the sprite fetcher sees it: sixteen bits, all set
    /// on the line before the first.
    pub open spec fn line16(self) -> u16 {
        if self.scanline < 0 {
            0xffff
        } else {
            self.scanline as u16
        }
    }
}

/// `v` with the coarse X and the horizontal nametable bit taken from `t`.
pub open spec fn copy_horizontal(v: u16, t: u16) -> u16 {
    (v & !0x041fu16) | (t & 0x041f)
}

/// `v` with fine Y, coarse Y and the vertical nametable bit taken from `t`.
pub open spec fn copy_vertical(v: u16, t: u16) -> u16 {
    (v & !0x7be0u16) | (t & 0x7be0)
}

/// `v` one tile to the right: coarse X goes up, and from 31 it returns to 0
/// and the horizontal nametable bit flips.
pub open spec fn increment_horizontal(v: u16) -> u16 {
    if (v & 0x001f) == 31 {
        (v & !0x001fu16) ^ 0x0400
    } else {
        v.wrapping_add(1)
    }
}

/// Coarse Y one row down: from 29 it returns to 0 and the vertical nametable
/// bit flips; from 31 it returns to 0 and the bit stays.
pub open spec fn next_coarse_y(v: u16) -> u16 {
    let coarse_y = (v & 0x03e0) >> 5;
    if coarse_y == 29 {
        ((v ^ 0x0800) & !0x03e0u16) | (0u16 << 5)
    } else if coarse_y == 31 {
        (v & !0x03e0u16) | (0u16 << 5)
    } else {
        (v & !0x03e0u16) | (coarse_y.wrapping_add(1) << 5)
    }
}

/// `v` one line down: fine Y goes up, and from 7 it returns to 0 and coarse Y
/// moves on.
pub open spec fn increment_vertical(v: u16) -> u16 {
    if (v & 0x7000) != 0x7000 {
        v.wrapping_add(0x1000)
    } else {
        next_coarse_y(v & !0x7000u16)
    }
}

/// The nametable address of the tile that `v` points at.
pub open spec fn tile_address_of(v: u16) -> u16 {
    0x2000 | (v & 0x0fff)
}

/// The attribute table address of the tile that `v` points at.
pub open spec fn attribute_address_of(v: u16) -> u16 {
    0x23c0 | (v & 0x0c00) | ((v >> 4) & 0x38) | ((v >> 2) & 0x07)
}

/// `t` after a write to the control register: bits 10 and 11 take the low two
/// bits of the value.
pub open spec fn control_t(t: u16, value: u8) -> u16 {
    (t & !0x0c00u16) | (((value as u16) & 0x03) << 10)
}

/// `t` after the first write of a scroll pair: coarse X from the top five
/// bits of the value.
pub open spec fn scroll_first_t(t: u16, value: u8) -> u16 {
    (t & !0x001fu16) | ((value as u16) >> 3)
}

/// `t` after the second write of a scroll pair: coarse Y from the top five
/// bits of the value, fine Y from its low three.
pub open spec fn scroll_second_t(t: u16, value: u8) -> u16 {
    ((t & !0x73e0u16) | (((value as u16) & 0xf8) << 2)) | (((value as u16) & 0x07) << 12)
}

/// `t` after the first write of an address pair: bits 8 to 13 from the value,
/// bit 14 clear.
pub open spec fn addr_first_t(t: u16, value: u8) -> u16 {
    (t & !0xff00u16) | (((value as u16) & 0x3f) << 8)
}

/// `t` after the second write of an address pair: the low byte is the value.
pub open spec fn addr_second_t(t: u16, value: u8) -> u16 {
    (t & !0x00ffu16) | (value as u16)
}

/// `v` after an access to the data port.
pub open spec fn advance_v(v: u16, increment: u16) -> u16 {
    v.wrapping_add(increment) & 0x7fff
}

/// The place of a tile's two attribute bits within its attribute byte.
pub open spec fn quadrant_shift(v: u16) -> u16 {
    ((v >> 4) & 0x4) | (v & 0x2)
}

/// The place is a shift within a byte.
pub proof fn lemma_quadrant_shift(v: u16)
    ensures
        quadrant_shift(v) < 8,
{
    assert((((v >> 4) & 0x4) | (v & 0x2)) < 8) by (bit_vector);
}

/// All of these keep `v` and `t` within fifteen bits.
pub proof fn lemma_fifteen_bits(v: u16, t: u16, value: u8, increment: u16)
    requires
        v < 0x8000,
        t < 0x8000,
    ensures
        copy_horizontal(v, t) < 0x8000,
        copy_vertical(v, t) < 0x8000,
        increment_horizontal(v) < 0x8000,
        increment_vertical(v) < 0x8000,
        control_t(t, value) < 0x8000,
        scroll_first_t(t, value) < 0x8000,
        scroll_second_t(t, value) < 0x8000,
        addr_first_t(t, value) < 0x8000,
        addr_second_t(t, value) < 0x8000,
        advance_v(v, increment) < 0x8000,
        (v & 0x001f) != 31 ==> v + 1 < 0x8000,
        (v & 0x7000) != 0x7000 ==> v + 0x1000 < 0x8000,
        ((v & !0x7000u16) & 0x03e0) >> 5 <= 31,
{
    assert(((v & !0x041fu16) | (t & 0x041f)) < 0x8000) by (bit_vector)
        requires
            v < 0x8000,
            t < 0x8000,
    ;
    assert(((v & !0x7be0u16) | (t & 0x7be0)) < 0x8000) by (bit_vector)
        requires
            v < 0x8000,
            t < 0x8000,
    ;
    assert(((v & !0x001fu16) ^ 0x0400) < 0x8000 && ((v & 0x001f) != 31 ==> v + 1 < 0x8000)
        && ((v & 0x7000) != 0x7000 ==> v + 0x1000 < 0x8000)) by (bit_vector)
        requires
            v < 0x8000,
    ;
    assert({
        let w = v & !0x7000u16;
        let c = (w & 0x03e0) >> 5;
        &&& c <= 31
        &&& (((w ^ 0x0800) & !0x03e0u16) | (0u16 << 5)) < 0x8000
        &&& ((w & !0x03e0u16) | (0u16 << 5)) < 0x8000
        &&& (c != 31 ==> ((w & !0x03e0u16) | (((c + 1) as u16) << 5)) < 0x8000)
    }) by (bit_vector)
        requires
            v < 0x8000,
    ;
    assert({
        &&& ((t & !0x0c00u16) | (((value as u16) & 0x03) << 10)) < 0x8000
        &&& ((t & !0x001fu16) | ((value as u16) >> 3)) < 0x8000
        &&& (((t & !0x73e0u16) | (((value as u16) & 0xf8) << 2)) | (((value as u16) & 0x07)
            << 12)) < 0x8000
        &&& ((t & !0xff00u16) | (((value as u16) & 0x3f) << 8)) < 0x8000
        &&& ((t & !0x00ffu16) | (value as u16)) < 0x8000
    }) by (bit_vector)
        requires
            t < 0x8000,
    ;
    let s = v.wrapping_add(increment);
    assert(s & 0x7fff < 0x8000) by (bit_vector);
}

} // verus!
