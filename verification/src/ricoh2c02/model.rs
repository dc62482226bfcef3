//! The picture unit as a mathematical state, and each of its operations as a
//! function from state to state.
use crate::mapper::MapperView;
use crate::memory::zeros;
use crate::ricoh2c02::registers::{
    addr_first_t, addr_second_t, advance_v, attribute_address_of, control_t, copy_horizontal,
    copy_vertical, increment_horizontal, increment_vertical, quadrant_shift, scroll_first_t,
    scroll_second_t, tile_address_of, Control, Evaluation, Flags, Mask, Registers, PPU_ADDR, PPU_CTRL, PPU_DATA, PPU_LAST_CYCLE, PPU_MASK,
    PPU_OAMADDR, PPU_OAMDATA, PPU_POSTRENDER, PPU_PRERENDER, PPU_SCROLL, PPU_STATUS,
    PPU_VBLANK_END, PPU_VBLANK_START,
};
use crate::rom::MirrorMode;
use vstd::prelude::*;

verus! {

/// The mathematical content of a picture unit: its registers, its memories
/// and the cartridge whose pattern side it reads.
pub struct PpuView {
    pub regs: Registers,
    pub mapper: MapperView,
    /// One palette value for each of the 256 by 240 pixels, row by row.
    pub framebuffer: Seq<u8>,
    /// Four physical nametable pages of 1 KiB.
    pub nametables: Seq<u8>,
    pub palette: Seq<u8>,
    pub oam: Seq<u8>,
    pub secondary_oam: Seq<u8>,
    pub sprite_shift_low: Seq<u8>,
    pub sprite_shift_high: Seq<u8>,
    pub sprite_latch: Seq<u8>,
    pub sprite_counter: Seq<u8>,
}

/// The red, green and blue levels of the 64 colours, three bytes each.
pub const PALETTE: [u8; 192] = [
    84, 84, 84, 0, 30, 116, 8, 16, 144, 48, 0, 136, 68, 0, 100, 92, 0, 48, 84, 4, 0, 60, 24, 0,
    32, 42, 0, 8, 58, 0, 0, 64, 0, 0, 60, 0, 0, 50, 60, 0, 0, 0, 0, 0, 0, 0, 0, 0,
    152, 150, 152, 8, 76, 196, 48, 50, 236, 92, 30, 228, 136, 20, 176, 160, 20, 100, 152, 34, 32, 120, 60, 0,
    84, 90, 0, 40, 114, 0, 8, 124, 0, 0, 118, 40, 0, 102, 120, 0, 0, 0, 0, 0, 0, 0, 0, 0,
    236, 238, 236, 76, 154, 236, 120, 124, 236, 176, 98, 236, 228, 84, 236, 236, 88, 180, 236, 106, 100, 212, 136, 32,
    160, 170, 0, 116, 196, 0, 76, 208, 32, 56, 204, 108, 56, 180, 204, 60, 60, 60, 0, 0, 0, 0, 0, 0,
    236, 238, 236, 168, 204, 236, 188, 188, 236, 212, 178, 236, 236, 174, 236, 236, 174, 212, 236, 180, 176, 228, 196, 144,
    204, 210, 120, 180, 222, 120, 168, 226, 144, 152, 226, 180, 160, 214, 228, 160, 162, 160, 0, 0, 0, 0, 0, 0,
];

/// The byte at place `k` of the picture in RGB24: the level `k % 3` of the
/// colour of pixel `k / 3`.
pub open spec fn rgb_at(framebuffer: Seq<u8>, k: int) -> u8 {
    PALETTE@[framebuffer[k / 3] * 3 + k % 3]
}

/// The physical page behind one of the four logical nametables.
pub open spec fn nametable_page(mode: MirrorMode, logical: int) -> int {
    match mode {
        MirrorMode::Horizontal => logical / 2,
        MirrorMode::Vertical => logical % 2,
        MirrorMode::OneScreen => 0,
        MirrorMode::FourScreen => logical,
    }
}

/// The place in the nametable memory that a video address reaches.
pub open spec fn nametable_index(mode: MirrorMode, address: u16) -> int {
    nametable_page(mode, ((address % 0x1000) / 0x400) as int) * 0x400 + address % 0x400
}

/// The palette entry that a video address reaches: the palette repeats every
/// 32 bytes, and entries 0x10, 0x14, 0x18 and 0x1c are entries 0x00, 0x04,
/// 0x08 and 0x0c.
pub open spec fn palette_index(address: u16) -> int {
    let a = address % 0x20;
    if a >= 0x10 && a % 4 == 0 {
        a - 0x10
    } else {
        a as int
    }
}

/// Whether a sprite whose top is at `y` covers the line `scanline`.
pub open spec fn sprite_in_range(y: u8, scanline: i16, size: u8) -> bool {
    scanline >= y && scanline < y + size
}

impl PpuView {
    pub open spec fn wf(self) -> bool {
        &&& self.regs.wf()
        &&& self.mapper.wf()
        &&& self.framebuffer.len() == 256 * 240
        &&& self.nametables.len() == 0x1000
        &&& self.palette.len() == 0x20
        &&& self.oam.len() == 256
        &&& self.secondary_oam.len() == 32
        &&& self.sprite_shift_low.len() == 8
        &&& self.sprite_shift_high.len() == 8
        &&& self.sprite_latch.len() == 8
        &&& self.sprite_counter.len() == 8
        &&& forall|i: int| 0 <= i < self.palette.len() ==> #[trigger] self.palette[i] < 64
        &&& forall|i: int| 0 <= i < self.framebuffer.len() ==> #[trigger] self.framebuffer[i] < 64
    }

    /// The unit at power-on, bound to a cartridge.
    pub open spec fn init(mapper: MapperView) -> PpuView {
        PpuView {
            regs: Registers::init(),
            mapper,
            framebuffer: zeros(256 * 240),
            nametables: zeros(0x1000),
            palette: zeros(0x20),
            oam: zeros(256),
            secondary_oam: zeros(32),
            sprite_shift_low: zeros(8),
            sprite_shift_high: zeros(8),
            sprite_latch: zeros(8),
            sprite_counter: zeros(8),
        }
    }

    pub open spec fn with_regs(self, regs: Registers) -> PpuView {
        PpuView { regs, ..self }
    }

    pub open spec fn with_eval(self, eval: Evaluation) -> PpuView {
        PpuView { regs: Registers { eval, ..self.regs }, ..self }
    }

    pub open spec fn rendering_enabled(self) -> bool {
        self.regs.rendering_enabled()
    }

    /// Both states hold the same sprites at the same sprite address, and the
    /// same cartridge.
    pub open spec fn same_sprites(self, other: PpuView) -> bool {
        &&& self.oam == other.oam
        &&& self.regs.oam_addr == other.regs.oam_addr
        &&& self.mapper == other.mapper
    }

    /// Both states stand at the same dot of the same frame, with the same
    /// control and mask settings.
    pub open spec fn same_dot(self, other: PpuView) -> bool {
        &&& self.regs.scanline == other.regs.scanline
        &&& self.regs.cycle == other.regs.cycle
        &&& self.regs.odd == other.regs.odd
        &&& self.regs.short_line == other.regs.short_line
        &&& self.regs.ctrl == other.regs.ctrl
        &&& self.regs.mask == other.regs.mask
    }

    // ----- the video address space -----

    pub open spec fn nametable_read(self, address: u16) -> u8 {
        self.nametables[nametable_index(self.mapper.mirroring(), address)]
    }

    pub open spec fn nametable_write(self, address: u16, value: u8) -> PpuView {
        PpuView {
            nametables: self.nametables.update(
                nametable_index(self.mapper.mirroring(), address),
                value,
            ),
            ..self
        }
    }

    /// The palette entry, reduced to its grey level while greyscale is on.
    pub open spec fn palette_read(self, address: u16) -> u8 {
        let value = self.palette[palette_index(address)];
        if self.regs.mask.greyscale {
            value & 0x30
        } else {
            value
        }
    }

    /// Stores the low six bits of the value.
    pub open spec fn palette_write(self, address: u16, value: u8) -> PpuView {
        PpuView { palette: self.palette.update(palette_index(address), value & 0x3f), ..self }
    }

    /// Pattern tables below 0x2000, nametables up to 0x3eff, palette above;
    /// the whole repeats every 0x4000.
    pub open spec fn vram_read(self, address: u16) -> u8 {
        let a = address % 0x4000;
        if a < 0x2000 {
            self.mapper.read_chr(a)
        } else if a < 0x3f00 {
            self.nametable_read(a)
        } else {
            self.palette_read(a)
        }
    }

    pub open spec fn vram_write(self, address: u16, value: u8) -> PpuView {
        let a = address % 0x4000;
        if a < 0x2000 {
            PpuView { mapper: self.mapper.write_chr(a, value), ..self }
        } else if a < 0x3f00 {
            self.nametable_write(a, value)
        } else {
            self.palette_write(a, value)
        }
    }

    // ----- the scroll registers -----

    pub open spec fn copy_horizontal_bits(self) -> PpuView {
        self.with_regs(
            Registers {
                vram_address: copy_horizontal(self.regs.vram_address, self.regs.temp_vram_address),
                ..self.regs
            },
        )
    }

    pub open spec fn copy_vertical_bits(self) -> PpuView {
        self.with_regs(
            Registers {
                vram_address: copy_vertical(self.regs.vram_address, self.regs.temp_vram_address),
                ..self.regs
            },
        )
    }

    pub open spec fn increment_horizontal_scroll(self) -> PpuView {
        self.with_regs(
            Registers { vram_address: increment_horizontal(self.regs.vram_address), ..self.regs },
        )
    }

    pub open spec fn increment_vertical_scroll(self) -> PpuView {
        self.with_regs(
            Registers { vram_address: increment_vertical(self.regs.vram_address), ..self.regs },
        )
    }

    pub open spec fn get_tile_address(self) -> u16 {
        tile_address_of(self.regs.vram_address)
    }

    pub open spec fn get_attribute_address(self) -> u16 {
        attribute_address_of(self.regs.vram_address)
    }

    // ----- the register interface -----

    /// The byte that a read of a register returns.
    pub open spec fn io_read_value(self, address: u16) -> u8 {
        if address == PPU_STATUS {
            (self.regs.latch & 0x1f) | self.regs.status.bits()
        } else if address == PPU_OAMDATA {
            self.oam[self.regs.oam_addr as int]
        } else if address == PPU_DATA {
            if self.regs.vram_address % 0x4000 >= 0x3f00 {
                self.vram_read(self.regs.vram_address)
            } else {
                self.regs.read_buffer
            }
        } else {
            self.regs.latch
        }
    }

    /// The unit after a read of a register.
    ///
    /// A read of the status register clears the vertical blank flag, the
    /// write toggle and a raised interrupt; on the first two dots of line 241
    /// it also keeps the flag from being set in this frame. A read of the
    /// data port refills the read buffer, from the nametable behind the
    /// palette where `v` points into the palette, and advances `v`.
    pub open spec fn io_read(self, address: u16) -> PpuView {
        let r = self.regs;
        let latch = self.io_read_value(address);
        if address == PPU_STATUS {
            self.with_regs(
                Registers {
                    latch,
                    status: Flags { vblank: false, ..r.status },
                    write_toggle: false,
                    should_nmi: false,
                    suppress_vblank: r.suppress_vblank || (r.scanline == PPU_VBLANK_START
                        && r.cycle <= 1),
                    ..r
                },
            )
        } else if address == PPU_DATA {
            self.with_regs(
                Registers {
                    latch,
                    read_buffer: if r.vram_address % 0x4000 >= 0x3f00 {
                        self.nametable_read(r.vram_address)
                    } else {
                        self.vram_read(r.vram_address)
                    },
                    vram_address: advance_v(r.vram_address, r.ctrl.vram_increment),
                    ..r
                },
            )
        } else {
            self.with_regs(Registers { latch, ..r })
        }
    }

    /// The registers after a write to the control register.
    pub open spec fn write_ctrl(r: Registers, value: u8) -> Registers {
        Registers {
            latch: value,
            ctrl: Control::decode(value),
            temp_vram_address: control_t(r.temp_vram_address, value),
            ..r
        }
    }

    /// The registers after a write to the mask register.
    pub open spec fn write_mask(r: Registers, value: u8) -> Registers {
        Registers { latch: value, mask: Mask::decode(value), ..r }
    }

    /// The registers after a write to the scroll register.
    pub open spec fn write_scroll(r: Registers, value: u8) -> Registers {
        if r.write_toggle {
            Registers {
                latch: value,
                temp_vram_address: scroll_second_t(r.temp_vram_address, value),
                write_toggle: false,
                ..r
            }
        } else {
            Registers {
                latch: value,
                temp_vram_address: scroll_first_t(r.temp_vram_address, value),
                fine_x_scroll: value & 0x7,
                write_toggle: true,
                ..r
            }
        }
    }

    /// The registers after a write to the address register.
    pub open spec fn write_addr(r: Registers, value: u8) -> Registers {
        if r.write_toggle {
            Registers {
                latch: value,
                temp_vram_address: addr_second_t(r.temp_vram_address, value),
                vram_address: addr_second_t(r.temp_vram_address, value),
                write_toggle: false,
                ..r
            }
        } else {
            Registers {
                latch: value,
                temp_vram_address: addr_first_t(r.temp_vram_address, value),
                write_toggle: true,
                ..r
            }
        }
    }

    /// The unit after a write to a register. Every write leaves its value in
    /// the latch.
    pub open spec fn io_write(self, address: u16, value: u8) -> PpuView {
        let r = self.regs;
        if address == PPU_CTRL {
            self.with_regs(Self::write_ctrl(r, value))
        } else if address == PPU_MASK {
            self.with_regs(Self::write_mask(r, value))
        } else if address == PPU_OAMADDR {
            self.with_regs(
                Registers { latch: value, oam_addr: value, ..r },
            )
        } else if address == PPU_OAMDATA {
            PpuView {
                regs: Registers { latch: value, oam_addr: r.oam_addr.wrapping_add(1), ..r },
                oam: self.oam.update(r.oam_addr as int, value),
                ..self
            }
        } else if address == PPU_SCROLL {
            self.with_regs(Self::write_scroll(r, value))
        } else if address == PPU_ADDR {
            self.with_regs(Self::write_addr(r, value))
        } else if address == PPU_DATA {
            self.write_data(value)
        } else {
            self.with_regs(Registers { latch: value, ..r })
        }
    }

    /// The unit after a write to the data port: the value goes where `v`
    /// points, and `v` advances.
    pub open spec fn write_data(self, value: u8) -> PpuView {
        let r = self.regs;
        PpuView {
            regs: Registers {
                latch: value,
                vram_address: advance_v(r.vram_address, r.ctrl.vram_increment),
                ..r
            },
            ..self.vram_write(r.vram_address, value)
        }
    }

    /// The unit after a pending interrupt was asked for.
    pub open spec fn take_nmi(self) -> PpuView {
        self.with_regs(Registers { should_nmi: false, ..self.regs })
    }

    /// The unit after a completed frame was asked for.
    pub open spec fn take_redraw(self) -> PpuView {
        self.with_regs(Registers { redraw: false, ..self.regs })
    }

    // ----- the background -----

    /// The four-bit colour of the background at the current dot: the two
    /// attribute bits above the two pattern bits, each taken `x` places below
    /// the top of its shift register. Zero where the pattern bits are zero,
    /// and in the eight leftmost columns while these are masked.
    pub open spec fn get_pixel_colour(self) -> u8 {
        let r = self.regs;
        let attribute_high = ((r.attribute_shift_high << r.fine_x_scroll) & 0x80) >> 4;
        let attribute_low = ((r.attribute_shift_low << r.fine_x_scroll) & 0x80) >> 5;
        let tile_high = ((r.tile_shift_high << r.fine_x_scroll) & 0x8000) >> 14;
        let tile_low = ((r.tile_shift_low << r.fine_x_scroll) & 0x8000) >> 15;
        let colour = attribute_high | attribute_low | (tile_high as u8) | (tile_low as u8);
        if colour & 0x03 == 0 || (r.cycle <= 8 && !r.mask.lc_background_enable) {
            0
        } else {
            colour
        }
    }

    /// The unit after the fetch that belongs to the current dot: of every
    /// eight dots the second reloads the shift registers and fetches a tile
    /// number, the fourth fetches the attribute bits of the tile, the sixth
    /// and the eighth the two planes of its pattern. Nothing is fetched
    /// while rendering is off.
    pub open spec fn load_tile_info(self) -> PpuView {
        let r = self.regs;
        if !self.rendering_enabled() {
            self
        } else if r.cycle % 8 == 1 {
            let tile = self.vram_read(self.get_tile_address());
            self.with_regs(
                Registers {
                    tile_shift_low: r.tile_shift_low | (r.tile_low as u16),
                    tile_shift_high: r.tile_shift_high | (r.tile_high as u16),
                    attribute_latch_low: r.next_attribute_latch_low,
                    attribute_latch_high: r.next_attribute_latch_high,
                    tile_address: (r.ctrl.bg_pattern_table | (r.vram_address >> 12)) | ((tile as u16)
                        << 4),
                    ..r
                },
            )
        } else if r.cycle % 8 == 3 {
            let shift = quadrant_shift(r.vram_address);
            let bits = self.vram_read(self.get_attribute_address()) >> shift;
            self.with_regs(
                Registers {
                    next_attribute_latch_low: bits & 0x1,
                    next_attribute_latch_high: (bits & 0x2) >> 1,
                    ..r
                },
            )
        } else if r.cycle % 8 == 5 {
            self.with_regs(Registers { tile_low: self.vram_read(r.tile_address), ..r })
        } else if r.cycle % 8 == 7 {
            self.with_regs(
                Registers { tile_high: self.vram_read(r.tile_address.wrapping_add(8)), ..r },
            )
        } else {
            self
        }
    }

    // ----- the sprites -----

    /// The pattern register of one sprite slot after a dot: it moves only once
    /// the slot's counter has run out, to the right for a mirrored sprite and
    /// to the left otherwise.
    pub open spec fn shifted_sprite(self, bits: u8, i: int) -> u8 {
        if self.sprite_counter[i] == 0 {
            if self.sprite_latch[i] & 0x40 != 0 {
                bits >> 1
            } else {
                bits << 1
            }
        } else {
            bits
        }
    }

    /// Every shift register moves by one place; the attribute registers take
    /// in their latch.
    pub open spec fn shift_registers(self) -> PpuView {
        let r = self.regs;
        PpuView {
            regs: Registers {
                tile_shift_low: r.tile_shift_low << 1,
                tile_shift_high: r.tile_shift_high << 1,
                attribute_shift_low: (r.attribute_shift_low << 1) | r.attribute_latch_low,
                attribute_shift_high: (r.attribute_shift_high << 1) | r.attribute_latch_high,
                ..r
            },
            sprite_shift_low: Seq::new(
                8,
                |i: int| self.shifted_sprite(self.sprite_shift_low[i], i),
            ),
            sprite_shift_high: Seq::new(
                8,
                |i: int| self.shifted_sprite(self.sprite_shift_high[i], i),
            ),
            ..self
        }
    }

    /// Every counter that has not run out goes down by one.
    pub open spec fn count_down_sprites(self) -> PpuView {
        PpuView {
            sprite_counter: Seq::new(
                8,
                |i: int|
                    if self.sprite_counter[i] > 0 {
                        (self.sprite_counter[i] - 1) as u8
                    } else {
                        0u8
                    },
            ),
            ..self
        }
    }

    /// The five-bit colour that a sprite slot shows at the current dot, zero
    /// where it shows nothing.
    pub open spec fn get_sprite_colour(self, index: int) -> u8 {
        let r = self.regs;
        let attribute = (self.sprite_latch[index] & 0x03) << 2;
        let pattern_high = if self.sprite_latch[index] & 0x40 != 0 {
            (self.sprite_shift_high[index] & 0x01) << 1
        } else {
            (self.sprite_shift_high[index] & 0x80) >> 6
        };
        let pattern_low = if self.sprite_latch[index] & 0x40 != 0 {
            self.sprite_shift_low[index] & 0x01
        } else {
            (self.sprite_shift_low[index] & 0x80) >> 7
        };
        let colour = ((0x10 | attribute) | pattern_high) | pattern_low;
        if self.sprite_counter[index] != 0 || (r.cycle <= 8 && !r.mask.lc_sprite_enable) || colour
            & 0x03 == 0 {
            0
        } else {
            colour
        }
    }

    /// What a slot contributes to the picture: its colour while sprites are
    /// on, nothing otherwise.
    pub open spec fn sprite_pixel(self, index: int) -> u8 {
        if self.regs.mask.sprite_enable {
            self.get_sprite_colour(index)
        } else {
            0
        }
    }

    /// The first slot from `from` on that shows a pixel; 8 when none does.
    pub open spec fn first_opaque_sprite(self, from: int) -> int
        decreases 8 - from,
    {
        if from >= 8 {
            8
        } else if self.sprite_pixel(from) != 0 {
            from
        } else {
            self.first_opaque_sprite(from + 1)
        }
    }

    /// Whether sprite 0 meets the background at the current dot.
    pub open spec fn sprite_0_hits(self) -> bool {
        let background = if self.regs.mask.background_enable { self.get_pixel_colour() } else { 0 };
        &&& self.regs.sprite_0_line
        &&& background != 0
        &&& self.sprite_pixel(0) != 0
        &&& self.regs.cycle < 255
    }

    /// The palette address of the pixel at the current dot.
    ///
    /// With rendering off and `v` in the palette, the entry that `v` points
    /// at. Otherwise the first slot that shows a pixel decides: the sprite
    /// wins unless it lies behind a background that shows; where no slot
    /// shows a pixel the background stands.
    pub open spec fn pixel_colour(self) -> u16 {
        let r = self.regs;
        let background = if r.mask.background_enable { self.get_pixel_colour() } else { 0 };
        let k = self.first_opaque_sprite(0);
        if !self.rendering_enabled() && (r.vram_address & 0x3f00) == 0x3f00 {
            r.vram_address & 0x1f
        } else if k < 8 {
            if (self.sprite_latch[k] & 0x20) != 0 && background != 0 {
                background as u16
            } else {
                self.sprite_pixel(k) as u16
            }
        } else {
            background as u16
        }
    }

    /// The unit after the pixel was chosen: the sprite 0 flag is raised where
    /// sprite 0 met the background.
    pub open spec fn priority_select(self) -> PpuView {
        let r = self.regs;
        if !self.rendering_enabled() && (r.vram_address & 0x3f00) == 0x3f00 {
            self
        } else {
            self.with_regs(
                Registers {
                    status: Flags {
                        sprite_0_hit: r.status.sprite_0_hit || self.sprite_0_hits(),
                        ..r.status
                    },
                    ..r
                },
            )
        }
    }

    /// The unit after the pixel of the current dot was put into the frame.
    /// The top and bottom eight lines show the backdrop colour.
    pub open spec fn draw_pixel(self) -> PpuView {
        let r = self.regs;
        let s = self.priority_select();
        let value = if r.scanline < 8 || r.scanline > 231 {
            s.palette_read(0x3f00)
        } else {
            s.palette_read(self.pixel_colour())
        };
        PpuView { framebuffer: s.framebuffer.update(r.scanline * 256 + r.cycle - 1, value), ..s }
    }

    /// The evaluation state as a line's evaluation starts.
    pub open spec fn evaluation_start(e: Evaluation) -> Evaluation {
        Evaluation { oam_index: 0, oam_2_addr: 0, oam_overflow: false, sprite_0_next: false, ..e }
    }

    /// The secondary memory after the sprite under evaluation was copied to
    /// its next free slot: the Y that was read, then the three bytes behind it
    /// in the primary memory.
    pub open spec fn found_sprite(self) -> Seq<u8> {
        let e = self.regs.eval;
        self.secondary_oam.update(e.oam_2_addr as int, e.oam_buffer).update(
            e.oam_2_addr + 1,
            self.oam[e.oam_index.wrapping_add(1) as int],
        ).update(e.oam_2_addr + 2, self.oam[e.oam_index.wrapping_add(2) as int]).update(
            e.oam_2_addr + 3,
            self.oam[e.oam_index.wrapping_add(3) as int],
        )
    }

    /// Whether the sprite under evaluation covers the current line.
    pub open spec fn sprite_covers_line(self) -> bool {
        sprite_in_range(self.regs.eval.oam_buffer, self.regs.scanline, self.regs.ctrl.sprite_size())
    }

    /// The evaluation state after the sprite under evaluation was judged:
    /// while fewer than 8 sprites are found the address moves on by one
    /// sprite, and a sprite that covers the line takes a slot; after that the
    /// address moves on by five bytes past a sprite that does not cover the
    /// line. The evaluation ends when the address wraps.
    pub open spec fn judged(self) -> Evaluation {
        let e = self.regs.eval;
        let next4 = e.oam_index.wrapping_add(4);
        let next5 = e.oam_index.wrapping_add(5);
        if e.oam_2_addr < 32 {
            if self.sprite_covers_line() {
                Evaluation {
                    oam_2_addr: (e.oam_2_addr + 4) as u8,
                    oam_index: next4,
                    oam_overflow: next4 < 4,
                    sprite_0_next: e.sprite_0_next || e.oam_index == 0,
                    ..e
                }
            } else {
                Evaluation { oam_index: next4, oam_overflow: next4 < 4, ..e }
            }
        } else if self.sprite_covers_line() {
            e
        } else {
            Evaluation { oam_index: next5, oam_overflow: next5 < 4, ..e }
        }
    }

    /// The secondary memory after the sprite under evaluation was judged:
    /// while fewer than 8 sprites are found its Y is stored, and its other
    /// three bytes too if it covers the line.
    pub open spec fn judged_memory(self) -> Seq<u8> {
        let e = self.regs.eval;
        if e.oam_2_addr >= 32 {
            self.secondary_oam
        } else if self.sprite_covers_line() {
            self.found_sprite()
        } else {
            self.secondary_oam.update(e.oam_2_addr as int, e.oam_buffer)
        }
    }

    /// The status flags after the sprite under evaluation was judged: a ninth
    /// sprite that covers the line raises the overflow flag.
    pub open spec fn judged_flags(self) -> Flags {
        Flags {
            sprite_overflow: self.regs.status.sprite_overflow || (self.regs.eval.oam_2_addr >= 32
                && self.sprite_covers_line()),
            ..self.regs.status
        }
    }

    /// The unit after the sprite whose Y was read on the dot before has been
    /// judged.
    pub open spec fn judge_sprite(self) -> PpuView {
        PpuView {
            regs: Registers { eval: self.judged(), status: self.judged_flags(), ..self.regs },
            secondary_oam: self.judged_memory(),
            ..self
        }
    }

    /// The unit after the sprite evaluation step of the current dot.
    ///
    /// Dots 1 to 64 fill the secondary memory with 0xff. Dot 65 starts the
    /// evaluation at the first sprite. From then on, until the evaluation
    /// ends, odd dots read the Y of the next sprite and even dots judge it.
    pub open spec fn sprite_evaluation(self) -> PpuView {
        let r = self.regs;
        let s = if r.cycle == 65 {
            self.with_eval(Self::evaluation_start(r.eval))
        } else {
            self
        };
        if r.cycle < 65 {
            PpuView { secondary_oam: self.secondary_oam.update((r.cycle - 1) / 2, 0xff), ..self }
        } else if s.regs.eval.oam_overflow {
            s
        } else if r.cycle % 2 == 1 {
            s.with_eval(
                Evaluation { oam_buffer: s.oam[s.regs.eval.oam_index as int], ..s.regs.eval },
            )
        } else {
            s.judge_sprite()
        }
    }

    /// The slot that is loaded at a dot between 257 and 320.
    pub open spec fn fetch_slot(self) -> int {
        (self.regs.cycle - 257) / 8
    }

    /// The pattern address of the line of the sprite in a slot: the tile from
    /// the sprite pattern table, or for tall sprites from the table that bit 0
    /// of the tile number names; the row counted from the bottom for a sprite
    /// that is flipped; rows 8 and up lie in the next tile.
    pub open spec fn sprite_pattern_address(self, slot: int) -> u16 {
        let r = self.regs;
        let tile = self.secondary_oam[slot * 4 + 1] as u16;
        let base = if !r.ctrl.tall_sprites {
            r.ctrl.sprite_pattern_table | (tile << 4)
        } else {
            ((tile & 0x01) << 12) | ((tile & 0xfe) << 4)
        };
        let row = r.line16().wrapping_sub(self.secondary_oam[slot * 4] as u16);
        let line = if self.sprite_latch[slot] & 0x80 != 0 {
            ((r.ctrl.sprite_size() - 1) as u16).wrapping_sub(row)
        } else {
            row
        };
        if line >= 8 {
            base.wrapping_add(16) | ((line - 8) as u16)
        } else {
            base | line
        }
    }

    /// The unit after the sprite fetch step of a dot between 257 and 320.
    /// Each slot takes eight dots: the second latches attributes and X, the
    /// sixth and the eighth fetch the two planes of the pattern.
    pub open spec fn sprite_fetch(self) -> PpuView {
        let s = if self.regs.cycle == 257 {
            let a = self.with_regs(
                Registers { sprite_0_line: self.regs.eval.sprite_0_next, ..self.regs },
            );
            if a.rendering_enabled() {
                a.copy_horizontal_bits()
            } else {
                a
            }
        } else {
            self
        };
        let slot = s.fetch_slot();
        if s.regs.cycle % 8 == 1 {
            PpuView {
                sprite_latch: s.sprite_latch.update(slot, s.secondary_oam[slot * 4 + 2]),
                sprite_counter: s.sprite_counter.update(slot, s.secondary_oam[slot * 4 + 3]),
                ..s
            }
        } else if s.regs.cycle % 8 == 5 {
            PpuView {
                sprite_shift_low: s.sprite_shift_low.update(
                    slot,
                    s.vram_read(s.sprite_pattern_address(slot)),
                ),
                ..s
            }
        } else if s.regs.cycle % 8 == 7 {
            PpuView {
                sprite_shift_high: s.sprite_shift_high.update(
                    slot,
                    s.vram_read(s.sprite_pattern_address(slot).wrapping_add(8)),
                ),
                ..s
            }
        } else {
            s
        }
    }

    // ----- the frame -----

    /// The state in which the pixel of a visible dot is chosen: after the
    /// background fetch, the scroll increments and the count-down of the
    /// sprites' counters.
    pub open spec fn before_pixel(self) -> PpuView {
        let r = self.regs;
        let s1 = self.load_tile_info();
        let s2 = if self.rendering_enabled() && r.cycle % 8 == 0 {
            if r.cycle == 256 {
                s1.increment_horizontal_scroll().increment_vertical_scroll()
            } else {
                s1.increment_horizontal_scroll()
            }
        } else {
            s1
        };
        s2.count_down_sprites()
    }

    /// The work of a dot between 1 and 256: the background fetch, the scroll
    /// increments at the end of each tile and of the line, on visible lines
    /// the pixel, then the shift registers and the sprite evaluation.
    pub open spec fn visible_dot(self) -> PpuView {
        let r = self.regs;
        let s1 = self.load_tile_info();
        let s2 = if self.rendering_enabled() && r.cycle % 8 == 0 {
            if r.cycle == 256 {
                s1.increment_horizontal_scroll().increment_vertical_scroll()
            } else {
                s1.increment_horizontal_scroll()
            }
        } else {
            s1
        };
        let s3 = if r.scanline != PPU_PRERENDER {
            s2.count_down_sprites().draw_pixel()
        } else {
            s2
        };
        s3.shift_registers().sprite_evaluation()
    }

    /// The work of a dot between 321 and 336: the fetch of the first two
    /// tiles of the next line.
    pub open spec fn prefetch_dot(self) -> PpuView {
        let r = self.regs;
        let s1 = self.load_tile_info().shift_registers();
        if (r.cycle == 328 || r.cycle == 336) && self.rendering_enabled() {
            s1.increment_horizontal_scroll()
        } else {
            s1
        }
    }

    /// The work of one dot of a visible line or of the line before them.
    pub open spec fn process_scanline(self) -> PpuView {
        let r = self.regs;
        if r.cycle <= 256 {
            self.visible_dot()
        } else if r.cycle <= 320 {
            self.sprite_fetch()
        } else if r.cycle <= 336 {
            self.prefetch_dot()
        } else {
            self
        }
    }

    /// What the line before the first visible one does besides: dot 1 clears
    /// the three status flags, dots 280 to 304 copy the vertical scroll.
    pub open spec fn process_prerender(self) -> PpuView {
        let r = self.regs;
        if r.cycle == 1 {
            self.with_regs(
                Registers {
                    status: Flags { vblank: false, sprite_0_hit: false, sprite_overflow: false },
                    ..r
                },
            )
        } else if 280 <= r.cycle <= 304 && self.rendering_enabled() {
            self.copy_vertical_bits()
        } else {
            self
        }
    }

    /// Dot 1 of line 241 completes the frame. It sets the vertical blank flag
    /// and, where enabled, raises the interrupt, unless a read of the status
    /// register has just suppressed both.
    pub open spec fn process_vblank(self) -> PpuView {
        let r = self.regs;
        if r.cycle != 1 {
            self
        } else if r.suppress_vblank {
            self.with_regs(Registers { redraw: true, suppress_vblank: false, ..r })
        } else {
            self.with_regs(
                Registers {
                    status: Flags { vblank: true, ..r.status },
                    redraw: true,
                    should_nmi: r.should_nmi || r.ctrl.nmi_enable,
                    ..r
                },
            )
        }
    }

    /// Whether the next dot is the one that is left out after an odd frame:
    /// dot 339 of the line before the first visible one, while rendering is
    /// on.
    pub open spec fn skips_dot(self) -> bool {
        let r = self.regs;
        r.scanline == PPU_PRERENDER && r.cycle == 338 && r.short_line && self.rendering_enabled()
    }

    /// The unit moved on to the next dot. After dot 340 comes dot 0 of the
    /// next line, after line 260 the line before the first visible one. There
    /// the odd flag flips, and the line that begins is marked as a short one
    /// if the flag was set during the lines that end.
    pub open spec fn update_cycle(self) -> PpuView {
        let r = self.regs;
        let cycle = if self.skips_dot() { 340u16 } else { (r.cycle + 1) as u16 };
        if cycle <= PPU_LAST_CYCLE {
            self.with_regs(Registers { cycle, ..r })
        } else if r.scanline >= PPU_VBLANK_END {
            self.with_regs(
                Registers {
                    cycle: 0,
                    scanline: PPU_PRERENDER,
                    odd: !r.odd,
                    short_line: r.odd,
                    ..r
                },
            )
        } else {
            self.with_regs(Registers { cycle: 0, scanline: (r.scanline + 1) as i16, ..r })
        }
    }

    /// One dot.
    #[verifier::opaque]
    pub open spec fn tick(self) -> PpuView {
        let r = self.regs;
        if r.cycle == 0 {
            self.update_cycle()
        } else if r.scanline < PPU_POSTRENDER {
            if r.scanline == PPU_PRERENDER {
                self.process_scanline().process_prerender().update_cycle()
            } else {
                self.process_scanline().update_cycle()
            }
        } else if r.scanline == PPU_VBLANK_START {
            self.process_vblank().update_cycle()
        } else {
            self.update_cycle()
        }
    }

    /// The frame in RGB24, row by row, three bytes for each pixel.
    pub open spec fn screen_rgb(self) -> Seq<u8> {
        Seq::new((256 * 240 * 3) as nat, |k: int| rgb_at(self.framebuffer, k))
    }

    /// `n` dots.
    pub open spec fn ticks(self, n: nat) -> PpuView
        decreases n,
    {
        if n == 0 {
            self
        } else {
            self.tick().ticks((n - 1) as nat)
        }
    }
}

} // verus!
