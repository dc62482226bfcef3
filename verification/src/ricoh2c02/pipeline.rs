//! The rendering pipeline of the picture unit: what happens on each dot.
use crate::ricoh2c02::model::{sprite_in_range, PpuView};
use crate::ricoh2c02::registers::{
    lemma_quadrant_shift, Evaluation, Flags, Registers, PPU_LAST_CYCLE, PPU_POSTRENDER, PPU_PRERENDER, PPU_VBLANK_END,
    PPU_VBLANK_START,
};
use crate::ricoh2c02::wellformed::lemma_judged_wf;
use crate::ricoh2c02::Ricoh2C02;
use vstd::prelude::*;

verus! {

impl Ricoh2C02 {
    // ----- the background -----

    fn get_pixel_colour(&self) -> (r: u8)
        requires
            self.wf(),
        ensures
            r == self@.get_pixel_colour(),
    {
        let x = self.regs.fine_x_scroll;
        let attribute_high: u8 = ((self.regs.attribute_shift_high << x) & 0x80) >> 4;
        let attribute_low: u8 = ((self.regs.attribute_shift_low << x) & 0x80) >> 5;
        let tile_high: u16 = ((self.regs.tile_shift_high << x) & 0x8000) >> 14;
        let tile_low: u16 = ((self.regs.tile_shift_low << x) & 0x8000) >> 15;
        let colour: u8 = attribute_high | attribute_low | (tile_high as u8) | (tile_low as u8);
        if colour & 0x03 == 0 || (self.regs.cycle <= 8 && !self.regs.mask.lc_background_enable) {
            0
        } else {
            colour
        }
    }

    /// The background fetch that belongs to the current dot.
    pub fn load_tile_info(&mut self)
        requires
            old(self).wf(),
        ensures
            final(self).wf(),
            final(self)@ == old(self)@.load_tile_info(),
            final(self)@.same_dot(old(self)@),
    {
        if !self.rendering_enabled() {
            return ;
        }
        let step = self.regs.cycle % 8;
        if step == 1 {
            let tile = self.vram_read(self.get_tile_address());
            self.regs.tile_shift_low |= self.regs.tile_low as u16;
            self.regs.tile_shift_high |= self.regs.tile_high as u16;
            self.regs.attribute_latch_low = self.regs.next_attribute_latch_low;
            self.regs.attribute_latch_high = self.regs.next_attribute_latch_high;
            self.regs.tile_address = (self.regs.ctrl.bg_pattern_table | (self.regs.vram_address
                >> 12)) | ((tile as u16) << 4);
        } else if step == 3 {
            proof {
                lemma_quadrant_shift(self.regs.vram_address);
            }
            let shift: u16 = ((self.regs.vram_address >> 4) & 0x4) | (self.regs.vram_address & 0x2);
            let bits: u8 = self.vram_read(self.get_attribute_address()) >> shift;
            self.regs.next_attribute_latch_low = bits & 0x1;
            self.regs.next_attribute_latch_high = (bits & 0x2) >> 1;
        } else if step == 5 {
            self.regs.tile_low = self.vram_read(self.regs.tile_address);
        } else if step == 7 {
            self.regs.tile_high = self.vram_read(self.regs.tile_address.wrapping_add(8));
        }
    }

    // ----- the sprites -----

    /// Moves every shift register by one place.
    pub fn shift_registers(&mut self)
        requires
            old(self).wf(),
        ensures
            final(self).wf(),
            final(self)@ == old(self)@.shift_registers(),
            final(self)@.same_dot(old(self)@),
    {
        self.regs.tile_shift_low <<= 1;
        self.regs.tile_shift_high <<= 1;
        self.regs.attribute_shift_low = (self.regs.attribute_shift_low << 1)
            | self.regs.attribute_latch_low;
        self.regs.attribute_shift_high = (self.regs.attribute_shift_high << 1)
            | self.regs.attribute_latch_high;
        let ghost pre = old(self)@;
        let mut i: usize = 0;
        while i < 8
            invariant
                i <= 8,
                self.sprite_counter@ == pre.sprite_counter,
                self.sprite_latch@ == pre.sprite_latch,
                self@ == (PpuView {
                    sprite_shift_low: self.sprite_shift_low@,
                    sprite_shift_high: self.sprite_shift_high@,
                    ..pre.shift_registers()
                }),
                forall|j: int|
                    0 <= j < i ==> self.sprite_shift_low@[j] == pre.shifted_sprite(
                        pre.sprite_shift_low[j],
                        j,
                    ) && self.sprite_shift_high@[j] == pre.shifted_sprite(
                        pre.sprite_shift_high[j],
                        j,
                    ),
                forall|j: int|
                    i <= j < 8 ==> self.sprite_shift_low@[j] == pre.sprite_shift_low[j]
                        && self.sprite_shift_high@[j] == pre.sprite_shift_high[j],
            decreases 8 - i,
        {
            if self.sprite_counter[i] == 0 {
                if self.sprite_latch[i] & 0x40 != 0 {
                    self.sprite_shift_low[i] = self.sprite_shift_low[i] >> 1;
                    self.sprite_shift_high[i] = self.sprite_shift_high[i] >> 1;
                } else {
                    self.sprite_shift_low[i] = self.sprite_shift_low[i] << 1;
                    self.sprite_shift_high[i] = self.sprite_shift_high[i] << 1;
                }
            }
            i += 1;
        }
        assert(self.sprite_shift_low@ =~= pre.shift_registers().sprite_shift_low);
        assert(self.sprite_shift_high@ =~= pre.shift_registers().sprite_shift_high);
    }

    fn count_down_sprites(&mut self)
        requires
            old(self).wf(),
        ensures
            final(self).wf(),
            final(self)@ == old(self)@.count_down_sprites(),
            final(self)@.same_dot(old(self)@),
    {
        let ghost pre = old(self)@;
        let mut i: usize = 0;
        while i < 8
            invariant
                i <= 8,
                self@ == (PpuView { sprite_counter: self.sprite_counter@, ..pre }),
                forall|j: int|
                    0 <= j < i ==> self.sprite_counter@[j] == pre.count_down_sprites().sprite_counter[j],
                forall|j: int| i <= j < 8 ==> self.sprite_counter@[j] == pre.sprite_counter[j],
            decreases 8 - i,
        {
            if self.sprite_counter[i] > 0 {
                self.sprite_counter[i] = self.sprite_counter[i] - 1;
            }
            i += 1;
        }
        assert(self.sprite_counter@ =~= pre.count_down_sprites().sprite_counter);
    }

    fn get_sprite_colour(&self, index: usize) -> (r: u8)
        requires
            self.wf(),
            index < 8,
        ensures
            r == self@.get_sprite_colour(index as int),
    {
        let latch = self.sprite_latch[index];
        let attribute: u8 = (latch & 0x03) << 2;
        let pattern_high: u8;
        let pattern_low: u8;
        if latch & 0x40 != 0 {
            pattern_high = (self.sprite_shift_high[index] & 0x01) << 1;
            pattern_low = self.sprite_shift_low[index] & 0x01;
        } else {
            pattern_high = (self.sprite_shift_high[index] & 0x80) >> 6;
            pattern_low = (self.sprite_shift_low[index] & 0x80) >> 7;
        }
        let colour: u8 = ((0x10 | attribute) | pattern_high) | pattern_low;
        if self.sprite_counter[index] != 0 || (self.regs.cycle <= 8
            && !self.regs.mask.lc_sprite_enable) || colour & 0x03 == 0 {
            0
        } else {
            colour
        }
    }

    fn sprite_pixel(&self, index: usize) -> (r: u8)
        requires
            self.wf(),
            index < 8,
        ensures
            r == self@.sprite_pixel(index as int),
    {
        if self.regs.mask.sprite_enable {
            self.get_sprite_colour(index)
        } else {
            0
        }
    }

    fn first_opaque_sprite(&self) -> (k: usize)
        requires
            self.wf(),
        ensures
            k == self@.first_opaque_sprite(0),
            k <= 8,
    {
        let mut k: usize = 0;
        while k < 8
            invariant
                self.wf(),
                k <= 8,
                self@.first_opaque_sprite(0) == self@.first_opaque_sprite(k as int),
            decreases 8 - k,
        {
            if self.sprite_pixel(k) != 0 {
                return k;
            }
            k += 1;
        }
        k
    }

    /// Chooses the colour of the pixel at the current dot between background
    /// and sprites, and raises the sprite 0 flag where sprite 0 meets the
    /// background.
    fn priority_select(&mut self) -> (r: u16)
        requires
            old(self).wf(),
        ensures
            final(self).wf(),
            r == old(self)@.pixel_colour(),
            final(self)@ == old(self)@.priority_select(),
            final(self)@.same_dot(old(self)@),
    {
        if !self.rendering_enabled() && (self.regs.vram_address & 0x3f00) == 0x3f00 {
            return self.regs.vram_address & 0x1f;
        }
        let colour: u8 = if self.regs.mask.background_enable {
            self.get_pixel_colour()
        } else {
            0
        };
        let k = self.first_opaque_sprite();
        let pixel: u16 = if k < 8 {
            if (self.sprite_latch[k] & 0x20) != 0 && colour != 0 {
                colour as u16
            } else {
                self.sprite_pixel(k) as u16
            }
        } else {
            colour as u16
        };
        let hit = self.regs.sprite_0_line && colour != 0 && self.sprite_pixel(0) != 0
            && self.regs.cycle < 255;
        if hit {
            self.regs.status.sprite_0_hit = true;
        }
        pixel
    }

    fn draw_pixel(&mut self)
        requires
            old(self).wf(),
            0 <= old(self)@.regs.scanline < 240,
            1 <= old(self)@.regs.cycle <= 256,
        ensures
            final(self).wf(),
            final(self)@ == old(self)@.draw_pixel(),
            final(self)@.same_dot(old(self)@),
    {
        let framebuffer_address: usize = (self.regs.scanline as usize) * 256
            + self.regs.cycle as usize - 1;
        let pixel_colour = self.priority_select();
        let value = if self.regs.scanline < 8 || self.regs.scanline > 231 {
            self.palette_read(0x3f00)
        } else {
            self.palette_read(pixel_colour)
        };
        self.framebuffer[framebuffer_address] = value;
    }

    fn sprite_inrange(&self, sprite: u8, scanline: i16) -> (r: bool)
        requires
            -1 <= scanline <= 260,
        ensures
            r == sprite_in_range(sprite, scanline, self@.regs.ctrl.sprite_size()),
    {
        let top: i16 = sprite as i16;
        let size: i16 = if self.regs.ctrl.tall_sprites { 16 } else { 8 };
        scanline >= top && scanline < top + size
    }

    fn copy_sprite(&mut self)
        requires
            old(self).wf(),
            old(self)@.regs.eval.oam_2_addr < 32,
        ensures
            final(self).wf(),
            final(self)@ == (PpuView { secondary_oam: old(self)@.found_sprite(), ..old(self)@ }),
    {
        let oam_index = self.regs.eval.oam_index;
        let slot: usize = self.regs.eval.oam_2_addr as usize;
        let y = self.regs.eval.oam_buffer;
        let b1 = self.oam[oam_index.wrapping_add(1) as usize];
        let b2 = self.oam[oam_index.wrapping_add(2) as usize];
        let b3 = self.oam[oam_index.wrapping_add(3) as usize];
        self.secondary_oam[slot] = y;
        self.secondary_oam[slot + 1] = b1;
        self.secondary_oam[slot + 2] = b2;
        self.secondary_oam[slot + 3] = b3;
    }

    fn judged(&self, in_range: bool) -> (r: Evaluation)
        requires
            self.wf(),
            in_range == self@.sprite_covers_line(),
        ensures
            r == self@.judged(),
            r.oam_2_addr <= 32,
            r.oam_2_addr % 4 == 0,
    {
        let e = self.regs.eval;
        let next4 = e.oam_index.wrapping_add(4);
        let next5 = e.oam_index.wrapping_add(5);
        if e.oam_2_addr < 32 {
            if in_range {
                Evaluation {
                    oam_2_addr: e.oam_2_addr + 4,
                    oam_index: next4,
                    oam_overflow: next4 < 4,
                    sprite_0_next: e.sprite_0_next || e.oam_index == 0,
                    ..e
                }
            } else {
                Evaluation { oam_index: next4, oam_overflow: next4 < 4, ..e }
            }
        } else if in_range {
            e
        } else {
            Evaluation { oam_index: next5, oam_overflow: next5 < 4, ..e }
        }
    }

    #[verifier::rlimit(40)]
    fn store_judged(&mut self, in_range: bool)
        requires
            old(self).wf(),
            in_range == old(self)@.sprite_covers_line(),
        ensures
            final(self).wf(),
            final(self)@ == (PpuView { secondary_oam: old(self)@.judged_memory(), ..old(self)@ }),
    {
        if self.regs.eval.oam_2_addr < 32 {
            if in_range {
                self.copy_sprite();
            } else {
                self.secondary_oam[self.regs.eval.oam_2_addr as usize] = self.regs.eval.oam_buffer;
            }
        }
    }

    #[verifier::rlimit(40)]
    fn apply_judgement(&mut self)
        requires
            old(self).wf(),
        ensures
            final(self)@ == old(self)@.judge_sprite(),
    {
        let in_range = self.sprite_inrange(self.regs.eval.oam_buffer, self.regs.scanline);
        let eval = self.judged(in_range);
        let overflow = self.regs.status.sprite_overflow || (self.regs.eval.oam_2_addr >= 32
            && in_range);
        let status = Flags { sprite_overflow: overflow, ..self.regs.status };
        self.store_judged(in_range);
        self.regs = Registers { eval, status, ..self.regs };
    }

    #[verifier::rlimit(40)]
    fn judge_sprite(&mut self)
        requires
            old(self).wf(),
        ensures
            final(self).wf(),
            final(self)@ == old(self)@.judge_sprite(),
            final(self)@.same_dot(old(self)@),
    {
        self.apply_judgement();
        proof {
            lemma_judged_wf(old(self)@);
        }
    }

    #[verifier::rlimit(40)]
    fn sprite_evaluation(&mut self)
        requires
            old(self).wf(),
            1 <= old(self)@.regs.cycle <= 256,
        ensures
            final(self).wf(),
            final(self)@ == old(self)@.sprite_evaluation(),
            final(self)@.same_dot(old(self)@),
    {
        if self.regs.cycle < 65 {
            self.secondary_oam[((self.regs.cycle - 1) / 2) as usize] = 0xff;
            return ;
        }
        if self.regs.cycle == 65 {
            self.regs.eval = Evaluation {
                oam_index: 0,
                oam_2_addr: 0,
                oam_overflow: false,
                sprite_0_next: false,
                ..self.regs.eval
            };
        }
        if self.regs.eval.oam_overflow {
            return ;
        }
        if self.regs.cycle % 2 == 1 {
            self.regs.eval.oam_buffer = self.oam[self.regs.eval.oam_index as usize];
            return ;
        }
        self.judge_sprite();
    }

    fn sprite_pattern_address(&self, slot: usize) -> (r: u16)
        requires
            self.wf(),
            slot < 8,
        ensures
            r == self@.sprite_pattern_address(slot as int),
    {
        let tile: u16 = self.secondary_oam[slot * 4 + 1] as u16;
        let base: u16 = if !self.regs.ctrl.tall_sprites {
            self.regs.ctrl.sprite_pattern_table | (tile << 4)
        } else {
            ((tile & 0x01) << 12) | ((tile & 0xfe) << 4)
        };
        let line16: u16 = if self.regs.scanline < 0 {
            0xffff
        } else {
            self.regs.scanline as u16
        };
        let row: u16 = line16.wrapping_sub(self.secondary_oam[slot * 4] as u16);
        let last: u16 = if self.regs.ctrl.tall_sprites { 15 } else { 7 };
        let line: u16 = if self.sprite_latch[slot] & 0x80 != 0 {
            last.wrapping_sub(row)
        } else {
            row
        };
        if line >= 8 {
            base.wrapping_add(16) | (line - 8)
        } else {
            base | line
        }
    }

    fn sprite_fetch(&mut self)
        requires
            old(self).wf(),
            257 <= old(self)@.regs.cycle <= 320,
        ensures
            final(self).wf(),
            final(self)@ == old(self)@.sprite_fetch(),
            final(self)@.same_dot(old(self)@),
    {
        if self.regs.cycle == 257 {
            self.regs.sprite_0_line = self.regs.eval.sprite_0_next;
            if self.rendering_enabled() {
                self.copy_horizontal_bits();
            }
        }
        let slot: usize = ((self.regs.cycle - 257) / 8) as usize;
        let step = self.regs.cycle % 8;
        if step == 1 {
            self.sprite_latch[slot] = self.secondary_oam[slot * 4 + 2];
            self.sprite_counter[slot] = self.secondary_oam[slot * 4 + 3];
        } else if step == 5 {
            let pattern_address = self.sprite_pattern_address(slot);
            self.sprite_shift_low[slot] = self.vram_read(pattern_address);
        } else if step == 7 {
            let pattern_address = self.sprite_pattern_address(slot);
            self.sprite_shift_high[slot] = self.vram_read(pattern_address.wrapping_add(8));
        }
    }

    // ----- the frame -----

    #[verifier::rlimit(40)]
    fn visible_dot(&mut self)
        requires
            old(self).wf(),
            old(self)@.regs.scanline < PPU_POSTRENDER,
            1 <= old(self)@.regs.cycle <= 256,
        ensures
            final(self).wf(),
            final(self)@ == old(self)@.visible_dot(),
            final(self)@.same_dot(old(self)@),
    {
        let cycle = self.regs.cycle;
        self.load_tile_info();
        if self.rendering_enabled() && cycle % 8 == 0 {
            self.increment_horizontal_scroll();
            if cycle == 256 {
                self.increment_vertical_scroll();
            }
        }
        if self.regs.scanline != PPU_PRERENDER {
            self.count_down_sprites();
            self.draw_pixel();
        }
        self.shift_registers();
        self.sprite_evaluation();
    }

    fn prefetch_dot(&mut self)
        requires
            old(self).wf(),
        ensures
            final(self).wf(),
            final(self)@ == old(self)@.prefetch_dot(),
            final(self)@.same_dot(old(self)@),
    {
        let cycle = self.regs.cycle;
        self.load_tile_info();
        self.shift_registers();
        if (cycle == 328 || cycle == 336) && self.rendering_enabled() {
            self.increment_horizontal_scroll();
        }
    }

    /// The work of one dot of a visible line or of the line before them.
    pub fn process_scanline(&mut self)
        requires
            old(self).wf(),
            old(self)@.regs.scanline < PPU_POSTRENDER,
            old(self)@.regs.cycle >= 1,
        ensures
            final(self).wf(),
            final(self)@ == old(self)@.process_scanline(),
            final(self)@.same_dot(old(self)@),
    {
        let cycle = self.regs.cycle;
        if cycle <= 256 {
            self.visible_dot();
        } else if cycle <= 320 {
            self.sprite_fetch();
        } else if cycle <= 336 {
            self.prefetch_dot();
        }
    }

    /// What the line before the first visible one does besides the work of a
    /// visible line: it clears the status flags and reloads the vertical scroll.
    pub fn process_prerender(&mut self)
        requires
            old(self).wf(),
        ensures
            final(self).wf(),
            final(self)@ == old(self)@.process_prerender(),
            final(self)@.same_dot(old(self)@),
    {
        if self.regs.cycle == 1 {
            self.regs.status.vblank = false;
            self.regs.status.sprite_0_hit = false;
            self.regs.status.sprite_overflow = false;
        } else if self.regs.cycle >= 280 && self.regs.cycle <= 304 {
            if self.rendering_enabled() {
                self.copy_vertical_bits();
            }
        }
    }

    /// Dot 1 of line 241: the frame is complete and the vertical blank begins.
    pub fn process_vblank(&mut self)
        requires
            old(self).wf(),
        ensures
            final(self).wf(),
            final(self)@ == old(self)@.process_vblank(),
            final(self)@.same_dot(old(self)@),
    {
        if self.regs.cycle == 1 {
            self.regs.redraw = true;
            if self.regs.suppress_vblank {
                self.regs.suppress_vblank = false;
            } else {
                self.regs.status.vblank = true;
                if self.regs.ctrl.nmi_enable {
                    self.regs.should_nmi = true;
                }
            }
        }
    }

    /// Moves on to the next dot.
    pub fn update_cycle(&mut self)
        requires
            old(self).wf(),
        ensures
            final(self).wf(),
            final(self)@ == old(self)@.update_cycle(),
    {
        if self.regs.scanline == PPU_PRERENDER && self.regs.cycle == 338 && self.regs.short_line
            && self.rendering_enabled() {
            self.regs.cycle = 340;
        } else {
            self.regs.cycle += 1;
        }
        if self.regs.cycle > PPU_LAST_CYCLE {
            self.regs.cycle = 0;
            if self.regs.scanline >= PPU_VBLANK_END {
                self.regs.scanline = PPU_PRERENDER;
                self.regs.short_line = self.regs.odd;
                self.regs.odd = !self.regs.odd;
            } else {
                self.regs.scanline += 1;
            }
        }
    }

    /// Advances the unit by one dot.
    pub fn tick(&mut self)
        requires
            old(self).wf(),
        ensures
            final(self).wf(),
            final(self)@ == old(self)@.tick(),
    {
        proof {
            reveal(PpuView::tick);
        }
        if self.regs.cycle == 0 {
            self.update_cycle();
            return ;
        }
        if self.regs.scanline < PPU_POSTRENDER {
            self.process_scanline();
            if self.regs.scanline == PPU_PRERENDER {
                self.process_prerender();
            }
        } else if self.regs.scanline == PPU_VBLANK_START {
            self.process_vblank();
        }
        self.update_cycle();
    }
}

} // verus!
