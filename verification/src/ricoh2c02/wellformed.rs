//! Well-formedness is an invariant of the picture unit: the unit starts well
//! formed, and every operation on its view keeps it so.
use crate::bits::lemma_mask_u8;
use crate::mapper::MapperView;
use crate::ricoh2c02::model::PpuView;
use crate::ricoh2c02::registers::{
    lemma_fifteen_bits, PPU_CTRL, PPU_DATA, PPU_POSTRENDER, PPU_PRERENDER,
};
use vstd::prelude::*;

verus! {

/// A write of the picture unit leaves the cartridge well formed.
pub proof fn lemma_write_chr_wf(m: MapperView, address: u16, value: u8)
    requires
        m.wf(),
        address < 0x2000,
    ensures
        m.write_chr(address, value).wf(),
{
}

/// A write of the processor leaves the cartridge well formed.
pub proof fn lemma_write_prg_wf(m: MapperView, address: u16, value: u8)
    requires
        m.wf(),
    ensures
        m.write_prg(address, value).wf(),
{
}

/// The unit is well formed at power-on.
pub proof fn lemma_init_wf(mapper: MapperView)
    requires
        mapper.wf(),
    ensures
        PpuView::init(mapper).wf(),
{
}

/// Writes into the video address space keep the unit well formed, and reads
/// from the palette give colours below 64.
pub proof fn lemma_vram_wf(s: PpuView, address: u16, value: u8)
    requires
        s.wf(),
    ensures
        s.nametable_write(address, value).wf(),
        s.palette_write(address, value).wf(),
        s.vram_write(address, value).wf(),
        s.palette_read(address) < 64,
        s.vram_write(address, value).regs == s.regs,
{
    lemma_mask_u8(value, 0x3f);
    lemma_mask_u8(s.palette[crate::ricoh2c02::model::palette_index(address)], 0x30);
    if address % 0x4000 < 0x2000 {
        lemma_write_chr_wf(s.mapper, (address % 0x4000) as u16, value);
    }
}

/// The scroll operations keep the unit well formed and at its dot.
pub proof fn lemma_scroll_wf(s: PpuView)
    requires
        s.wf(),
    ensures
        s.copy_horizontal_bits().wf(),
        s.copy_vertical_bits().wf(),
        s.increment_horizontal_scroll().wf(),
        s.increment_vertical_scroll().wf(),
        s.copy_horizontal_bits().same_dot(s),
        s.copy_vertical_bits().same_dot(s),
        s.increment_horizontal_scroll().same_dot(s),
        s.increment_vertical_scroll().same_dot(s),
{
    lemma_fifteen_bits(s.regs.vram_address, s.regs.temp_vram_address, 0, 0);
}

/// Reads and writes of the registers keep the unit well formed.
#[verifier::rlimit(40)]
pub proof fn lemma_io_wf(s: PpuView, address: u16, value: u8)
    requires
        s.wf(),
        PPU_CTRL <= address <= PPU_DATA,
    ensures
        s.io_read(address).wf(),
        s.io_write(address, value).wf(),
        s.take_nmi().wf(),
        s.take_redraw().wf(),
{
    lemma_fifteen_bits(
        s.regs.vram_address,
        s.regs.temp_vram_address,
        value,
        s.regs.ctrl.vram_increment,
    );
    lemma_mask_u8(value, 0x7);
    lemma_vram_wf(s, s.regs.vram_address, value);
}

proof fn lemma_fetch_wf(s: PpuView)
    requires
        s.wf(),
    ensures
        s.load_tile_info().wf(),
        s.shift_registers().wf(),
        s.count_down_sprites().wf(),
        s.load_tile_info().same_dot(s),
        s.shift_registers().same_dot(s),
        s.count_down_sprites().same_dot(s),
{
}

proof fn lemma_draw_pixel_wf(s: PpuView)
    requires
        s.wf(),
        0 <= s.regs.scanline < PPU_POSTRENDER,
        1 <= s.regs.cycle <= 256,
    ensures
        s.draw_pixel().wf(),
        s.draw_pixel().same_dot(s),
{
    let p = s.priority_select();
    lemma_vram_wf(p, 0x3f00, 0);
    lemma_vram_wf(p, s.pixel_colour(), 0);
}

proof fn lemma_sprite_evaluation_wf(s: PpuView)
    requires
        s.wf(),
        1 <= s.regs.cycle <= 256,
    ensures
        s.sprite_evaluation().wf(),
        s.sprite_evaluation().same_dot(s),
{
    let start = if s.regs.cycle == 65 {
        s.with_eval(PpuView::evaluation_start(s.regs.eval))
    } else {
        s
    };
    lemma_judged_wf(start);
}

/// Judging a sprite keeps the unit well formed and at its dot.
pub proof fn lemma_judged_wf(s: PpuView)
    requires
        s.wf(),
    ensures
        s.judge_sprite().wf(),
        s.judge_sprite().same_dot(s),
{
}

proof fn lemma_sprite_fetch_wf(s: PpuView)
    requires
        s.wf(),
        257 <= s.regs.cycle <= 320,
    ensures
        s.sprite_fetch().wf(),
{
    let a = s.with_regs(
        crate::ricoh2c02::registers::Registers {
            sprite_0_line: s.regs.eval.sprite_0_next,
            ..s.regs
        },
    );
    lemma_scroll_wf(a);
}

proof fn lemma_scrolled_wf(s: PpuView, origin: PpuView)
    requires
        s.wf(),
        s.same_dot(origin),
    ensures
        ({
            let t = if origin.rendering_enabled() && origin.regs.cycle % 8 == 0 {
                if origin.regs.cycle == 256 {
                    s.increment_horizontal_scroll().increment_vertical_scroll()
                } else {
                    s.increment_horizontal_scroll()
                }
            } else {
                s
            };
            t.wf() && t.same_dot(origin)
        }),
{
    lemma_scroll_wf(s);
    lemma_scroll_wf(s.increment_horizontal_scroll());
}

proof fn lemma_drawn_wf(s: PpuView, origin: PpuView)
    requires
        s.wf(),
        s.same_dot(origin),
        origin.regs.scanline < PPU_POSTRENDER,
        1 <= origin.regs.cycle <= 256,
    ensures
        ({
            let t = if origin.regs.scanline != PPU_PRERENDER {
                s.count_down_sprites().draw_pixel()
            } else {
                s
            };
            t.wf() && t.same_dot(origin)
        }),
{
    lemma_fetch_wf(s);
    if origin.regs.scanline != PPU_PRERENDER {
        lemma_draw_pixel_wf(s.count_down_sprites());
    }
}

#[verifier::rlimit(40)]
proof fn lemma_visible_dot_wf(s: PpuView)
    requires
        s.wf(),
        s.regs.scanline < PPU_POSTRENDER,
        1 <= s.regs.cycle <= 256,
    ensures
        s.visible_dot().wf(),
{
    let s1 = s.load_tile_info();
    lemma_fetch_wf(s);
    lemma_scrolled_wf(s1, s);
    let s2 = if s.rendering_enabled() && s.regs.cycle % 8 == 0 {
        if s.regs.cycle == 256 {
            s1.increment_horizontal_scroll().increment_vertical_scroll()
        } else {
            s1.increment_horizontal_scroll()
        }
    } else {
        s1
    };
    lemma_drawn_wf(s2, s);
    let s3 = if s.regs.scanline != PPU_PRERENDER {
        s2.count_down_sprites().draw_pixel()
    } else {
        s2
    };
    lemma_fetch_wf(s3);
    lemma_sprite_evaluation_wf(s3.shift_registers());
    assert(s.visible_dot() == s3.shift_registers().sprite_evaluation());
}

proof fn lemma_prefetch_dot_wf(s: PpuView)
    requires
        s.wf(),
    ensures
        s.prefetch_dot().wf(),
{
    lemma_fetch_wf(s);
    lemma_fetch_wf(s.load_tile_info());
    lemma_scroll_wf(s.load_tile_info().shift_registers());
}

/// The work of a dot keeps the unit well formed.
pub proof fn lemma_process_scanline_wf(s: PpuView)
    requires
        s.wf(),
        s.regs.scanline < PPU_POSTRENDER,
        s.regs.cycle >= 1,
    ensures
        s.process_scanline().wf(),
{
    if s.regs.cycle <= 256 {
        lemma_visible_dot_wf(s);
    } else if s.regs.cycle <= 320 {
        lemma_sprite_fetch_wf(s);
    } else if s.regs.cycle <= 336 {
        lemma_prefetch_dot_wf(s);
    }
}

proof fn lemma_frame_wf(s: PpuView)
    requires
        s.wf(),
    ensures
        s.process_prerender().wf(),
        s.process_vblank().wf(),
        s.update_cycle().wf(),
{
    lemma_scroll_wf(s);
}

/// A tick keeps the unit well formed.
#[verifier::rlimit(40)]
pub proof fn lemma_tick_wf(s: PpuView)
    requires
        s.wf(),
    ensures
        s.tick().wf(),
{
    reveal(PpuView::tick);
    lemma_frame_wf(s);
    if s.regs.cycle != 0 && s.regs.scanline < PPU_POSTRENDER {
        lemma_process_scanline_wf(s);
        let a = s.process_scanline();
        lemma_frame_wf(a);
        lemma_frame_wf(a.process_prerender());
    } else {
        lemma_frame_wf(s.process_vblank());
    }
}

/// Any number of ticks keeps the unit well formed.
pub proof fn lemma_ticks_wf(s: PpuView, n: nat)
    requires
        s.wf(),
    ensures
        s.ticks(n).wf(),
    decreases n,
{
    if n > 0 {
        lemma_tick_wf(s);
        lemma_ticks_wf(s.tick(), (n - 1) as nat);
    }
}

} // verus!
