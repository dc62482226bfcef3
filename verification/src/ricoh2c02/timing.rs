//! How the dot counter moves through lines and frames.
use crate::ricoh2c02::model::PpuView;
use crate::ricoh2c02::registers::{
    PPU_POSTRENDER, PPU_PRERENDER, PPU_STATUS, PPU_VBLANK_END, PPU_VBLANK_START,
};
use vstd::prelude::*;

verus! {

/// The second state differs from the first in nothing that the work of a
/// dot leaves alone: the counters, the settings of the control and mask
/// registers, the sprite memory and the sprite address, the cartridge, and
/// the flags of the vertical blank.
pub open spec fn undisturbed(a: PpuView, b: PpuView) -> bool {
    &&& a.same_dot(b)
    &&& a.same_sprites(b)
    &&& a.regs.status.vblank == b.regs.status.vblank
    &&& a.regs.should_nmi == b.regs.should_nmi
    &&& a.regs.redraw == b.regs.redraw
    &&& a.regs.suppress_vblank == b.regs.suppress_vblank
}

proof fn lemma_draw_pixel_undisturbed(s: PpuView)
    ensures
        undisturbed(s.draw_pixel(), s),
        s.draw_pixel().regs.status.sprite_0_hit == (s.regs.status.sprite_0_hit
            || s.sprite_0_hits()),
{
}

proof fn lemma_sprite_evaluation_undisturbed(s: PpuView)
    ensures
        undisturbed(s.sprite_evaluation(), s),
        s.sprite_evaluation().regs.status.sprite_0_hit == s.regs.status.sprite_0_hit,
{
}

proof fn lemma_fetch_undisturbed(s: PpuView)
    ensures
        undisturbed(s.load_tile_info(), s),
        undisturbed(s.increment_horizontal_scroll(), s),
        undisturbed(s.increment_vertical_scroll(), s),
        undisturbed(s.sprite_fetch(), s),
        undisturbed(s.shift_registers(), s),
        undisturbed(s.count_down_sprites(), s),
        undisturbed(s.copy_vertical_bits(), s),
        s.copy_vertical_bits().regs.status == s.regs.status,
        s.load_tile_info().regs.status == s.regs.status,
        s.increment_horizontal_scroll().regs.status == s.regs.status,
        s.increment_vertical_scroll().regs.status == s.regs.status,
        s.sprite_fetch().regs.status == s.regs.status,
        s.shift_registers().regs.status == s.regs.status,
        s.count_down_sprites().regs.status == s.regs.status,
{
}

/// The sprite 0 flag after the work of a dot between 1 and 256.
pub open spec fn hit_after_dot(s: PpuView) -> bool {
    s.regs.status.sprite_0_hit || (s.regs.scanline != PPU_PRERENDER
        && s.before_pixel().sprite_0_hits())
}

#[verifier::rlimit(40)]
proof fn lemma_scrolled_undisturbed(s: PpuView) -> (s2: PpuView)
    ensures
        undisturbed(s2, s),
        s2.regs.status == s.regs.status,
        s.before_pixel() == s2.count_down_sprites(),
        s.visible_dot() == (if s.regs.scanline != PPU_PRERENDER {
            s2.count_down_sprites().draw_pixel()
        } else {
            s2
        }).shift_registers().sprite_evaluation(),
{
    let s1 = s.load_tile_info();
    lemma_fetch_undisturbed(s);
    lemma_fetch_undisturbed(s1);
    lemma_fetch_undisturbed(s1.increment_horizontal_scroll());
    if s.rendering_enabled() && s.regs.cycle % 8 == 0 {
        if s.regs.cycle == 256 {
            s1.increment_horizontal_scroll().increment_vertical_scroll()
        } else {
            s1.increment_horizontal_scroll()
        }
    } else {
        s1
    }
}

proof fn lemma_finished_undisturbed(s3: PpuView)
    ensures
        undisturbed(s3.shift_registers().sprite_evaluation(), s3),
        s3.shift_registers().sprite_evaluation().regs.status.sprite_0_hit
            == s3.regs.status.sprite_0_hit,
{
    lemma_fetch_undisturbed(s3);
    lemma_sprite_evaluation_undisturbed(s3.shift_registers());
}

#[verifier::rlimit(40)]
proof fn lemma_visible_dot_undisturbed(s: PpuView)
    ensures
        undisturbed(s.visible_dot(), s),
        s.visible_dot().regs.status.sprite_0_hit == hit_after_dot(s),
{
    let s2 = lemma_scrolled_undisturbed(s);
    if s.regs.scanline != PPU_PRERENDER {
        let counted = s2.count_down_sprites();
        lemma_fetch_undisturbed(s2);
        lemma_draw_pixel_undisturbed(counted);
        lemma_finished_undisturbed(counted.draw_pixel());
    } else {
        lemma_finished_undisturbed(s2);
    }
}

proof fn lemma_prefetch_dot_undisturbed(s: PpuView)
    ensures
        undisturbed(s.prefetch_dot(), s),
        s.prefetch_dot().regs.status == s.regs.status,
{
    lemma_fetch_undisturbed(s);
    lemma_fetch_undisturbed(s.load_tile_info());
    lemma_fetch_undisturbed(s.load_tile_info().shift_registers());
}

/// The work of a dot of a line that is drawn leaves alone what
/// [`undisturbed`] names, and raises the sprite 0 flag only on a visible
/// line, on a dot between 1 and 256 where sprite 0 meets the background.
pub proof fn lemma_process_scanline_undisturbed(s: PpuView)
    ensures
        undisturbed(s.process_scanline(), s),
        s.process_scanline().regs.status.sprite_0_hit == (if s.regs.cycle <= 256 {
            hit_after_dot(s)
        } else {
            s.regs.status.sprite_0_hit
        }),
{
    lemma_visible_dot_undisturbed(s);
    lemma_fetch_undisturbed(s);
    lemma_prefetch_dot_undisturbed(s);
}

/// The work of a dot leaves the dot counter, the line counter and the
/// settings of the control and mask registers alone.
pub proof fn lemma_process_scanline_same_dot(s: PpuView)
    ensures
        s.process_scanline().same_dot(s),
        s.process_scanline().process_prerender().same_dot(s),
        s.process_vblank().same_dot(s),
{
    lemma_process_scanline_undisturbed(s);
}

/// A tick changes neither the sprite memory nor the sprite address nor the
/// cartridge, wherever the unit stands.
pub proof fn lemma_tick_keeps_sprites(s: PpuView)
    ensures
        s.tick().same_sprites(s),
{
    reveal(PpuView::tick);
    lemma_process_scanline_undisturbed(s);
}

/// A tick moves the counters as [`PpuView::update_cycle`] says, whatever
/// else it does.
pub proof fn lemma_tick_moves_counters(s: PpuView)
    ensures
        s.tick().same_dot(s.update_cycle()),
{
    reveal(PpuView::tick);
    lemma_process_scanline_same_dot(s);
}

/// Ticks add up.
pub proof fn lemma_ticks_split(s: PpuView, a: nat, b: nat)
    ensures
        s.ticks(a + b) == s.ticks(a).ticks(b),
    decreases a,
{
    if a > 0 {
        lemma_ticks_split(s.tick(), (a - 1) as nat, b);
    }
}

/// Number of ticks that the line before the first visible one takes: one
/// less than the others when the frame before it was odd and rendering is
/// on.
pub open spec fn prerender_dots(s: PpuView) -> nat {
    if s.regs.short_line && s.rendering_enabled() {
        340
    } else {
        341
    }
}

/// The dot that the unit has reached `k` ticks into the line before the
/// first visible one.
pub open spec fn prerender_dot_after(s: PpuView, k: nat) -> int {
    if s.regs.short_line && s.rendering_enabled() && k >= 339 {
        k as int + 1
    } else {
        k as int
    }
}

proof fn lemma_prerender_progress(s: PpuView, k: nat)
    requires
        s.regs.scanline == PPU_PRERENDER,
        s.regs.cycle == 0,
        k < prerender_dots(s),
    ensures
        s.ticks(k).regs.scanline == PPU_PRERENDER,
        s.ticks(k).regs.cycle == prerender_dot_after(s, k),
        s.ticks(k).regs.odd == s.regs.odd,
        s.ticks(k).regs.short_line == s.regs.short_line,
        s.ticks(k).regs.mask == s.regs.mask,
    decreases k,
{
    if k > 0 {
        let j = (k - 1) as nat;
        lemma_prerender_progress(s, j);
        lemma_ticks_split(s, j, 1);
        let t = s.ticks(j);
        assert(t.ticks(1) == t.tick()) by {
            assert(t.tick().ticks(0) == t.tick());
        }
        lemma_tick_moves_counters(t);
    }
}

/// The line before the first visible one takes 340 ticks when the frame
/// before it was odd and rendering is on, and 341 ticks otherwise: after
/// that many ticks, and not before, the unit stands at the first dot of
/// line 0.
pub proof fn lemma_prerender_line_length(s: PpuView)
    requires
        s.regs.scanline == PPU_PRERENDER,
        s.regs.cycle == 0,
    ensures
        s.ticks(prerender_dots(s)).regs.scanline == 0,
        s.ticks(prerender_dots(s)).regs.cycle == 0,
        forall|k: nat| k < prerender_dots(s) ==> (#[trigger] s.ticks(k)).regs.scanline == PPU_PRERENDER,
        s.ticks(prerender_dots(s)).regs.mask == s.regs.mask,
        s.ticks(prerender_dots(s)).regs.odd == s.regs.odd,
        s.ticks(prerender_dots(s)).regs.short_line == s.regs.short_line,
{
    let n = prerender_dots(s);
    let j = (n - 1) as nat;
    lemma_prerender_progress(s, j);
    lemma_ticks_split(s, j, 1);
    let t = s.ticks(j);
    assert(t.ticks(1) == t.tick()) by {
        assert(t.tick().ticks(0) == t.tick());
    }
    lemma_tick_moves_counters(t);
    assert forall|k: nat| k < prerender_dots(s) implies (#[trigger] s.ticks(k)).regs.scanline
        == PPU_PRERENDER by {
        lemma_prerender_progress(s, k);
    }
}

/// Every other line takes 341 ticks.
pub proof fn lemma_line_length(s: PpuView)
    requires
        0 <= s.regs.scanline <= PPU_VBLANK_END,
        s.regs.cycle == 0,
    ensures
        s.ticks(341).regs.cycle == 0,
        s.ticks(341).regs.scanline == (if s.regs.scanline == PPU_VBLANK_END {
            PPU_PRERENDER
        } else {
            (s.regs.scanline + 1) as i16
        }),
        forall|k: nat| k < 341 ==> (#[trigger] s.ticks(k)).regs.scanline == s.regs.scanline,
        s.ticks(341).regs.mask == s.regs.mask,
        s.ticks(341).regs.odd == (if s.regs.scanline == PPU_VBLANK_END {
            !s.regs.odd
        } else {
            s.regs.odd
        }),
        s.ticks(341).regs.short_line == (if s.regs.scanline == PPU_VBLANK_END {
            s.regs.odd
        } else {
            s.regs.short_line
        }),
{
    lemma_line_progress(s, 340);
    lemma_ticks_split(s, 340, 1);
    let t = s.ticks(340);
    assert(t.ticks(1) == t.tick()) by {
        assert(t.tick().ticks(0) == t.tick());
    }
    lemma_tick_moves_counters(t);
    assert forall|k: nat| k < 341 implies (#[trigger] s.ticks(k)).regs.scanline
        == s.regs.scanline by {
        lemma_line_progress(s, k);
    }
}

proof fn lemma_line_progress(s: PpuView, k: nat)
    requires
        0 <= s.regs.scanline <= PPU_VBLANK_END,
        s.regs.cycle == 0,
        k < 341,
    ensures
        s.ticks(k).regs.scanline == s.regs.scanline,
        s.ticks(k).regs.cycle == k,
        s.ticks(k).regs.odd == s.regs.odd,
        s.ticks(k).regs.short_line == s.regs.short_line,
        s.ticks(k).regs.mask == s.regs.mask,
    decreases k,
{
    if k > 0 {
        let j = (k - 1) as nat;
        lemma_line_progress(s, j);
        lemma_ticks_split(s, j, 1);
        let t = s.ticks(j);
        assert(t.ticks(1) == t.tick()) by {
            assert(t.tick().ticks(0) == t.tick());
        }
        lemma_tick_moves_counters(t);
    }
}

#[verifier::rlimit(40)]
proof fn lemma_lines(s: PpuView, n: nat)
    requires
        0 <= s.regs.scanline,
        s.regs.scanline + n <= PPU_VBLANK_END + 1,
        s.regs.cycle == 0,
    ensures
        s.ticks(n * 341).regs.cycle == 0,
        s.ticks(n * 341).regs.mask == s.regs.mask,
        s.regs.scanline + n <= PPU_VBLANK_END ==> s.ticks(n * 341).regs.scanline
            == s.regs.scanline + n && s.ticks(n * 341).regs.odd == s.regs.odd && s.ticks(
            n * 341,
        ).regs.short_line == s.regs.short_line,
        s.regs.scanline + n == PPU_VBLANK_END + 1 && n > 0 ==> s.ticks(n * 341).regs.scanline
            == PPU_PRERENDER && s.ticks(n * 341).regs.odd == !s.regs.odd && s.ticks(
            n * 341,
        ).regs.short_line == s.regs.odd,
    decreases n,
{
    if n > 0 {
        lemma_line_length(s);
        let next = s.ticks(341);
        assert(n * 341 == 341 + (n - 1) * 341) by (nonlinear_arith)
            requires
                n > 0,
        ;
        lemma_ticks_split(s, 341, ((n - 1) * 341) as nat);
        if n > 1 {
            lemma_lines(next, (n - 1) as nat);
        } else {
            assert(next.ticks(0) == next);
        }
    }
}

/// Number of ticks from the first dot of the line before the first visible
/// one to the end of line 260: 262 lines of 341 dots, less the dot that is
/// left out after an odd frame while rendering is on.
pub open spec fn frame_dots(s: PpuView) -> nat {
    prerender_dots(s) + 261 * 341
}

/// From the first dot of the line before the first visible one, the unit is
/// back there after 89342 ticks, or after 89341 when the frame before was
/// odd and rendering is on. Then the odd flag has flipped, and the line that
/// begins is a short one if the flag was set during the lines that ended.
pub proof fn lemma_frame_length(s: PpuView)
    requires
        s.regs.scanline == PPU_PRERENDER,
        s.regs.cycle == 0,
    ensures
        s.ticks(frame_dots(s)).regs.scanline == PPU_PRERENDER,
        s.ticks(frame_dots(s)).regs.cycle == 0,
        s.ticks(frame_dots(s)).regs.odd == !s.regs.odd,
        s.ticks(frame_dots(s)).regs.short_line == s.regs.odd,
        s.ticks(frame_dots(s)).regs.mask == s.regs.mask,
        frame_dots(s) == (if s.regs.short_line && s.rendering_enabled() {
            89341nat
        } else {
            89342nat
        }),
{
    lemma_prerender_line_length(s);
    let first = s.ticks(prerender_dots(s));
    lemma_lines(first, 261);
    lemma_ticks_split(s, prerender_dots(s), 261 * 341);
}

/// Number of ticks that the line after line 260 takes: 340 when the odd flag
/// was set during the lines before it and rendering is on, 341 otherwise.
pub open spec fn dots_after_frame(s: PpuView) -> nat {
    if s.regs.odd && s.rendering_enabled() {
        340
    } else {
        341
    }
}

/// The tick on the last dot of line 260 ends a frame: the odd flag flips, and
/// the line that begins is one dot short exactly if the flag was set during
/// the lines that end and rendering is on. After that many further ticks, and
/// not before, the unit stands at the first dot of line 0.
pub proof fn lemma_line_after_frame(s: PpuView)
    requires
        s.regs.scanline == PPU_VBLANK_END,
        s.regs.cycle == 340,
    ensures
        s.tick().regs.scanline == PPU_PRERENDER,
        s.tick().regs.cycle == 0,
        s.tick().regs.odd == !s.regs.odd,
        s.tick().ticks(dots_after_frame(s)).regs.scanline == 0,
        s.tick().ticks(dots_after_frame(s)).regs.cycle == 0,
        s.tick().ticks(dots_after_frame(s)).regs.odd == !s.regs.odd,
        forall|k: nat|
            k < dots_after_frame(s) ==> (#[trigger] s.tick().ticks(k)).regs.scanline
                == PPU_PRERENDER,
{
    lemma_tick_moves_counters(s);
    lemma_prerender_line_length(s.tick());
}

/// While the odd flag is set, the line before the first visible one is a
/// whole one, whatever the settings: it follows an even frame, and every dot
/// of it is followed by the next.
pub proof fn lemma_line_after_even_frame(s: PpuView)
    requires
        s.wf(),
        s.regs.scanline == PPU_PRERENDER,
        s.regs.odd,
    ensures
        !s.regs.short_line,
        !s.skips_dot(),
        prerender_dots(s) == 341,
        s.regs.cycle < 340 ==> s.update_cycle().regs.cycle == s.regs.cycle + 1 && s.tick().regs.cycle
            == s.regs.cycle + 1 && s.tick().regs.scanline == PPU_PRERENDER && s.tick().regs.odd,
{
    lemma_tick_moves_counters(s);
}

/// The two dots on which the status flags change by themselves: dot 1 of
/// line 241 completes the frame, sets the vertical blank flag and raises the
/// interrupt if it is enabled, unless a read of the status register has just
/// suppressed both; dot 1 of the line before the first visible one clears
/// the three flags.
pub proof fn lemma_vblank_dots(s: PpuView)
    requires
        s.regs.cycle == 1,
    ensures
        s.regs.scanline == 241 ==> s.tick().regs.redraw,
        s.regs.scanline == 241 && !s.regs.suppress_vblank ==> s.tick().regs.status.vblank && (
        s.regs.ctrl.nmi_enable ==> s.tick().regs.should_nmi),
        s.regs.scanline == 241 && s.regs.suppress_vblank ==> s.tick().regs.status
            == s.regs.status && s.tick().regs.should_nmi == s.regs.should_nmi,
        s.regs.scanline == PPU_PRERENDER ==> !s.tick().regs.status.vblank
            && !s.tick().regs.status.sprite_0_hit && !s.tick().regs.status.sprite_overflow,
{
    reveal(PpuView::tick);
}

// ----- the flags -----

/// The sprite 0 flag after a tick. It is raised only on a visible line, on a
/// dot between 1 and 254, where sprite 0 sits in the first slot and shows a
/// pixel over a pixel of the background (see [`PpuView::sprite_0_hits`]);
/// once raised it stays until dot 1 of the line before the first visible
/// one, which clears it.
pub open spec fn hit_after_tick(s: PpuView) -> bool {
    let r = s.regs;
    if r.cycle == 0 || r.scanline >= PPU_POSTRENDER || r.cycle > 256 {
        r.status.sprite_0_hit
    } else if r.scanline == PPU_PRERENDER {
        r.cycle != 1 && r.status.sprite_0_hit
    } else {
        r.status.sprite_0_hit || s.before_pixel().sprite_0_hits()
    }
}

/// A tick leaves the sprite 0 flag as [`hit_after_tick`] says.
#[verifier::rlimit(40)]
pub proof fn lemma_sprite_0_flag(s: PpuView)
    ensures
        s.tick().regs.status.sprite_0_hit == hit_after_tick(s),
        s.before_pixel().sprite_0_hits() ==> s.before_pixel().regs.sprite_0_line
            && s.regs.mask.background_enable && s.regs.mask.sprite_enable && s.regs.cycle < 255,
{
    reveal(PpuView::tick);
    lemma_process_scanline_undisturbed(s);
    let a = s.process_scanline();
    lemma_fetch_undisturbed(a);
    let s2 = lemma_scrolled_undisturbed(s);
    lemma_fetch_undisturbed(s2);
}

/// The unit stands within a frame, neither the vertical blank flag nor the
/// interrupt is up, and if the unit stands before dot 2 of line 241 a read
/// of the status register has told it to leave both down in this frame.
pub open spec fn vblank_quiet(s: PpuView) -> bool {
    &&& -1 <= s.regs.scanline <= 260
    &&& s.regs.cycle <= 340
    &&& !s.regs.status.vblank
    &&& !s.regs.should_nmi
    &&& (s.regs.scanline == PPU_VBLANK_START && s.regs.cycle <= 1 ==> s.regs.suppress_vblank)
}

/// Whether the unit stands at the last dot before line 241.
pub open spec fn at_frame_end(s: PpuView) -> bool {
    s.regs.scanline == PPU_POSTRENDER && s.regs.cycle == 340
}

/// Whether `k` ticks keep the unit short of the next line 241.
pub open spec fn within_frame(s: PpuView, k: nat) -> bool
    decreases k,
{
    k == 0 || (!at_frame_end(s) && within_frame(s.tick(), (k - 1) as nat))
}

/// A tick that does not enter line 241 keeps the flag and the interrupt
/// down.
#[verifier::rlimit(40)]
pub proof fn lemma_quiet_tick(s: PpuView)
    requires
        vblank_quiet(s),
        !at_frame_end(s),
    ensures
        vblank_quiet(s.tick()),
{
    reveal(PpuView::tick);
    lemma_process_scanline_undisturbed(s);
    lemma_fetch_undisturbed(s.process_scanline());
}

/// No access to the registers raises the flag or the interrupt.
pub proof fn lemma_quiet_access(s: PpuView, address: u16, value: u8)
    requires
        vblank_quiet(s),
    ensures
        vblank_quiet(s.io_read(address)),
        vblank_quiet(s.io_write(address, value)),
        vblank_quiet(s.take_nmi()),
        vblank_quiet(s.take_redraw()),
{
}

/// The same for any number of ticks short of the next line 241.
pub proof fn lemma_quiet_ticks(s: PpuView, k: nat)
    requires
        vblank_quiet(s),
        within_frame(s, k),
    ensures
        vblank_quiet(s.ticks(k)),
    decreases k,
{
    if k > 0 {
        lemma_quiet_tick(s);
        lemma_quiet_ticks(s.tick(), (k - 1) as nat);
    }
}

/// A read of the status register on the first two dots of line 241, before
/// the vertical blank flag is set, reads the flag as clear, and keeps both
/// the flag and the interrupt down for the rest of the frame: they are down
/// after every number of ticks that stays short of the next line 241.
pub proof fn lemma_suppressed_frame(s: PpuView, k: nat)
    requires
        s.regs.scanline == PPU_VBLANK_START,
        s.regs.cycle <= 1,
        within_frame(s.io_read(PPU_STATUS), k),
    ensures
        vblank_quiet(s.io_read(PPU_STATUS)),
        vblank_quiet(s.io_read(PPU_STATUS).ticks(k)),
        !s.io_read(PPU_STATUS).ticks(k).regs.status.vblank,
        !s.io_read(PPU_STATUS).ticks(k).regs.should_nmi,
        !s.regs.status.vblank ==> s.io_read_value(PPU_STATUS) & 0x80 == 0,
{
    lemma_quiet_ticks(s.io_read(PPU_STATUS), k);
    lemma_status_bits(s);
}

/// The top three bits of the byte that the status register reads as are the
/// three flags, and the read leaves the sprite flags as they are.
pub proof fn lemma_status_bits(s: PpuView)
    ensures
        (s.io_read_value(PPU_STATUS) & 0x80 != 0) == s.regs.status.vblank,
        (s.io_read_value(PPU_STATUS) & 0x40 != 0) == s.regs.status.sprite_0_hit,
        (s.io_read_value(PPU_STATUS) & 0x20 != 0) == s.regs.status.sprite_overflow,
        s.io_read_value(PPU_STATUS) & 0x1f == s.regs.latch & 0x1f,
        s.io_read(PPU_STATUS).regs.status.sprite_0_hit == s.regs.status.sprite_0_hit,
        s.io_read(PPU_STATUS).regs.status.sprite_overflow == s.regs.status.sprite_overflow,
{
    let latch = s.regs.latch;
    let v: u8 = if s.regs.status.vblank { 0x80 } else { 0 };
    let h: u8 = if s.regs.status.sprite_0_hit { 0x40 } else { 0 };
    let o: u8 = if s.regs.status.sprite_overflow { 0x20 } else { 0 };
    assert({
        let b = (latch & 0x1f) | ((v | h) | o);
        &&& (b & 0x80 != 0) == (v == 0x80)
        &&& (b & 0x40 != 0) == (h == 0x40)
        &&& (b & 0x20 != 0) == (o == 0x20)
        &&& b & 0x1f == latch & 0x1f
    }) by (bit_vector)
        requires
            v == 0x80 || v == 0,
            h == 0x40 || h == 0,
            o == 0x20 || o == 0,
    ;
}

} // verus!
