//! Which sprite the first slot holds: how the verdict of the evaluation on
//! sprite 0 reaches the line on which the sprite 0 flag can be raised.
use crate::ricoh2c02::model::{sprite_in_range, PpuView};
use crate::ricoh2c02::registers::PPU_POSTRENDER;
use crate::ricoh2c02::timing::{
    lemma_sprite_0_flag, lemma_tick_keeps_sprites, lemma_tick_moves_counters, lemma_ticks_split,
};
use crate::ricoh2c02::wellformed::lemma_tick_wf;
use vstd::prelude::*;

verus! {

/// The second state differs from the first in nothing that the evaluation
/// reads or writes: the dot, the settings, the sprite memory, the state of
/// the evaluation, the secondary memory and the mark of sprite 0.
pub open spec fn same_evaluation(a: PpuView, b: PpuView) -> bool {
    &&& a.same_dot(b)
    &&& a.oam == b.oam
    &&& a.regs.eval == b.regs.eval
    &&& a.secondary_oam == b.secondary_oam
    &&& a.regs.sprite_0_line == b.regs.sprite_0_line
}

proof fn lemma_steps_keep_evaluation(s: PpuView)
    ensures
        same_evaluation(s.load_tile_info(), s),
        same_evaluation(s.increment_horizontal_scroll(), s),
        same_evaluation(s.increment_vertical_scroll(), s),
        same_evaluation(s.count_down_sprites(), s),
        same_evaluation(s.draw_pixel(), s),
        same_evaluation(s.shift_registers(), s),
        same_evaluation(s.copy_vertical_bits(), s),
        same_evaluation(s.process_prerender(), s),
        same_evaluation(s.process_vblank(), s),
{
}

/// The state on which the evaluation step of a dot between 1 and 256 works.
proof fn lemma_before_evaluation(s: PpuView) -> (x: PpuView)
    ensures
        s.visible_dot() == x.sprite_evaluation(),
        same_evaluation(x, s),
{
    let s1 = s.load_tile_info();
    lemma_steps_keep_evaluation(s);
    lemma_steps_keep_evaluation(s1);
    lemma_steps_keep_evaluation(s1.increment_horizontal_scroll());
    let s2 = if s.rendering_enabled() && s.regs.cycle % 8 == 0 {
        if s.regs.cycle == 256 {
            s1.increment_horizontal_scroll().increment_vertical_scroll()
        } else {
            s1.increment_horizontal_scroll()
        }
    } else {
        s1
    };
    lemma_steps_keep_evaluation(s2);
    lemma_steps_keep_evaluation(s2.count_down_sprites());
    let s3 = if s.regs.scanline != crate::ricoh2c02::registers::PPU_PRERENDER {
        s2.count_down_sprites().draw_pixel()
    } else {
        s2
    };
    lemma_steps_keep_evaluation(s3);
    s3.shift_registers()
}

/// On a visible line, a tick on a dot between 1 and 256 is the evaluation
/// step of the dot, on a state that the rest of the work has not changed in
/// what the evaluation reads, and then the move to the next dot.
proof fn lemma_evaluation_tick(s: PpuView) -> (x: PpuView)
    requires
        0 <= s.regs.scanline < PPU_POSTRENDER,
        1 <= s.regs.cycle <= 256,
    ensures
        s.tick() == x.sprite_evaluation().update_cycle(),
        same_evaluation(x, s),
{
    reveal(PpuView::tick);
    lemma_before_evaluation(s)
}

/// Whether sprite 0, as the sprite memory holds it, covers a line.
pub open spec fn sprite_0_covers(s: PpuView, line: i16) -> bool {
    sprite_in_range(s.oam[0], line, s.regs.ctrl.sprite_size())
}

/// The evaluation of a line has judged sprite 0 and will not judge it again:
/// its mark says whether sprite 0 covers the line.
pub open spec fn verdict_stands(s: PpuView, origin: PpuView) -> bool {
    &&& s.regs.eval.sprite_0_next == sprite_0_covers(origin, origin.regs.scanline)
    &&& (s.regs.eval.oam_index != 0 || s.regs.eval.oam_overflow)
    &&& s.oam == origin.oam
    &&& s.regs.ctrl == origin.regs.ctrl
    &&& s.regs.scanline == origin.regs.scanline
}

/// Dots 65 and 66 of a visible line judge sprite 0.
pub proof fn lemma_sprite_0_is_judged(s: PpuView)
    requires
        0 <= s.regs.scanline < PPU_POSTRENDER,
        s.regs.cycle == 65,
    ensures
        s.tick().tick().regs.cycle == 67,
        verdict_stands(s.tick().tick(), s),
{
    let x = lemma_evaluation_tick(s);
    let t = s.tick();
    assert(t.regs.cycle == 66);
    assert(t.regs.eval.oam_index == 0 && t.regs.eval.oam_2_addr == 0 && !t.regs.eval.oam_overflow
        && !t.regs.eval.sprite_0_next && t.regs.eval.oam_buffer == s.oam[0]);
    assert(t.oam == s.oam && t.regs.ctrl == s.regs.ctrl && t.regs.scanline == s.regs.scanline);
    let y = lemma_evaluation_tick(t);
}

/// From dot 67 to dot 256 the verdict on sprite 0 stands.
pub proof fn lemma_verdict_tick(s: PpuView, origin: PpuView)
    requires
        0 <= s.regs.scanline < PPU_POSTRENDER,
        67 <= s.regs.cycle <= 256,
        verdict_stands(s, origin),
    ensures
        verdict_stands(s.tick(), origin),
        s.tick().regs.cycle == s.regs.cycle + 1,
{
    let x = lemma_evaluation_tick(s);
}

proof fn lemma_one_tick(s: PpuView, j: nat)
    ensures
        s.ticks(j + 1) == s.ticks(j).tick(),
{
    lemma_ticks_split(s, j, 1);
    let t = s.ticks(j);
    assert(t.tick().ticks(0) == t.tick());
    assert(t.ticks(1) == t.tick());
}

proof fn lemma_verdict_ticks(s: PpuView, origin: PpuView, k: nat)
    requires
        0 <= s.regs.scanline < PPU_POSTRENDER,
        s.regs.cycle == 67,
        verdict_stands(s, origin),
        k <= 190,
    ensures
        verdict_stands(s.ticks(k), origin),
        s.ticks(k).regs.cycle == 67 + k,
    decreases k,
{
    if k > 0 {
        let j = (k - 1) as nat;
        lemma_verdict_ticks(s, origin, j);
        lemma_one_tick(s, j);
        lemma_verdict_tick(s.ticks(j), origin);
    }
}

proof fn lemma_visible_dot_keeps_mark(s: PpuView)
    ensures
        s.visible_dot().regs.sprite_0_line == s.regs.sprite_0_line,
{
    let x = lemma_before_evaluation(s);
    assert(x.sprite_evaluation().regs.sprite_0_line == x.regs.sprite_0_line);
}

proof fn lemma_prefetch_dot_keeps_mark(s: PpuView)
    ensures
        s.prefetch_dot().regs.sprite_0_line == s.regs.sprite_0_line,
{
    lemma_steps_keep_evaluation(s);
    lemma_steps_keep_evaluation(s.load_tile_info());
    lemma_steps_keep_evaluation(s.load_tile_info().shift_registers());
}

proof fn lemma_sprite_fetch_takes_mark(s: PpuView)
    ensures
        s.sprite_fetch().regs.sprite_0_line == (if s.regs.cycle == 257 {
            s.regs.eval.sprite_0_next
        } else {
            s.regs.sprite_0_line
        }),
{
}

proof fn lemma_process_scanline_mark(s: PpuView)
    requires
        s.regs.cycle >= 1,
    ensures
        s.process_scanline().regs.sprite_0_line == (if s.regs.cycle == 257 {
            s.regs.eval.sprite_0_next
        } else {
            s.regs.sprite_0_line
        }),
{
    lemma_visible_dot_keeps_mark(s);
    lemma_prefetch_dot_keeps_mark(s);
    lemma_sprite_fetch_takes_mark(s);
}

/// The mark of sprite 0 after a tick: dot 257 of a line that is drawn takes
/// it from the evaluation, and no other dot changes it.
pub proof fn lemma_sprite_0_line_tick(s: PpuView)
    ensures
        s.tick().regs.sprite_0_line == (if s.regs.scanline < PPU_POSTRENDER && s.regs.cycle
            == 257 {
            s.regs.eval.sprite_0_next
        } else {
            s.regs.sprite_0_line
        }),
{
    reveal(PpuView::tick);
    if s.regs.cycle >= 1 {
        lemma_process_scanline_mark(s);
    }
    lemma_steps_keep_evaluation(s);
    lemma_steps_keep_evaluation(s.process_scanline());
}

/// The mark of sprite 0 stands from dot 258 of a line to dot 257 of the
/// next.
proof fn lemma_mark_ticks(s: PpuView, k: nat)
    requires
        0 <= s.regs.scanline < PPU_POSTRENDER,
        s.regs.cycle == 258,
        k <= 340,
    ensures
        s.ticks(k).regs.sprite_0_line == s.regs.sprite_0_line,
        k <= 82 ==> s.ticks(k).regs.scanline == s.regs.scanline && s.ticks(k).regs.cycle == 258
            + k,
        k > 82 ==> s.ticks(k).regs.scanline == s.regs.scanline + 1 && s.ticks(k).regs.cycle == k
            - 83,
    decreases k,
{
    if k > 0 {
        let j = (k - 1) as nat;
        lemma_mark_ticks(s, j);
        lemma_one_tick(s, j);
        lemma_sprite_0_line_tick(s.ticks(j));
        lemma_tick_moves_counters(s.ticks(j));
    }
}

/// The dot on the line after that of `s` at which the unit stands after
/// `276 + d` ticks from dot 65.
pub open spec fn next_line_dot(s: PpuView, d: nat) -> PpuView {
    s.ticks(276 + d)
}

/// Sprite 0 sits in the first slot on a line exactly if it covered the line
/// before when that line was evaluated. From dot 65 of a visible line, the
/// unit stands at dot `d` of the next line after `276 + d` ticks, and its
/// mark of sprite 0 says whether sprite 0, as the sprite memory held it at
/// dot 65, covers the line on which the evaluation ran.
pub proof fn lemma_sprite_0_in_first_slot(s: PpuView, d: nat)
    requires
        0 <= s.regs.scanline < PPU_POSTRENDER,
        s.regs.cycle == 65,
        d <= 257,
    ensures
        next_line_dot(s, d).regs.scanline == s.regs.scanline + 1,
        next_line_dot(s, d).regs.cycle == d,
        next_line_dot(s, d).regs.sprite_0_line == sprite_0_covers(s, s.regs.scanline),
{
    lemma_sprite_0_is_judged(s);
    let judged = s.tick().tick();
    lemma_verdict_ticks(judged, s, 190);
    let fetch = judged.ticks(190);
    assert(fetch.regs.cycle == 257);
    lemma_sprite_0_line_tick(fetch);
    lemma_tick_moves_counters(fetch);
    let marked = fetch.tick();
    assert(marked.regs.cycle == 258 && marked.regs.scanline == s.regs.scanline);
    lemma_mark_ticks(marked, (83 + d) as nat);
    // the ticks add up: 2 + 190 + 1 + 83 + d
    assert(s.ticks(2) == judged) by {
        lemma_one_tick(s, 0);
        lemma_one_tick(s, 1);
        assert(s.ticks(0) == s);
    }
    lemma_ticks_split(s, 2, 190);
    lemma_one_tick(s, 192);
    lemma_ticks_split(s, 193, (83 + d) as nat);
}

/// On the line after one that sprite 0 did not cover, no dot raises the
/// sprite 0 flag; on the line after one that it covered, a dot between 1
/// and 254 raises the flag exactly if the first slot and the background both
/// show a pixel there.
pub proof fn lemma_sprite_0_hit_on_next_line(s: PpuView, d: nat)
    requires
        0 <= s.regs.scanline < PPU_POSTRENDER - 1,
        s.regs.cycle == 65,
        1 <= d <= 256,
    ensures
        ({
            let u = next_line_dot(s, d);
            let p = u.before_pixel();
            let background = if p.regs.mask.background_enable { p.get_pixel_colour() } else { 0 };
            u.tick().regs.status.sprite_0_hit == (u.regs.status.sprite_0_hit || (sprite_0_covers(
                s,
                s.regs.scanline,
            ) && background != 0 && p.sprite_pixel(0) != 0 && d < 255))
        }),
{
    lemma_sprite_0_in_first_slot(s, d);
    let u = next_line_dot(s, d);
    lemma_sprite_0_flag(u);
    lemma_pixel_state_keeps_mark(u);
}

proof fn lemma_pixel_state_keeps_mark(u: PpuView)
    ensures
        u.before_pixel().regs.sprite_0_line == u.regs.sprite_0_line,
        u.before_pixel().regs.cycle == u.regs.cycle,
        u.before_pixel().regs.mask == u.regs.mask,
{
    let s1 = u.load_tile_info();
    lemma_steps_keep_evaluation(u);
    lemma_steps_keep_evaluation(s1);
    lemma_steps_keep_evaluation(s1.increment_horizontal_scroll());
    let s2 = if u.rendering_enabled() && u.regs.cycle % 8 == 0 {
        if u.regs.cycle == 256 {
            s1.increment_horizontal_scroll().increment_vertical_scroll()
        } else {
            s1.increment_horizontal_scroll()
        }
    } else {
        s1
    };
    lemma_steps_keep_evaluation(s2);
}

// ----- what the first slot shows -----

/// What a sprite slot holds: attributes, X counter and the two planes of the
/// pattern.
pub struct Slot {
    pub latch: u8,
    pub counter: u8,
    pub low: u8,
    pub high: u8,
}

/// What the first slot holds.
pub open spec fn first_slot(s: PpuView) -> Slot {
    Slot {
        latch: s.sprite_latch[0],
        counter: s.sprite_counter[0],
        low: s.sprite_shift_low[0],
        high: s.sprite_shift_high[0],
    }
}

/// A pattern register moved by one pixel: to the right for a mirrored
/// sprite, to the left otherwise.
pub open spec fn moved(bits: u8, latch: u8) -> u8 {
    if latch & 0x40 != 0 {
        bits >> 1
    } else {
        bits << 1
    }
}

/// A pattern register moved by `n` pixels.
pub open spec fn moved_times(bits: u8, latch: u8, n: nat) -> u8
    decreases n,
{
    if n == 0 {
        bits
    } else {
        moved(moved_times(bits, latch, (n - 1) as nat), latch)
    }
}

/// The second state differs from the first in nothing that the sprite slots
/// hold.
pub open spec fn same_slots(a: PpuView, b: PpuView) -> bool {
    &&& a.sprite_latch == b.sprite_latch
    &&& a.sprite_counter == b.sprite_counter
    &&& a.sprite_shift_low == b.sprite_shift_low
    &&& a.sprite_shift_high == b.sprite_shift_high
}

proof fn lemma_steps_keep_slots(s: PpuView)
    ensures
        same_slots(s.load_tile_info(), s),
        same_slots(s.increment_horizontal_scroll(), s),
        same_slots(s.increment_vertical_scroll(), s),
        same_slots(s.draw_pixel(), s),
        same_slots(s.sprite_evaluation(), s),
        same_slots(s.update_cycle(), s),
        same_evaluation(s.update_cycle(), s.update_cycle()),
        s.update_cycle().secondary_oam == s.secondary_oam,
        s.update_cycle().oam == s.oam,
{
}

/// The first slot after the sprites' counters went down and after the
/// shift registers moved.
proof fn lemma_count_and_shift(s: PpuView)
    ensures
        first_slot(s.count_down_sprites()) == (Slot {
            counter: if s.sprite_counter[0] > 0 { (s.sprite_counter[0] - 1) as u8 } else { 0u8 },
            ..first_slot(s)
        }),
        first_slot(s.shift_registers()) == (if s.sprite_counter[0] == 0 {
            Slot {
                low: moved(s.sprite_shift_low[0], s.sprite_latch[0]),
                high: moved(s.sprite_shift_high[0], s.sprite_latch[0]),
                ..first_slot(s)
            }
        } else {
            first_slot(s)
        }),
{
}

/// The first slot after a dot between 1 and 256 of a visible line: the
/// counter goes down, and once it has run out the pattern moves by a pixel
/// after the pixel was chosen.
pub open spec fn slot_after_dot(slot: Slot) -> Slot {
    let counter = if slot.counter > 0 { (slot.counter - 1) as u8 } else { 0u8 };
    if counter == 0 {
        Slot {
            counter,
            low: moved(slot.low, slot.latch),
            high: moved(slot.high, slot.latch),
            ..slot
        }
    } else {
        Slot { counter, ..slot }
    }
}

proof fn lemma_first_slot_drawn(u: PpuView)
    requires
        0 <= u.regs.scanline < PPU_POSTRENDER,
        1 <= u.regs.cycle <= 256,
    ensures
        first_slot(u.tick()) == slot_after_dot(first_slot(u)),
        first_slot(u.before_pixel()) == (Slot {
            counter: slot_after_dot(first_slot(u)).counter,
            ..first_slot(u)
        }),
{
    reveal(PpuView::tick);
    let s1 = u.load_tile_info();
    lemma_steps_keep_slots(u);
    lemma_steps_keep_slots(s1);
    lemma_steps_keep_slots(s1.increment_horizontal_scroll());
    let s2 = if u.rendering_enabled() && u.regs.cycle % 8 == 0 {
        if u.regs.cycle == 256 {
            s1.increment_horizontal_scroll().increment_vertical_scroll()
        } else {
            s1.increment_horizontal_scroll()
        }
    } else {
        s1
    };
    assert(same_slots(s2, u));
    lemma_count_and_shift(s2);
    let counted = s2.count_down_sprites();
    assert(u.before_pixel() == counted);
    lemma_steps_keep_slots(counted);
    let drawn = counted.draw_pixel();
    lemma_count_and_shift(drawn);
    let shifted = drawn.shift_registers();
    lemma_steps_keep_slots(shifted);
    lemma_steps_keep_slots(shifted.sprite_evaluation());
    assert(u.tick() == shifted.sprite_evaluation().update_cycle());
}

/// Between the fetch of the first slot and the next line nothing touches
/// the slot, as long as its counter has not run out.
proof fn lemma_first_slot_kept(u: PpuView)
    requires
        0 <= u.regs.scanline < PPU_POSTRENDER,
        264 <= u.regs.cycle <= 340 || u.regs.cycle == 0,
        u.wf(),
        u.sprite_counter[0] != 0,
    ensures
        first_slot(u.tick()) == first_slot(u),
{
    reveal(PpuView::tick);
    lemma_steps_keep_slots(u);
    if 264 <= u.regs.cycle <= 320 {
        lemma_steps_keep_slots(u.sprite_fetch());
    } else if u.regs.cycle >= 321 {
        lemma_steps_keep_slots(u.load_tile_info());
        lemma_count_and_shift(u.load_tile_info());
        lemma_steps_keep_slots(u.load_tile_info().shift_registers());
        lemma_steps_keep_slots(u.load_tile_info().shift_registers().increment_horizontal_scroll());
        lemma_steps_keep_slots(u.prefetch_dot());
    }
}

/// The first slot `n` ticks after the first dot of a visible line on which
/// it starts out as `loaded`.
pub open spec fn slot_at_dot(loaded: Slot, n: nat) -> Slot {
    Slot {
        latch: loaded.latch,
        counter: if n >= 1 && n - 1 <= loaded.counter {
            (loaded.counter - (n - 1)) as u8
        } else if n == 0 {
            loaded.counter
        } else {
            0u8
        },
        low: moved_times(
            loaded.low,
            loaded.latch,
            if n >= loaded.counter { (n - loaded.counter) as nat } else { 0nat },
        ),
        high: moved_times(
            loaded.high,
            loaded.latch,
            if n >= loaded.counter { (n - loaded.counter) as nat } else { 0nat },
        ),
    }
}

proof fn lemma_first_slot_along_line(z: PpuView, loaded: Slot, n: nat)
    requires
        0 <= z.regs.scanline < PPU_POSTRENDER,
        z.regs.cycle == 0,
        z.wf(),
        first_slot(z) == loaded,
        loaded.counter >= 1,
        n <= 257,
    ensures
        first_slot(z.ticks(n)) == slot_at_dot(loaded, n),
        z.ticks(n).regs.cycle == n,
        z.ticks(n).regs.scanline == z.regs.scanline,
        z.ticks(n).wf(),
    decreases n,
{
    if n > 0 {
        let j = (n - 1) as nat;
        lemma_first_slot_along_line(z, loaded, j);
        lemma_one_tick(z, j);
        let u = z.ticks(j);
        lemma_tick_wf(u);
        lemma_tick_moves_counters(u);
        if j == 0 {
            lemma_first_slot_kept(u);
        } else {
            lemma_first_slot_drawn(u);
            let shifts = if j >= loaded.counter { (j - loaded.counter) as nat } else { 0nat };
            assert(moved_times(loaded.low, loaded.latch, shifts + 1) == moved(
                moved_times(loaded.low, loaded.latch, shifts),
                loaded.latch,
            ));
            assert(moved_times(loaded.high, loaded.latch, shifts + 1) == moved(
                moved_times(loaded.high, loaded.latch, shifts),
                loaded.latch,
            ));
        }
    }
}

proof fn lemma_first_slot_waits(g: PpuView, n: nat)
    requires
        0 <= g.regs.scanline < PPU_POSTRENDER - 1,
        g.regs.cycle == 264,
        g.wf(),
        g.sprite_counter[0] != 0,
        n <= 77,
    ensures
        first_slot(g.ticks(n)) == first_slot(g),
        g.ticks(n).wf(),
        n < 77 ==> g.ticks(n).regs.cycle == 264 + n && g.ticks(n).regs.scanline == g.regs.scanline,
        n == 77 ==> g.ticks(n).regs.cycle == 0 && g.ticks(n).regs.scanline == g.regs.scanline + 1,
    decreases n,
{
    if n > 0 {
        let j = (n - 1) as nat;
        lemma_first_slot_waits(g, j);
        lemma_one_tick(g, j);
        let u = g.ticks(j);
        lemma_tick_wf(u);
        lemma_tick_moves_counters(u);
        lemma_first_slot_kept(u);
    }
}

/// On a visible line, a tick on a dot between 257 and 320 is the sprite
/// fetch step of the dot and then the move to the next dot.
proof fn lemma_fetch_tick(f: PpuView)
    requires
        0 <= f.regs.scanline < PPU_POSTRENDER,
        257 <= f.regs.cycle <= 320,
    ensures
        f.tick() == f.sprite_fetch().update_cycle(),
        f.tick().regs.cycle == f.regs.cycle + 1,
        f.tick().regs.scanline == f.regs.scanline,
{
    reveal(PpuView::tick);
}

/// The pattern byte that the unit fetches on a dot for the sprite in the
/// first slot.
pub open spec fn fetched_byte(f: PpuView, plane: u16) -> u8 {
    f.vram_read(f.sprite_pattern_address(0).wrapping_add(plane))
}

proof fn lemma_first_slot_fetch_dot(f: PpuView)
    requires
        0 <= f.regs.scanline < PPU_POSTRENDER,
        257 <= f.regs.cycle <= 264,
        f.wf(),
    ensures
        f.tick().secondary_oam == f.secondary_oam,
        f.tick().oam == f.oam,
        f.tick().wf(),
        f.tick().regs.cycle == f.regs.cycle + 1,
        f.tick().regs.scanline == f.regs.scanline,
        f.tick().regs.ctrl == f.regs.ctrl,
        first_slot(f.tick()) == (if f.regs.cycle == 257 {
            Slot { latch: f.secondary_oam[2], counter: f.secondary_oam[3], ..first_slot(f) }
        } else if f.regs.cycle == 261 {
            Slot { low: fetched_byte(f, 0), ..first_slot(f) }
        } else if f.regs.cycle == 263 {
            Slot { high: fetched_byte(f, 8), ..first_slot(f) }
        } else {
            first_slot(f)
        }),
{
    lemma_fetch_tick(f);
    lemma_tick_wf(f);
    lemma_steps_keep_slots(f.sprite_fetch());
    assert(f.sprite_pattern_address(0).wrapping_add(0) == f.sprite_pattern_address(0));
}

/// What the first slot holds after the eight dots of its fetch, from dot
/// 257: attributes and X from the secondary memory, and the two pattern
/// bytes that dots 261 and 263 fetch.
proof fn lemma_first_slot_loaded(f: PpuView)
    requires
        0 <= f.regs.scanline < PPU_POSTRENDER,
        f.regs.cycle == 257,
        f.wf(),
    ensures
        first_slot(f.ticks(7)) == (Slot {
            latch: f.secondary_oam[2],
            counter: f.secondary_oam[3],
            low: fetched_byte(f.ticks(4), 0),
            high: fetched_byte(f.ticks(6), 8),
        }),
        f.ticks(7).regs.cycle == 264,
        f.ticks(7).regs.scanline == f.regs.scanline,
        f.ticks(7).wf(),
        f.ticks(4).secondary_oam == f.secondary_oam,
        f.ticks(4).sprite_latch[0] == f.secondary_oam[2],
        f.ticks(4).regs.scanline == f.regs.scanline,
        f.ticks(4).regs.ctrl == f.regs.ctrl,
{
    assert(f.ticks(0) == f);
    lemma_one_tick(f, 0);
    lemma_first_slot_fetch_dot(f);
    lemma_one_tick(f, 1);
    lemma_first_slot_fetch_dot(f.ticks(1));
    lemma_one_tick(f, 2);
    lemma_first_slot_fetch_dot(f.ticks(2));
    lemma_one_tick(f, 3);
    lemma_first_slot_fetch_dot(f.ticks(3));
    lemma_one_tick(f, 4);
    lemma_first_slot_fetch_dot(f.ticks(4));
    lemma_one_tick(f, 5);
    lemma_first_slot_fetch_dot(f.ticks(5));
    lemma_one_tick(f, 6);
    lemma_first_slot_fetch_dot(f.ticks(6));
}

// ----- from the sprite memory to the picture -----

/// The secondary memory holds sprite 0, as the sprite memory of `origin`
/// has it, in its first four bytes, and the evaluation writes behind them.
pub open spec fn first_found(s: PpuView, origin: PpuView) -> bool {
    &&& s.wf()
    &&& s.regs.eval.oam_2_addr >= 4
    &&& s.secondary_oam[0] == origin.oam[0]
    &&& s.secondary_oam[1] == origin.oam[1]
    &&& s.secondary_oam[2] == origin.oam[2]
    &&& s.secondary_oam[3] == origin.oam[3]
}

proof fn lemma_sprite_0_is_found(s: PpuView)
    requires
        0 <= s.regs.scanline < PPU_POSTRENDER,
        s.regs.cycle == 65,
        s.wf(),
        sprite_0_covers(s, s.regs.scanline),
    ensures
        first_found(s.tick().tick(), s),
{
    let x = lemma_evaluation_tick(s);
    let t = s.tick();
    lemma_tick_wf(s);
    assert(t.regs.cycle == 66);
    assert(t.regs.eval.oam_index == 0 && t.regs.eval.oam_2_addr == 0 && !t.regs.eval.oam_overflow
        && t.regs.eval.oam_buffer == s.oam[0]);
    assert(t.oam == s.oam && t.regs.ctrl == s.regs.ctrl && t.regs.scanline == s.regs.scanline);
    let y = lemma_evaluation_tick(t);
    lemma_tick_wf(t);
    assert(y.sprite_covers_line());
    assert(y.sprite_evaluation().secondary_oam == y.found_sprite());
}

proof fn lemma_found_tick(s: PpuView, origin: PpuView)
    requires
        0 <= s.regs.scanline < PPU_POSTRENDER,
        67 <= s.regs.cycle <= 256,
        first_found(s, origin),
    ensures
        first_found(s.tick(), origin),
{
    let x = lemma_evaluation_tick(s);
    lemma_tick_wf(s);
}

proof fn lemma_found_ticks(s: PpuView, origin: PpuView, k: nat)
    requires
        0 <= s.regs.scanline < PPU_POSTRENDER,
        s.regs.cycle == 67,
        first_found(s, origin),
        k <= 190,
    ensures
        first_found(s.ticks(k), origin),
        s.ticks(k).regs.cycle == 67 + k,
        s.ticks(k).regs.scanline == s.regs.scanline,
    decreases k,
{
    if k > 0 {
        let j = (k - 1) as nat;
        lemma_found_ticks(s, origin, j);
        lemma_one_tick(s, j);
        lemma_found_tick(s.ticks(j), origin);
        lemma_tick_moves_counters(s.ticks(j));
    }
}

/// Any number of ticks changes neither the sprite memory nor the cartridge.
pub proof fn lemma_ticks_keep_sprites(s: PpuView, n: nat)
    ensures
        s.ticks(n).same_sprites(s),
    decreases n,
{
    if n > 0 {
        lemma_tick_keeps_sprites(s);
        lemma_ticks_keep_sprites(s.tick(), (n - 1) as nat);
    }
}

/// The colour that a slot shows: the attribute bits above the pattern bits
/// that stand at the end of the pattern registers, nothing while the counter
/// runs, in the masked left columns, or where the pattern bits are zero.
pub open spec fn slot_colour(slot: Slot, masked: bool) -> u8 {
    let attribute = (slot.latch & 0x03) << 2;
    let pattern_high = if slot.latch & 0x40 != 0 {
        (slot.high & 0x01) << 1
    } else {
        (slot.high & 0x80) >> 6
    };
    let pattern_low = if slot.latch & 0x40 != 0 {
        slot.low & 0x01
    } else {
        (slot.low & 0x80) >> 7
    };
    let colour = ((0x10 | attribute) | pattern_high) | pattern_low;
    if slot.counter != 0 || masked || colour & 0x03 == 0 {
        0
    } else {
        colour
    }
}

/// The pattern bytes that the unit fetches for sprite 0 on the line of `s`,
/// on dots 261 and 263, when `s` stands at dot 65 of the line.
pub open spec fn sprite_0_low(s: PpuView) -> u8 {
    fetched_byte(s.ticks(196), 0)
}

pub open spec fn sprite_0_high(s: PpuView) -> u8 {
    fetched_byte(s.ticks(198), 8)
}

/// What the first slot holds when the pixel of column `c` of sprite 0 is
/// chosen: its counter has run out and its pattern has moved by `c` pixels.
pub open spec fn sprite_0_slot(s: PpuView, c: nat) -> Slot {
    Slot {
        latch: s.oam[2],
        counter: 0,
        low: moved_times(sprite_0_low(s), s.oam[2], c),
        high: moved_times(sprite_0_high(s), s.oam[2], c),
    }
}

/// Sprite 0 reaches the picture. If sprite 0, with its X at 1 or more,
/// covers a visible line when the evaluation of that line begins, then on
/// the next line, on dot X + `c`, the first slot shows column `c` of the row
/// of the sprite that the unit fetched on dots 261 and 263: its counter has
/// run out, its attributes are those of sprite 0, and its pattern registers
/// hold the two bytes moved by `c` pixels.
pub proof fn lemma_sprite_0_reaches_picture(s: PpuView, c: nat)
    requires
        0 <= s.regs.scanline < PPU_POSTRENDER - 1,
        s.regs.cycle == 65,
        s.wf(),
        sprite_0_covers(s, s.regs.scanline),
        s.oam[3] >= 1,
        s.oam[3] + c <= 256,
    ensures
        first_slot(next_line_dot(s, s.oam[3] as nat + c).before_pixel()) == sprite_0_slot(s, c),
        next_line_dot(s, s.oam[3] as nat + c).regs.sprite_0_line,
        next_line_dot(s, s.oam[3] as nat + c).regs.scanline == s.regs.scanline + 1,
        next_line_dot(s, s.oam[3] as nat + c).regs.cycle == s.oam[3] + c,
{
    let x = s.oam[3] as nat;
    let d = x + c;
    lemma_sprite_0_in_first_slot(s, d);
    // dots 65 and 66, then up to dot 257
    lemma_sprite_0_is_found(s);
    let judged = s.tick().tick();
    lemma_sprite_0_is_judged(s);
    lemma_found_ticks(judged, s, 190);
    let f = judged.ticks(190);
    assert(s.ticks(2) == judged) by {
        lemma_one_tick(s, 0);
        lemma_one_tick(s, 1);
        assert(s.ticks(0) == s);
    }
    lemma_ticks_split(s, 2, 190);
    assert(f == s.ticks(192));
    // the fetch of the first slot
    lemma_first_slot_loaded(f);
    lemma_ticks_split(s, 192, 4);
    lemma_ticks_split(s, 192, 6);
    lemma_ticks_split(s, 192, 7);
    let g = f.ticks(7);
    assert(g == s.ticks(199));
    // the rest of the line
    lemma_first_slot_waits(g, 77);
    lemma_ticks_split(s, 199, 77);
    let z = g.ticks(77);
    assert(z == s.ticks(276));
    // the next line
    let loaded = first_slot(g);
    lemma_first_slot_along_line(z, loaded, d);
    lemma_ticks_split(s, 276, d);
    let u = z.ticks(d);
    assert(u == next_line_dot(s, d));
    lemma_first_slot_drawn(u);
}

/// The sprite 0 flag is raised where sprite 0 meets the background. Under
/// the conditions of [`lemma_sprite_0_reaches_picture`], the tick on dot
/// X + `c` of the next line raises the flag exactly if the background shows
/// a pixel there, column `c` of the row of sprite 0 shows one, sprites are
/// on and not masked there, and the dot is before dot 255.
pub proof fn lemma_sprite_0_hit(s: PpuView, c: nat)
    requires
        0 <= s.regs.scanline < PPU_POSTRENDER - 1,
        s.regs.cycle == 65,
        s.wf(),
        sprite_0_covers(s, s.regs.scanline),
        s.oam[3] >= 1,
        s.oam[3] + c <= 256,
    ensures
        ({
            let d = s.oam[3] as nat + c;
            let u = next_line_dot(s, d);
            let p = u.before_pixel();
            let background = if p.regs.mask.background_enable { p.get_pixel_colour() } else { 0 };
            let masked = d <= 8 && !u.regs.mask.lc_sprite_enable;
            u.tick().regs.status.sprite_0_hit == (u.regs.status.sprite_0_hit || (background != 0
                && u.regs.mask.sprite_enable && slot_colour(sprite_0_slot(s, c), masked) != 0 && d
                < 255))
        }),
{
    let d = s.oam[3] as nat + c;
    lemma_sprite_0_reaches_picture(s, c);
    lemma_sprite_0_hit_on_next_line(s, d);
    let u = next_line_dot(s, d);
    let p = u.before_pixel();
    lemma_pixel_state_keeps_mark(u);
    assert(p.regs.mask == u.regs.mask);
    assert(p.get_sprite_colour(0) == slot_colour(
        first_slot(p),
        p.regs.cycle <= 8 && !p.regs.mask.lc_sprite_enable,
    ));
}

/// The pattern address of the row of sprite 0 that lies on the line of `s`,
/// from the bytes of sprite 0 in the sprite memory.
pub open spec fn sprite_0_row_address(s: PpuView) -> u16 {
    let r = s.regs;
    let tile = s.oam[1] as u16;
    let base = if !r.ctrl.tall_sprites {
        r.ctrl.sprite_pattern_table | (tile << 4)
    } else {
        ((tile & 0x01) << 12) | ((tile & 0xfe) << 4)
    };
    let row = r.line16().wrapping_sub(s.oam[0] as u16);
    let line = if s.oam[2] & 0x80 != 0 {
        ((r.ctrl.sprite_size() - 1) as u16).wrapping_sub(row)
    } else {
        row
    };
    if line >= 8 {
        base.wrapping_add(16) | ((line - 8) as u16)
    } else {
        base | line
    }
}

/// The low pattern byte that the unit fetches for sprite 0 is the byte of
/// the cartridge at the address of the sprite's row, where that address
/// lies in the pattern tables.
pub proof fn lemma_sprite_0_pattern(s: PpuView)
    requires
        0 <= s.regs.scanline < PPU_POSTRENDER,
        s.regs.cycle == 65,
        s.wf(),
        sprite_0_covers(s, s.regs.scanline),
    ensures
        s.ticks(196).sprite_pattern_address(0) == sprite_0_row_address(s),
        sprite_0_row_address(s) % 0x4000 < 0x2000 ==> sprite_0_low(s) == s.mapper.read_chr(
            (sprite_0_row_address(s) % 0x4000) as u16,
        ),
{
    lemma_sprite_0_is_found(s);
    lemma_sprite_0_is_judged(s);
    let judged = s.tick().tick();
    lemma_found_ticks(judged, s, 190);
    lemma_verdict_ticks(judged, s, 190);
    let f = judged.ticks(190);
    assert(s.ticks(2) == judged) by {
        lemma_one_tick(s, 0);
        lemma_one_tick(s, 1);
        assert(s.ticks(0) == s);
    }
    lemma_ticks_split(s, 2, 190);
    lemma_first_slot_loaded(f);
    lemma_ticks_split(s, 192, 4);
    lemma_ticks_keep_sprites(s, 196);
}

/// Whether `k` ticks keep the unit short of dot 2 of the line before the
/// first visible one.
pub open spec fn before_flags_clear(s: PpuView, k: nat) -> bool
    decreases k,
{
    k == 0 || (!(s.regs.scanline == crate::ricoh2c02::registers::PPU_PRERENDER && s.regs.cycle
        == 1) && before_flags_clear(s.tick(), (k - 1) as nat))
}

/// Once raised, the sprite 0 flag stays up until dot 1 of the line before
/// the first visible one, whatever is ticked and however often the status
/// register is read in between.
pub proof fn lemma_sprite_0_hit_stays(s: PpuView, k: nat)
    requires
        s.regs.status.sprite_0_hit,
        before_flags_clear(s, k),
    ensures
        s.ticks(k).regs.status.sprite_0_hit,
        s.io_read(crate::ricoh2c02::registers::PPU_STATUS).regs.status.sprite_0_hit,
    decreases k,
{
    if k > 0 {
        lemma_sprite_0_flag(s);
        lemma_sprite_0_hit_stays(s.tick(), (k - 1) as nat);
    }
}

} // verus!
