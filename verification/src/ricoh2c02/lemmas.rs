//! What holds of the register interface and of the palette whatever the
//! state of the picture unit.
use crate::ricoh2c02::model::{nametable_index, palette_index, PpuView};
use crate::ricoh2c02::registers::{
    addr_first_t, addr_second_t, control_t, scroll_first_t, scroll_second_t, PPU_ADDR, PPU_CTRL,
    PPU_SCROLL, PPU_STATUS,
};
use crate::rom::MirrorMode;
use vstd::prelude::*;

verus! {

/// A read of the status register leaves the write toggle clear, so that the
/// next write to the scroll or address register is the first of a pair.
pub proof fn lemma_status_read_clears_toggle(s: PpuView)
    ensures
        !s.io_read(PPU_STATUS).regs.write_toggle,
        !s.io_read(PPU_STATUS).regs.status.vblank,
{
}

/// The address that a pair of writes to the address register spells: the low
/// six bits of the first value above the eight bits of the second.
pub open spec fn address_pair(hi: u8, lo: u8) -> u16 {
    (((hi as u16) & 0x3f) << 8) | (lo as u16)
}

/// After a pair of writes to the address register, both `v` and `t` hold the
/// address that the pair spells, whatever they held before.
pub proof fn lemma_address_pair(s: PpuView, hi: u8, lo: u8)
    requires
        !s.regs.write_toggle,
    ensures
        s.io_write(PPU_ADDR, hi).io_write(PPU_ADDR, lo).regs.vram_address == address_pair(hi, lo),
        s.io_write(PPU_ADDR, hi).io_write(PPU_ADDR, lo).regs.temp_vram_address == address_pair(
            hi,
            lo,
        ),
        !s.io_write(PPU_ADDR, hi).io_write(PPU_ADDR, lo).regs.write_toggle,
{
    let t = s.regs.temp_vram_address;
    assert((((t & !0xff00u16) | (((hi as u16) & 0x3f) << 8)) & !0x00ffu16) | (lo as u16) == (((
    hi as u16) & 0x3f) << 8) | (lo as u16)) by (bit_vector);
    assert(addr_second_t(addr_first_t(t, hi), lo) == address_pair(hi, lo));
}

/// After a pair of writes to the scroll register, `x` holds the low three
/// bits of the first value and `t` holds its other five as coarse X, the top
/// five bits of the second value as coarse Y and its low three as fine Y.
/// The nametable bits of `t` stay.
#[verifier::rlimit(40)]
pub proof fn lemma_scroll_pair(s: PpuView, first: u8, second: u8)
    requires
        !s.regs.write_toggle,
    ensures
        ({
            let after = s.io_write(PPU_SCROLL, first).io_write(PPU_SCROLL, second).regs;
            &&& after.fine_x_scroll == first % 8
            &&& after.temp_vram_address & 0x001f == first / 8
            &&& (after.temp_vram_address >> 5) & 0x001f == second / 8
            &&& (after.temp_vram_address >> 12) & 0x0007 == second % 8
            &&& after.temp_vram_address & 0x0c00 == s.regs.temp_vram_address & 0x0c00
            &&& after.vram_address == s.regs.vram_address
            &&& !after.write_toggle
        }),
{
    let t = s.regs.temp_vram_address;
    assert({
        let t1 = (t & !0x001fu16) | ((first as u16) >> 3);
        let t2 = ((t1 & !0x73e0u16) | (((second as u16) & 0xf8) << 2)) | (((second as u16) & 0x07)
            << 12);
        &&& first & 0x7 == first % 8
        &&& t2 & 0x001f == first / 8
        &&& (t2 >> 5) & 0x001f == second / 8
        &&& (t2 >> 12) & 0x0007 == second % 8
        &&& t2 & 0x0c00 == t & 0x0c00
    }) by (bit_vector);
    assert(scroll_second_t(scroll_first_t(t, first), second) == ((((t & !0x001fu16) | ((
    first as u16) >> 3)) & !0x73e0u16) | (((second as u16) & 0xf8) << 2)) | (((second as u16)
        & 0x07) << 12));
}

/// A write to the control register puts its low two bits into the nametable
/// bits of `t` and leaves the rest of `t` alone.
pub proof fn lemma_control_nametable(s: PpuView, value: u8)
    ensures
        (s.io_write(PPU_CTRL, value).regs.temp_vram_address >> 10) & 0x3 == value % 4,
        s.io_write(PPU_CTRL, value).regs.temp_vram_address & !0x0c00u16
            == s.regs.temp_vram_address & !0x0c00u16,
{
    let t = s.regs.temp_vram_address;
    assert({
        let t1 = (t & !0x0c00u16) | (((value as u16) & 0x03) << 10);
        &&& (t1 >> 10) & 0x3 == value % 4
        &&& t1 & !0x0c00u16 == t & !0x0c00u16
    }) by (bit_vector);
    assert(control_t(t, value) == (t & !0x0c00u16) | (((value as u16) & 0x03) << 10));
}

/// The address `k` nametables after an address in the first nametable lies
/// in logical nametable `k`, at the same place within it.
#[verifier::rlimit(40)]
proof fn lemma_nametable_of(address: u16, k: int)
    requires
        address % 0x1000 < 0x400,
        0 <= k < 4,
    ensures
        address + 0x400 * k <= 0xffff,
        ((address + 0x400 * k) as u16 % 0x1000) / 0x400 == k,
        (address + 0x400 * k) as u16 % 0x400 == address % 0x400,
{
}

/// With horizontal mirroring the two upper nametables share a page and the
/// two lower ones share another.
pub proof fn lemma_horizontal_mirroring(address: u16)
    requires
        address % 0x1000 < 0x400,
    ensures
        nametable_index(MirrorMode::Horizontal, address) == nametable_index(
            MirrorMode::Horizontal,
            (address + 0x400) as u16,
        ),
        nametable_index(MirrorMode::Horizontal, (address + 0x800) as u16) == nametable_index(
            MirrorMode::Horizontal,
            (address + 0xc00) as u16,
        ),
        nametable_index(MirrorMode::Horizontal, address) != nametable_index(
            MirrorMode::Horizontal,
            (address + 0x800) as u16,
        ),
{
    lemma_nametable_of(address, 0);
    lemma_nametable_of(address, 1);
    lemma_nametable_of(address, 2);
    lemma_nametable_of(address, 3);
}

/// With vertical mirroring the two left nametables share a page and the two
/// right ones share another.
pub proof fn lemma_vertical_mirroring(address: u16)
    requires
        address % 0x1000 < 0x400,
    ensures
        nametable_index(MirrorMode::Vertical, address) == nametable_index(
            MirrorMode::Vertical,
            (address + 0x800) as u16,
        ),
        nametable_index(MirrorMode::Vertical, (address + 0x400) as u16) == nametable_index(
            MirrorMode::Vertical,
            (address + 0xc00) as u16,
        ),
        nametable_index(MirrorMode::Vertical, address) != nametable_index(
            MirrorMode::Vertical,
            (address + 0x400) as u16,
        ),
{
    lemma_nametable_of(address, 0);
    lemma_nametable_of(address, 1);
    lemma_nametable_of(address, 2);
    lemma_nametable_of(address, 3);
}

/// With one screen all four nametables share one page, and with four
/// screens each has its own.
pub proof fn lemma_one_and_four_screens(address: u16)
    requires
        address % 0x1000 < 0x400,
    ensures
        nametable_index(MirrorMode::OneScreen, address) == nametable_index(
            MirrorMode::OneScreen,
            (address + 0x400) as u16,
        ),
        nametable_index(MirrorMode::OneScreen, address) == nametable_index(
            MirrorMode::OneScreen,
            (address + 0x800) as u16,
        ),
        nametable_index(MirrorMode::OneScreen, address) == nametable_index(
            MirrorMode::OneScreen,
            (address + 0xc00) as u16,
        ),
        forall|other: u16| #[trigger]
            nametable_index(MirrorMode::FourScreen, other) == other % 0x1000,
{
    lemma_nametable_of(address, 0);
    lemma_nametable_of(address, 1);
    lemma_nametable_of(address, 2);
    lemma_nametable_of(address, 3);
}

/// A write to a nametable is read back at every address that reaches the
/// same byte, and leaves the other bytes alone.
pub proof fn lemma_nametable_write_read(s: PpuView, written: u16, read: u16, value: u8)
    requires
        s.wf(),
    ensures
        nametable_index(s.mapper.mirroring(), written) == nametable_index(
            s.mapper.mirroring(),
            read,
        ) ==> s.nametable_write(written, value).nametable_read(read) == value,
        nametable_index(s.mapper.mirroring(), written) != nametable_index(
            s.mapper.mirroring(),
            read,
        ) ==> s.nametable_write(written, value).nametable_read(read) == s.nametable_read(read),
{
}

/// The palette value that a read returns after `value` was stored.
pub open spec fn stored_colour(s: PpuView, value: u8) -> u8 {
    if s.regs.mask.greyscale {
        (value & 0x3f) & 0x30
    } else {
        value & 0x3f
    }
}

/// Entries 0x10, 0x14, 0x18 and 0x1c of the palette are entries 0x00, 0x04,
/// 0x08 and 0x0c: a write to one of the two addresses is read back at both.
#[verifier::rlimit(40)]
pub proof fn lemma_palette_mirror(s: PpuView, address: u16, value: u8)
    requires
        s.wf(),
        address % 0x20 >= 0x10,
        address % 4 == 0,
    ensures
        s.palette_write(address, value).palette_read(address) == stored_colour(s, value),
        s.palette_write(address, value).palette_read((address - 0x10) as u16) == stored_colour(
            s,
            value,
        ),
        s.palette_write((address - 0x10) as u16, value).palette_read(address) == stored_colour(
            s,
            value,
        ),
        palette_index(address) == address % 0x20 - 0x10,
{
}

/// A write to the palette is read back at every address that reaches the
/// same entry, and leaves the other entries alone.
pub proof fn lemma_palette_write_read(s: PpuView, written: u16, read: u16, value: u8)
    requires
        s.wf(),
    ensures
        palette_index(written) == palette_index(read) ==> s.palette_write(
            written,
            value,
        ).palette_read(read) == stored_colour(s, value),
        palette_index(written) != palette_index(read) ==> s.palette_write(
            written,
            value,
        ).palette_read(read) == s.palette_read(read),
{
}

} // verus!
