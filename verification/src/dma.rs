//! What a sprite DMA does, wherever the picture unit stands.
use crate::bus::{BusView, OAM_DMA};
use crate::ricoh2c02::timing::lemma_tick_keeps_sprites;
use crate::ricoh2c02::wellformed::{lemma_io_wf, lemma_tick_wf};
use vstd::prelude::*;

verus! {

/// The pages whose bytes a read does not disturb: the work RAM and its
/// mirrors, and the cartridge.
pub open spec fn plain_page(page: u8) -> bool {
    page < 0x20 || page > 0x40
}

/// The cycle counter `n` cycles on.
pub open spec fn advance(cycles: u64, n: nat) -> u64 {
    ((cycles + n) % 0x1_0000_0000_0000_0000) as u64
}

/// Number of cycles that a sprite DMA takes: 513 when it starts on an even
/// cycle, 514 when it starts on an odd one.
pub open spec fn dma_cycles(b: BusView) -> nat {
    if b.cycles % 2 == 1 {
        514
    } else {
        513
    }
}

/// The address of byte `j` of a page.
pub open spec fn page_address(page: u8, j: int) -> u16 {
    (page * 256 + j) as u16
}

/// Where byte `j` of a transfer lands in the sprite memory when the transfer
/// starts with the sprite address at `base`.
pub open spec fn landing(base: u8, j: int) -> int {
    (base + j) % 256
}

/// Cycles add up.
pub proof fn lemma_advance_add(cycles: u64, a: nat, b: nat)
    ensures
        advance(advance(cycles, a), b) == advance(cycles, a + b),
{
    vstd::arithmetic::div_mod::lemma_add_mod_noop(
        cycles + a,
        b as int,
        0x1_0000_0000_0000_0000,
    );
    vstd::arithmetic::div_mod::lemma_mod_twice(cycles + a, 0x1_0000_0000_0000_0000);
    vstd::arithmetic::div_mod::lemma_add_mod_noop(
        (cycles + a) % 0x1_0000_0000_0000_0000,
        b as int,
        0x1_0000_0000_0000_0000,
    );
}

/// How the landing places of one transfer lie to those of the rest of it.
proof fn lemma_landing_step(base: u8, next: u8, i: int)
    requires
        0 <= i < 256,
        next == (base + 1) % 256,
    ensures
        landing(base, 0) == base,
        landing(next, 256 - (i + 1)) == landing(base, 256 - i),
        (base - next) % 256 == 255,
        forall|j: int| i < j < 256 ==> landing(next, j - (i + 1)) == #[trigger] landing(base, j - i),
        forall|k: int|
            0 <= k < 256 && #[trigger] ((k - base) % 256) >= 256 - i ==> k != base && (k - next)
                % 256 == (k - base) % 256 - 1,
{
}

/// A cycle of the bus changes neither the work RAM nor the controller nor
/// the cartridge nor the sprite memory nor the sprite address, wherever the
/// picture unit stands.
pub proof fn lemma_cycle_keeps_sprites(b: BusView)
    requires
        b.wf(),
    ensures
        b.tick().wf(),
        b.tick().ppu.same_sprites(b.ppu),
        b.tick().ram == b.ram,
        b.tick().controller == b.controller,
        b.tick().cycles == advance(b.cycles, 1),
{
    lemma_tick_wf(b.ppu);
    lemma_tick_wf(b.ppu.tick());
    lemma_tick_wf(b.ppu.tick().tick());
    lemma_tick_keeps_sprites(b.ppu);
    lemma_tick_keeps_sprites(b.ppu.tick());
    lemma_tick_keeps_sprites(b.ppu.tick().tick());
}

#[verifier::rlimit(40)]
proof fn lemma_dma_step(s: BusView, page: u8, i: int)
    requires
        s.wf(),
        plain_page(page),
        0 <= i < 256,
    ensures
        s.dma_step(page, i).wf(),
        s.dma_step(page, i).ram == s.ram,
        s.dma_step(page, i).controller == s.controller,
        s.dma_step(page, i).ppu.mapper == s.ppu.mapper,
        s.dma_step(page, i).cycles == advance(s.cycles, 2),
        s.dma_step(page, i).ppu.oam == s.ppu.oam.update(
            s.ppu.regs.oam_addr as int,
            s.read_value(page_address(page, i)),
        ),
        s.dma_step(page, i).ppu.regs.oam_addr == s.ppu.regs.oam_addr.wrapping_add(1),
{
    reveal(BusView::dma_step);
    let fetched = s.tick();
    lemma_cycle_keeps_sprites(s);
    let address = page_address(page, i);
    assert(fetched.read(address) == fetched);
    assert(fetched.read_value(address) == s.read_value(address));
    lemma_cycle_keeps_sprites(fetched);
    lemma_io_wf(fetched.tick().ppu, crate::ricoh2c02::registers::PPU_OAMDATA, s.read_value(address));
}

#[verifier::rlimit(40)]
proof fn lemma_dma_copy(s: BusView, page: u8, i: int)
    requires
        s.wf(),
        plain_page(page),
        0 <= i <= 256,
    ensures
        s.dma_copy(page, i).wf(),
        s.dma_copy(page, i).ram == s.ram,
        s.dma_copy(page, i).controller == s.controller,
        s.dma_copy(page, i).ppu.mapper == s.ppu.mapper,
        s.dma_copy(page, i).cycles == advance(s.cycles, (2 * (256 - i)) as nat),
        s.dma_copy(page, i).ppu.regs.oam_addr == landing(s.ppu.regs.oam_addr, 256 - i),
        forall|j: int|
            i <= j < 256 ==> s.dma_copy(page, i).ppu.oam[#[trigger] landing(
                s.ppu.regs.oam_addr,
                j - i,
            )] == s.read_value(page_address(page, j)),
        forall|k: int|
            0 <= k < 256 && (k - s.ppu.regs.oam_addr) % 256 >= 256 - i ==> s.dma_copy(
                page,
                i,
            ).ppu.oam[k] == #[trigger] s.ppu.oam[k],
    decreases 256 - i,
{
    if i < 256 {
        let base = s.ppu.regs.oam_addr;
        let n = s.dma_step(page, i);
        let f = s.dma_copy(page, i);
        lemma_dma_step(s, page, i);
        lemma_dma_copy(n, page, i + 1);
        assert(f == n.dma_copy(page, i + 1));
        let next = n.ppu.regs.oam_addr;
        lemma_landing_step(base, next, i);
        lemma_advance_add(s.cycles, 2, (2 * (256 - (i + 1))) as nat);
        assert forall|j: int| i <= j < 256 implies f.ppu.oam[#[trigger] landing(base, j - i)]
            == s.read_value(page_address(page, j)) by {
            if j == i {
                assert(n.ppu.oam[base as int] == s.read_value(page_address(page, i)));
                assert(f.ppu.oam[base as int] == n.ppu.oam[base as int]);
            } else {
                assert(landing(next, j - (i + 1)) == landing(base, j - i));
                assert(n.read_value(page_address(page, j)) == s.read_value(page_address(page, j)));
            }
        }
        assert forall|k: int| 0 <= k < 256 && (k - base) % 256 >= 256 - i implies f.ppu.oam[k]
            == #[trigger] s.ppu.oam[k] by {
            assert(f.ppu.oam[k] == n.ppu.oam[k]);
        }
    }
}

/// A sprite DMA from the work RAM or the cartridge puts the 256 bytes of the
/// page into the sprite memory, byte `j` at the sprite address plus `j`
/// modulo 256, leaves the sprite address where it was, changes neither the
/// work RAM nor the controller nor the cartridge, and takes 513 cycles from
/// an even cycle and 514 from an odd one, wherever the picture unit stands.
///
/// Left out are the pages 0x20 to 0x40, behind which the registers of the
/// picture unit and the ports lie: a read there changes what the next read
/// gives, so that such a page holds no 256 bytes to speak of. The length of
/// the transfer is the same for them.
#[verifier::rlimit(40)]
pub proof fn lemma_dma_copies_page(b: BusView, page: u8)
    requires
        b.wf(),
        plain_page(page),
    ensures
        b.write(OAM_DMA, page).wf(),
        b.write(OAM_DMA, page).cycles == advance(b.cycles, dma_cycles(b)),
        forall|j: int|
            0 <= j < 256 ==> b.write(OAM_DMA, page).ppu.oam[#[trigger] landing(
                b.ppu.regs.oam_addr,
                j,
            )] == b.read_value(page_address(page, j)),
        b.write(OAM_DMA, page).ppu.regs.oam_addr == b.ppu.regs.oam_addr,
        b.write(OAM_DMA, page).ram == b.ram,
        b.write(OAM_DMA, page).controller == b.controller,
        b.write(OAM_DMA, page).ppu.mapper == b.ppu.mapper,
{
    let base = b.ppu.regs.oam_addr;
    lemma_cycle_keeps_sprites(b);
    let start = if b.cycles % 2 == 1 {
        lemma_cycle_keeps_sprites(b.tick());
        b.tick().tick()
    } else {
        b.tick()
    };
    lemma_dma_copy(start, page, 0);
    lemma_advance_add(b.cycles, 1, 512);
    lemma_advance_add(b.cycles, 1, 1);
    lemma_advance_add(b.cycles, 2, 512);
    let f = start.dma_copy(page, 0);
    assert(f == b.write(OAM_DMA, page));
    assert forall|j: int| 0 <= j < 256 implies f.ppu.oam[#[trigger] landing(base, j)]
        == b.read_value(page_address(page, j)) by {
        assert(landing(start.ppu.regs.oam_addr, j - 0) == landing(base, j));
        assert(start.read_value(page_address(page, j)) == b.read_value(page_address(page, j)));
    }
}

} // verus!
