//! What holds of the processor's view of memory.
use crate::bus::OAM_DMA;
use crate::dma::{
    advance, dma_cycles, landing, lemma_advance_add, lemma_cycle_keeps_sprites,
    lemma_dma_copies_page, page_address, plain_page,
};
use crate::ricoh2a03::decode::{instruction_of, Instruction};
use crate::ricoh2a03::model::{CpuView, InterruptType};
use vstd::prelude::*;

verus! {

/// The work RAM shows four times below 0x2000: a byte written at one address
/// is read back there and at every address that differs from it by a
/// multiple of 0x800.
pub proof fn lemma_ram_write_then_read(c: CpuView, written: u16, value: u8, read: u16)
    requires
        c.wf(),
        written < 0x2000,
        read < 0x2000,
        written % 0x800 == read % 0x800,
    ensures
        c.write8(written, value).read8(read).1 == value,
{
}

/// A write to the work RAM changes no other byte of it.
pub proof fn lemma_ram_write_elsewhere(c: CpuView, written: u16, value: u8, read: u16)
    requires
        c.wf(),
        written < 0x2000,
        read < 0x2000,
        written % 0x800 != read % 0x800,
    ensures
        c.write8(written, value).read8(read).1 == c.read8(read).1,
{
}

proof fn lemma_push_pop_ram(c: CpuView, value: u8)
    requires
        c.bus.ram.len() == 0x800,
    ensures
        c.push8(value).pop8().1 == value,
        c.push8(value).pop8().0.regs == c.regs,
{
}

/// What was pushed last is popped first, and the stack pointer is back where
/// it was.
pub proof fn lemma_push_then_pop(c: CpuView, value: u8)
    requires
        c.wf(),
    ensures
        c.push8(value).pop8().1 == value,
        c.push8(value).pop8().0.regs == c.regs,
{
    lemma_push_pop_ram(c, value);
}

/// The same for a word.
pub proof fn lemma_push16_then_pop16(c: CpuView, value: u16)
    requires
        c.wf(),
    ensures
        c.push16(value).pop16().1 == value,
        c.push16(value).pop16().0.regs == c.regs,
{
    let hi = #[verifier::truncate] ((value >> 8) as u8);
    let lo = #[verifier::truncate] ((value & 0xff) as u8);
    assert(((value & 0xff) as u8 as u16) | (((value >> 8) as u8 as u16) << 8) == value)
        by (bit_vector);
    let s1 = c.push8(hi);
    lemma_push_keeps_wf(c, hi);
    lemma_push_pop_ram(s1, lo);
    lemma_pop_after_pop(c, hi, lo);
}

proof fn lemma_push_keeps_wf(c: CpuView, value: u8)
    requires
        c.bus.ram.len() == 0x800,
    ensures
        c.push8(value).bus.ram.len() == 0x800,
        c.push8(value).bus.ram[(0x100 + c.regs.s) as int] == value,
        c.push8(value).regs == (crate::ricoh2a03::alu::Registers {
            s: c.regs.s.wrapping_sub(1),
            ..c.regs
        }),
{
}

#[verifier::rlimit(40)]
proof fn lemma_pop_after_pop(c: CpuView, hi: u8, lo: u8)
    requires
        c.bus.ram.len() == 0x800,
    ensures
        c.push8(hi).push8(lo).pop8().0.pop8().1 == hi,
        c.push8(hi).push8(lo).pop8().0.pop8().0.regs == c.regs,
{
    let s1 = c.push8(hi);
    lemma_push_keeps_wf(c, hi);
    let s2 = s1.push8(lo);
    lemma_push_keeps_wf(s1, lo);
    let s3 = s2.pop8().0;
    assert(s3.regs == s1.regs);
    assert(s3.bus.ram == s2.bus.ram);
    assert(s2.bus.ram[(0x100 + c.regs.s) as int] == hi);
}

/// A cycle moves the cycle counter by one; reads and writes by themselves do
/// not move it, but for the cycles that a sprite DMA takes.
#[verifier::rlimit(40)]
pub proof fn lemma_cycle_counter(c: CpuView, address: u16, value: u8)
    ensures
        c.tick().bus.cycles == advance(c.bus.cycles, 1),
        c.read8(address).0.bus.cycles == advance(c.bus.cycles, 1),
        address != OAM_DMA ==> c.write8(address, value).bus.cycles == advance(
            c.bus.cycles,
            1,
        ),
        c.push8(value).bus.cycles == advance(c.bus.cycles, 1),
        c.pop8().0.bus.cycles == advance(c.bus.cycles, 1),
{
}

/// A write to the DMA port of the number of a page of the work RAM or of
/// the cartridge stalls the processor for the 513 or 514 cycles of the
/// transfer after the cycle of the write itself, changes no register of the
/// processor, and leaves the page in the sprite memory.
#[verifier::rlimit(40)]
pub proof fn lemma_dma_stalls_processor(c: CpuView, page: u8)
    requires
        c.wf(),
        plain_page(page),
    ensures
        c.write8(OAM_DMA, page).bus.cycles == advance(
            c.bus.cycles,
            1 + dma_cycles(c.bus.tick()),
        ),
        c.write8(OAM_DMA, page).regs == c.regs,
        forall|j: int|
            0 <= j < 256 ==> c.write8(OAM_DMA, page).bus.ppu.oam[#[trigger] landing(
                c.bus.ppu.regs.oam_addr,
                j,
            )] == c.bus.read_value(page_address(page, j)),
{
    let b = c.bus.tick();
    lemma_cycle_keeps_sprites(c.bus);
    lemma_dma_copies_page(b, page);
    lemma_advance_add(c.bus.cycles, 1, dma_cycles(b));
    assert forall|j: int| 0 <= j < 256 implies c.write8(OAM_DMA, page).bus.ppu.oam[#[trigger] landing(
        c.bus.ppu.regs.oam_addr,
        j,
    )] == c.bus.read_value(page_address(page, j)) by {
        assert(landing(b.ppu.regs.oam_addr, j) == landing(c.bus.ppu.regs.oam_addr, j));
        assert(b.read_value(page_address(page, j)) == c.bus.read_value(page_address(page, j)));
    }
}

/// An opcode that is not implemented costs the cycle of its fetch, moves the
/// program counter past it and changes nothing else in the processor.
pub proof fn lemma_illegal_opcode(c: CpuView)
    requires
        instruction_of(c.next_opcode()) == Instruction::Illegal,
    ensures
        c.step() == c.imm().0.read8(c.regs.pc).0,
        c.step().regs == (crate::ricoh2a03::alu::Registers {
            pc: c.regs.pc.wrapping_add(1),
            ..c.regs
        }),
        c.step().bus == c.bus.tick().read(c.regs.pc),
{
    let fetched = c.imm().0.read8(c.regs.pc).0;
    assert(fetched.execute(Instruction::Illegal) == fetched);
}

/// Two reads take two cycles.
pub proof fn lemma_read_cycles(c: CpuView, first: u16, second: u16)
    ensures
        c.read8(first).0.read8(second).0.bus.cycles == advance(c.bus.cycles, 2),
        c.read16_d(first, second).0.bus.cycles == advance(c.bus.cycles, 2),
        c.read16(first).0.bus.cycles == advance(c.bus.cycles, 2),
{
    lemma_cycle_counter(c, first, 0);
    lemma_cycle_counter(c.read8(first).0, second, 0);
    lemma_cycle_counter(c.read8(first).0, first.wrapping_add(1), 0);
    lemma_advance_add(c.bus.cycles, 1, 1);
}

/// Number of cycles that an interrupt sequence spends: seven, of which for
/// BRK the first was the fetch of its opcode.
pub open spec fn interrupt_cycles(t: InterruptType) -> nat {
    if t == InterruptType::BRK {
        6
    } else {
        7
    }
}

proof fn lemma_interrupt_entry_cycles(c: CpuView, t: InterruptType)
    ensures
        c.interrupt_entry(t).bus.cycles == advance(
            c.bus.cycles,
            (interrupt_cycles(t) - 5) as nat,
        ),
{
    if t == InterruptType::BRK {
        lemma_cycle_counter(c.imm().0, c.imm().1, 0);
    } else {
        lemma_read_cycles(c, c.regs.pc, c.regs.pc);
    }
}

#[verifier::rlimit(40)]
proof fn lemma_interrupt_save_cycles(c: CpuView, t: InterruptType)
    ensures
        c.interrupt_save(t).bus.cycles == advance(c.bus.cycles, 3),
{
    if t == InterruptType::RESET {
        let a = c.with_regs(
            crate::ricoh2a03::alu::Registers { s: c.regs.s.wrapping_sub(3), ..c.regs },
        );
        lemma_cycle_counter(a, 0, 0);
        lemma_cycle_counter(a.tick(), 0, 0);
        lemma_cycle_counter(a.tick().tick(), 0, 0);
    } else {
        let hi = #[verifier::truncate] ((c.regs.pc >> 8) as u8);
        let lo = #[verifier::truncate] ((c.regs.pc & 0xff) as u8);
        let status = if t == InterruptType::BRK {
            c.regs.p.bits() | crate::ricoh2a03::model::BREAK_BIT
        } else {
            c.regs.p.bits()
        };
        lemma_cycle_counter(c, 0, hi);
        lemma_cycle_counter(c.push8(hi), 0, lo);
        lemma_cycle_counter(c.push8(hi).push8(lo), 0, status);
    }
    lemma_advance_add(c.bus.cycles, 1, 1);
    lemma_advance_add(c.bus.cycles, 2, 1);
}

proof fn lemma_interrupt_jump_cycles(c: CpuView, t: InterruptType)
    ensures
        c.interrupt_jump(t).bus.cycles == advance(c.bus.cycles, 2),
{
    let s = c.with_regs(
        crate::ricoh2a03::alu::Registers {
            p: crate::ricoh2a03::status::Status { interrupt: true, ..c.regs.p },
            ..c.regs
        },
    );
    lemma_read_cycles(s, t.vector(), 0);
}

/// An interrupt sequence takes seven cycles, whatever its kind; for BRK the
/// first of them is the fetch of its opcode.
pub proof fn lemma_interrupt_cycles(c: CpuView, t: InterruptType)
    ensures
        c.interrupt(t).bus.cycles == advance(c.bus.cycles, interrupt_cycles(t)),
{
    let s1 = c.interrupt_entry(t);
    let s2 = s1.interrupt_save(t);
    lemma_interrupt_entry_cycles(c, t);
    lemma_interrupt_save_cycles(s1, t);
    lemma_interrupt_jump_cycles(s2, t);
    lemma_advance_add(c.bus.cycles, (interrupt_cycles(t) - 5) as nat, 3);
    lemma_advance_add(c.bus.cycles, (interrupt_cycles(t) - 2) as nat, 2);
}

/// The entry into an interrupt leaves the stack pointer three lower and
/// interrupts disabled, whatever the kind.
pub proof fn lemma_interrupt_registers(c: CpuView, t: InterruptType)
    ensures
        c.interrupt(t).regs.s == c.regs.s.wrapping_sub(3),
        c.interrupt(t).regs.p.interrupt,
        c.interrupt(t).regs.a == c.regs.a,
        c.interrupt(t).regs.x == c.regs.x,
        c.interrupt(t).regs.y == c.regs.y,
        c.interrupt(t).strict == c.strict,
{
}

} // verus!
