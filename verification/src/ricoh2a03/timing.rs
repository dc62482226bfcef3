//! How many cycles the processor spends on what.
use crate::bus::OAM_DMA;
use crate::dma::{advance, lemma_advance_add};
use crate::ricoh2a03::alu::crosses_page;
use crate::ricoh2a03::decode::{BranchOp, Instruction, Mode, ModifyOp, ReadOp, WriteOp};
use crate::ricoh2a03::lemmas::{
    interrupt_cycles, lemma_cycle_counter, lemma_interrupt_cycles, lemma_read_cycles,
};
use crate::ricoh2a03::model::{CpuView, InterruptType};
use vstd::prelude::*;

verus! {

/// The address that an indexed absolute operand starts from.
pub open spec fn absolute_base(c: CpuView) -> u16 {
    c.abs().1
}

/// The address that an indirect operand indexed by Y starts from.
pub open spec fn indirect_base(c: CpuView) -> u16 {
    c.zp().0.read16_d(c.zp().1, (c.zp().1.wrapping_add(1) % 0x100) as u16).1
}

/// Number of cycles that finding an operand takes, by addressing mode. For a
/// read, indexing costs its cycle only where it carries into the high byte;
/// for a write (`fixed`) it always does.
pub open spec fn operand_cycles(c: CpuView, mode: Mode, fixed: bool) -> nat {
    match mode {
        Mode::Immediate => 0,
        Mode::ZeroPage => 1,
        Mode::ZeroPageX => 2,
        Mode::ZeroPageY => 2,
        Mode::Absolute => 2,
        Mode::AbsoluteX => if fixed || crosses_page(absolute_base(c), c.regs.x as u16) {
            3
        } else {
            2
        },
        Mode::AbsoluteY => if fixed || crosses_page(absolute_base(c), c.regs.y as u16) {
            3
        } else {
            2
        },
        Mode::IndirectX => 4,
        Mode::IndirectY => if fixed || crosses_page(indirect_base(c), c.regs.y as u16) {
            4
        } else {
            3
        },
    }
}

proof fn lemma_zp_cycles(c: CpuView)
    ensures
        c.zp().0.bus.cycles == advance(c.bus.cycles, 1),
        c.zpx().0.bus.cycles == advance(c.bus.cycles, 2),
        c.zpy().0.bus.cycles == advance(c.bus.cycles, 2),
{
    lemma_cycle_counter(c.imm().0, c.imm().1, 0);
    lemma_cycle_counter(c, 0, 0);
    lemma_cycle_counter(c.tick().imm().0, c.tick().imm().1, 0);
    lemma_advance_add(c.bus.cycles, 1, 1);
}

#[verifier::rlimit(40)]
proof fn lemma_abs_cycles(c: CpuView, index: u8)
    ensures
        c.abs().0.bus.cycles == advance(c.bus.cycles, 2),
        c.abs_indexed_fixed(index).0.bus.cycles == advance(c.bus.cycles, 3),
        c.abs_indexed(index).0.bus.cycles == advance(
            c.bus.cycles,
            if crosses_page(absolute_base(c), index as u16) {
                3nat
            } else {
                2nat
            },
        ),
{
    lemma_read_cycles(c.imm16().0, c.imm16().1, 0);
    lemma_cycle_counter(c, 0, 0);
    lemma_read_cycles(c.tick().imm16().0, c.tick().imm16().1, 0);
    lemma_cycle_counter(c.abs().0, 0, 0);
    lemma_advance_add(c.bus.cycles, 1, 2);
    lemma_advance_add(c.bus.cycles, 2, 1);
}

#[verifier::rlimit(40)]
proof fn lemma_indirect_cycles(c: CpuView)
    ensures
        c.indx().0.bus.cycles == advance(c.bus.cycles, 4),
        c.indy_fixed().0.bus.cycles == advance(c.bus.cycles, 4),
        c.indy().0.bus.cycles == advance(
            c.bus.cycles,
            if crosses_page(indirect_base(c), c.regs.y as u16) {
                4nat
            } else {
                3nat
            },
        ),
{
    lemma_zp_cycles(c);
    let i = c.zpx().1;
    lemma_read_cycles(c.zpx().0, i, (i.wrapping_add(1) % 0x100) as u16);
    lemma_advance_add(c.bus.cycles, 2, 2);
    let j = c.zp().1;
    let after = c.zp().0.read16_d(j, (j.wrapping_add(1) % 0x100) as u16).0;
    lemma_read_cycles(c.zp().0, j, (j.wrapping_add(1) % 0x100) as u16);
    lemma_advance_add(c.bus.cycles, 1, 2);
    lemma_cycle_counter(after, 0, 0);
    lemma_advance_add(c.bus.cycles, 3, 1);
    lemma_cycle_counter(c, 0, 0);
    lemma_zp_cycles(c.tick());
    let k = c.tick().zp().1;
    lemma_read_cycles(c.tick().zp().0, k, (k.wrapping_add(1) % 0x100) as u16);
    lemma_advance_add(c.bus.cycles, 1, 1);
}

/// Finding an operand takes the cycles that its addressing mode says.
#[verifier::rlimit(40)]
pub proof fn lemma_operand_cycles(c: CpuView, mode: Mode, fixed: bool)
    ensures
        c.operand(mode, fixed).0.bus.cycles == advance(
            c.bus.cycles,
            operand_cycles(c, mode, fixed),
        ),
{
    match mode {
        Mode::Immediate => {
            assert(advance(c.bus.cycles, 0) == c.bus.cycles);
        },
        Mode::ZeroPage => {
            lemma_zp_cycles(c);
        },
        Mode::ZeroPageX => {
            lemma_zp_cycles(c);
        },
        Mode::ZeroPageY => {
            lemma_zp_cycles(c);
        },
        Mode::Absolute => {
            lemma_abs_cycles(c, 0);
        },
        Mode::AbsoluteX => {
            lemma_abs_cycles(c, c.regs.x);
        },
        Mode::AbsoluteY => {
            lemma_abs_cycles(c, c.regs.y);
        },
        Mode::IndirectX => {
            lemma_indirect_cycles(c);
        },
        Mode::IndirectY => {
            lemma_indirect_cycles(c);
        },
    }
}

/// An instruction that reads its operand takes one cycle more than finding
/// the operand does.
pub proof fn lemma_read_instruction_cycles(c: CpuView, op: ReadOp, mode: Mode)
    ensures
        c.read_instruction(op, mode).bus.cycles == advance(
            c.bus.cycles,
            operand_cycles(c, mode, false) + 1,
        ),
{
    lemma_operand_cycles(c, mode, false);
    let (s1, at) = c.operand(mode, false);
    lemma_cycle_counter(s1, at, 0);
    lemma_advance_add(c.bus.cycles, operand_cycles(c, mode, false), 1);
}

/// An instruction that writes one byte takes one cycle more than finding the
/// operand does, unless it writes to the DMA port.
pub proof fn lemma_write_instruction_cycles(c: CpuView, op: WriteOp, mode: Mode)
    requires
        c.operand(mode, true).1 != OAM_DMA,
    ensures
        c.write_instruction(op, mode).bus.cycles == advance(
            c.bus.cycles,
            operand_cycles(c, mode, true) + 1,
        ),
{
    lemma_operand_cycles(c, mode, true);
    let (s1, at) = c.operand(mode, true);
    lemma_cycle_counter(s1, at, s1.regs.write_op(op));
    lemma_advance_add(c.bus.cycles, operand_cycles(c, mode, true), 1);
}

/// A read-modify-write instruction takes three cycles more than finding the
/// operand does, unless it works on the DMA port.
pub proof fn lemma_modify_instruction_cycles(c: CpuView, op: ModifyOp, mode: Mode)
    requires
        c.operand(mode, true).1 != OAM_DMA,
    ensures
        c.modify_instruction(op, mode).bus.cycles == advance(
            c.bus.cycles,
            operand_cycles(c, mode, true) + 3,
        ),
{
    lemma_operand_cycles(c, mode, true);
    let (s1, at) = c.operand(mode, true);
    let (s2, value) = s1.read8(at);
    let s3 = s2.write8(at, value);
    lemma_cycle_counter(s1, at, 0);
    lemma_cycle_counter(s2, at, value);
    lemma_cycle_counter(s3, at, s2.regs.modify_result(op, value));
    let n = operand_cycles(c, mode, true);
    lemma_advance_add(c.bus.cycles, n, 1);
    lemma_advance_add(c.bus.cycles, n + 1, 1);
    lemma_advance_add(c.bus.cycles, n + 2, 1);
}

/// Number of cycles that a branch takes after its opcode was fetched: one
/// for the offset, one more when it is taken, and one more when it leaves
/// the page.
pub open spec fn branch_cycles(c: CpuView, op: BranchOp) -> nat {
    let after = c.branch(op);
    let next = c.regs.pc.wrapping_add(1);
    if !c.regs.branch_taken(op) {
        1
    } else if (next & 0xff00) != (after.regs.pc & 0xff00) {
        3
    } else {
        2
    }
}

/// A branch takes the cycles that [`branch_cycles`] says.
pub proof fn lemma_branch_cycles(c: CpuView, op: BranchOp)
    ensures
        c.branch(op).bus.cycles == advance(c.bus.cycles, branch_cycles(c, op)),
        !c.regs.branch_taken(op) ==> c.branch(op).regs.pc == c.regs.pc.wrapping_add(1),
{
    let (s1, at) = c.imm();
    let (s2, offset) = s1.read8(at);
    lemma_cycle_counter(s1, at, 0);
    lemma_cycle_counter(s2, 0, 0);
    lemma_cycle_counter(s2.tick(), 0, 0);
    lemma_advance_add(c.bus.cycles, 1, 1);
    lemma_advance_add(c.bus.cycles, 2, 1);
}

/// Number of cycles of the instructions whose timing depends on nothing.
pub open spec fn fixed_cycles(instruction: Instruction) -> nat {
    match instruction {
        Instruction::Accumulator(_) => 1,
        Instruction::Implied(_) => 1,
        Instruction::Brk => 6,
        Instruction::Jmp => 2,
        Instruction::JmpIndirect => 4,
        Instruction::Jsr => 5,
        Instruction::Rts => 5,
        Instruction::Rti => 5,
        Instruction::Pha => 2,
        Instruction::Php => 2,
        Instruction::Pla => 3,
        Instruction::Plp => 3,
        _ => 0,
    }
}

/// The jumps, the stack instructions and the instructions on registers take
/// a fixed number of cycles: with the fetch of the opcode, 2 for the
/// instructions on registers, 3 for a jump and for a push, 4 for a pull, 5
/// for an indirect jump, 6 for a call and for either return, 7 for BRK.
pub proof fn lemma_fixed_cycles(c: CpuView, instruction: Instruction)
    requires
        match instruction {
            Instruction::Read(_, _) => false,
            Instruction::Write(_, _) => false,
            Instruction::Modify(_, _) => false,
            Instruction::Branch(_) => false,
            _ => true,
        },
    ensures
        c.execute(instruction).bus.cycles == advance(c.bus.cycles, fixed_cycles(instruction)),
{
    assert(advance(c.bus.cycles, 0) == c.bus.cycles);
    match instruction {
        Instruction::Accumulator(_) => {
            lemma_cycle_counter(c, 0, 0);
        },
        Instruction::Implied(_) => {
            lemma_cycle_counter(c, 0, 0);
        },
        Instruction::Brk => {
            lemma_interrupt_cycles(c, InterruptType::BRK);
        },
        Instruction::Jmp => {
            lemma_read_cycles(c.imm().0, c.imm().1, 0);
        },
        Instruction::JmpIndirect => {
            lemma_jmp_indirect_cycles(c);
        },
        Instruction::Jsr => {
            lemma_jsr_cycles(c);
        },
        Instruction::Rts => {
            lemma_return_cycles(c);
        },
        Instruction::Rti => {
            lemma_return_cycles(c);
        },
        Instruction::Pha => {
            lemma_cycle_counter(c, 0, 0);
            lemma_cycle_counter(c.tick(), 0, c.regs.a);
            lemma_advance_add(c.bus.cycles, 1, 1);
        },
        Instruction::Php => {
            lemma_cycle_counter(c, 0, 0);
            lemma_cycle_counter(c.tick(), 0, c.regs.p.bits() | crate::ricoh2a03::model::BREAK_BIT);
            lemma_advance_add(c.bus.cycles, 1, 1);
        },
        Instruction::Pla => {
            lemma_pull_cycles(c);
        },
        Instruction::Plp => {
            lemma_pull_cycles(c);
        },
        _ => {},
    }
}

proof fn lemma_pull_cycles(c: CpuView)
    ensures
        c.pla().bus.cycles == advance(c.bus.cycles, 3),
        c.plp().bus.cycles == advance(c.bus.cycles, 3),
{
    lemma_cycle_counter(c, 0, 0);
    lemma_cycle_counter(c.tick(), 0, 0);
    lemma_cycle_counter(c.tick().tick(), 0, 0);
    lemma_advance_add(c.bus.cycles, 1, 1);
    lemma_advance_add(c.bus.cycles, 2, 1);
}

proof fn lemma_jmp_indirect_cycles(c: CpuView)
    ensures
        c.jmp_indirect().bus.cycles == advance(c.bus.cycles, 4),
{
    let (s1, at) = c.imm();
    let (s2, pointer) = s1.read16(at);
    lemma_read_cycles(s1, at, 0);
    lemma_read_cycles(s2, pointer, (pointer & 0xff00) | (pointer.wrapping_add(1) & 0xff));
    lemma_advance_add(c.bus.cycles, 2, 2);
}

proof fn lemma_pop16_cycles(c: CpuView)
    ensures
        c.pop16().0.bus.cycles == advance(c.bus.cycles, 2),
        c.push16(0).bus.cycles == advance(c.bus.cycles, 2),
        forall|value: u16| #[trigger] c.push16(value).bus.cycles == advance(c.bus.cycles, 2),
{
    lemma_cycle_counter(c, 0, 0);
    lemma_cycle_counter(c.pop8().0, 0, 0);
    lemma_advance_add(c.bus.cycles, 1, 1);
    assert forall|value: u16| #[trigger]
        c.push16(value).bus.cycles == advance(c.bus.cycles, 2) by {
        let hi = #[verifier::truncate] ((value >> 8) as u8);
        let lo = #[verifier::truncate] ((value & 0xff) as u8);
        lemma_cycle_counter(c, 0, hi);
        lemma_cycle_counter(c.push8(hi), 0, lo);
    }
}

proof fn lemma_jsr_cycles(c: CpuView)
    ensures
        c.jsr().bus.cycles == advance(c.bus.cycles, 5),
{
    lemma_cycle_counter(c, 0, 0);
    lemma_pop16_cycles(c.tick());
    let s1 = c.tick().push16(c.regs.pc.wrapping_add(1));
    lemma_read_cycles(s1.imm().0, s1.imm().1, 0);
    lemma_advance_add(c.bus.cycles, 1, 2);
    lemma_advance_add(c.bus.cycles, 3, 2);
}

#[verifier::rlimit(40)]
proof fn lemma_return_cycles(c: CpuView)
    ensures
        c.rts().bus.cycles == advance(c.bus.cycles, 5),
        c.rti().bus.cycles == advance(c.bus.cycles, 5),
{
    let (s1, at) = c.imm();
    let s2 = s1.read8(at).0;
    let s3 = s2.tick();
    lemma_cycle_counter(s1, at, 0);
    lemma_cycle_counter(s2, 0, 0);
    lemma_advance_add(c.bus.cycles, 1, 1);
    lemma_pop16_cycles(s3);
    lemma_advance_add(c.bus.cycles, 2, 2);
    lemma_cycle_counter(s3.pop16().0.with_pc(s3.pop16().1.wrapping_add(1)), 0, 0);
    lemma_advance_add(c.bus.cycles, 4, 1);
    lemma_cycle_counter(s3, 0, 0);
    let (s4, status) = s3.pop8();
    let s5 = s4.with_regs(
        crate::ricoh2a03::alu::Registers {
            p: crate::ricoh2a03::status::Status::from_bits(status),
            ..s4.regs
        },
    );
    lemma_pop16_cycles(s5);
    lemma_advance_add(c.bus.cycles, 2, 1);
    lemma_advance_add(c.bus.cycles, 3, 2);
}

/// An interrupt of any kind but BRK takes seven cycles.
pub proof fn lemma_interrupt_takes_seven(c: CpuView, t: InterruptType)
    requires
        t != InterruptType::BRK,
    ensures
        c.interrupt(t).bus.cycles == advance(c.bus.cycles, 7),
        interrupt_cycles(t) == 7,
{
    lemma_interrupt_cycles(c, t);
}

} // verus!
