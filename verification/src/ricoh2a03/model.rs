//! The processor as a mathematical state, and each of its operations as a
//! function from state to state. Every access to the bus costs one cycle,
//! spent before the access.
use crate::bus::BusView;
use crate::ricoh2a03::alu::{crosses_page, sign_extend, Registers};
use crate::ricoh2a03::decode::{
    instruction_of, BranchOp, ImpliedOp, Instruction, Mode, ModifyOp, ReadOp, WriteOp,
};
use crate::ricoh2a03::status::Status;
use crate::rom::NesError;
use vstd::prelude::*;

verus! {

/// Where the address of the handler of the non-maskable interrupt lies.
pub const NMI_VECTOR: u16 = 0xfffa;

/// Where the address lies at which a reset starts the program.
pub const RESET_VECTOR: u16 = 0xfffc;

/// Where the address of the handler of IRQ and BRK lies.
pub const IRQ_VECTOR: u16 = 0xfffe;

/// The page that holds the stack.
pub const STACK_PAGE: u16 = 0x0100;

/// The bit that a pushed status byte carries when an instruction pushed it.
pub const BREAK_BIT: u8 = 0x10;

/// What starts an interrupt sequence.
#[derive(Clone, Copy, Debug, PartialEq, Eq, Structural)]
pub enum InterruptType {
    NMI,
    RESET,
    IRQ,
    BRK,
}

impl InterruptType {
    /// Where the address of the handler is read from.
    pub open spec fn vector(self) -> u16 {
        match self {
            InterruptType::NMI => NMI_VECTOR,
            InterruptType::RESET => RESET_VECTOR,
            InterruptType::IRQ => IRQ_VECTOR,
            InterruptType::BRK => IRQ_VECTOR,
        }
    }
}

/// The mathematical content of a processor and of the console around it.
pub struct CpuView {
    pub regs: Registers,
    pub bus: BusView,
    /// Whether an opcode that is not implemented stops the run.
    pub strict: bool,
}

/// The sixteen-bit value with the given low and high byte.
pub open spec fn word(lo: u8, hi: u8) -> u16 {
    (lo as u16) | ((hi as u16) << 8)
}

impl CpuView {
    pub open spec fn wf(self) -> bool {
        self.bus.wf()
    }

    pub open spec fn init(bus: BusView) -> CpuView {
        CpuView { regs: Registers::init(), bus, strict: false }
    }

    pub open spec fn with_regs(self, regs: Registers) -> CpuView {
        CpuView { regs, ..self }
    }

    pub open spec fn with_pc(self, pc: u16) -> CpuView {
        CpuView { regs: Registers { pc, ..self.regs }, ..self }
    }

    pub open spec fn with_bus(self, bus: BusView) -> CpuView {
        CpuView { bus, ..self }
    }

    // ----- the bus -----

    /// One cycle without an access.
    pub open spec fn tick(self) -> CpuView {
        CpuView { bus: self.bus.tick(), ..self }
    }

    /// One cycle, then a read.
    pub open spec fn read8(self, address: u16) -> (CpuView, u8) {
        let bus = self.bus.tick();
        (CpuView { bus: bus.read(address), ..self }, bus.read_value(address))
    }

    /// One cycle, then a write.
    pub open spec fn write8(self, address: u16, value: u8) -> CpuView {
        CpuView { bus: self.bus.tick().write(address, value), ..self }
    }

    /// Two reads that give the low and the high byte of a word.
    pub open spec fn read16_d(self, address1: u16, address2: u16) -> (CpuView, u16) {
        let (s1, lo) = self.read8(address1);
        let (s2, hi) = s1.read8(address2);
        (s2, word(lo, hi))
    }

    pub open spec fn read16(self, address: u16) -> (CpuView, u16) {
        self.read16_d(address, address.wrapping_add(1))
    }

    // ----- the stack -----

    pub open spec fn push8(self, value: u8) -> CpuView {
        let s1 = self.write8((STACK_PAGE + self.regs.s) as u16, value);
        s1.with_regs(Registers { s: self.regs.s.wrapping_sub(1), ..s1.regs })
    }

    pub open spec fn push16(self, value: u16) -> CpuView {
        self.push8((value >> 8) as u8).push8((value & 0xff) as u8)
    }

    pub open spec fn pop8(self) -> (CpuView, u8) {
        let s = self.regs.s.wrapping_add(1);
        self.with_regs(Registers { s, ..self.regs }).read8((STACK_PAGE + s) as u16)
    }

    pub open spec fn pop16(self) -> (CpuView, u16) {
        let (s1, lo) = self.pop8();
        let (s2, hi) = s1.pop8();
        (s2, word(lo, hi))
    }

    // ----- addressing -----

    /// The operand is the byte at the program counter, which moves past it.
    pub open spec fn imm(self) -> (CpuView, u16) {
        (self.with_pc(self.regs.pc.wrapping_add(1)), self.regs.pc)
    }

    pub open spec fn imm16(self) -> (CpuView, u16) {
        (self.with_pc(self.regs.pc.wrapping_add(2)), self.regs.pc)
    }

    /// The operand is in page zero, at the byte that follows the opcode.
    pub open spec fn zp(self) -> (CpuView, u16) {
        let (s1, at) = self.imm();
        let (s2, low) = s1.read8(at);
        (s2, low as u16)
    }

    /// Page zero, indexed by X within the page; the addition takes a cycle.
    pub open spec fn zpx(self) -> (CpuView, u16) {
        let (s1, base) = self.tick().zp();
        (s1, (base.wrapping_add(self.regs.x as u16) % 0x100) as u16)
    }

    pub open spec fn zpy(self) -> (CpuView, u16) {
        let (s1, base) = self.tick().zp();
        (s1, (base.wrapping_add(self.regs.y as u16) % 0x100) as u16)
    }

    /// The operand is at the address that follows the opcode.
    pub open spec fn abs(self) -> (CpuView, u16) {
        let (s1, at) = self.imm16();
        s1.read16(at)
    }

    /// Absolute plus an index, for a read: a cycle more only where the
    /// index carries into the high byte.
    pub open spec fn abs_indexed(self, index: u8) -> (CpuView, u16) {
        let (s1, base) = self.abs();
        let s2 = if crosses_page(base, index as u16) { s1.tick() } else { s1 };
        (s2, base.wrapping_add(index as u16))
    }

    /// Absolute plus an index, for a write: always a cycle more.
    pub open spec fn abs_indexed_fixed(self, index: u8) -> (CpuView, u16) {
        let (s1, base) = self.tick().abs();
        (s1, base.wrapping_add(index as u16))
    }

    /// The operand is at the address held in page zero at the operand byte
    /// plus X.
    pub open spec fn indx(self) -> (CpuView, u16) {
        let (s1, i) = self.zpx();
        s1.read16_d(i, (i.wrapping_add(1) % 0x100) as u16)
    }

    /// The operand is at the address held in page zero at the operand byte,
    /// plus Y; for a read, a cycle more only where Y carries into the high
    /// byte.
    pub open spec fn indy(self) -> (CpuView, u16) {
        let (s1, i) = self.zp();
        let (s2, base) = s1.read16_d(i, (i.wrapping_add(1) % 0x100) as u16);
        let s3 = if crosses_page(base, self.regs.y as u16) { s2.tick() } else { s2 };
        (s3, base.wrapping_add(self.regs.y as u16))
    }

    /// The same for a write: always a cycle more.
    pub open spec fn indy_fixed(self) -> (CpuView, u16) {
        let (s1, i) = self.tick().zp();
        let (s2, base) = s1.read16_d(i, (i.wrapping_add(1) % 0x100) as u16);
        (s2, base.wrapping_add(self.regs.y as u16))
    }

    /// The state after the operand's address was worked out, and the address.
    /// `fixed` says that the instruction writes, so that indexing always
    /// takes its extra cycle.
    pub open spec fn operand(self, mode: Mode, fixed: bool) -> (CpuView, u16) {
        match mode {
            Mode::Immediate => self.imm(),
            Mode::ZeroPage => self.zp(),
            Mode::ZeroPageX => self.zpx(),
            Mode::ZeroPageY => self.zpy(),
            Mode::Absolute => self.abs(),
            Mode::AbsoluteX => if fixed {
                self.abs_indexed_fixed(self.regs.x)
            } else {
                self.abs_indexed(self.regs.x)
            },
            Mode::AbsoluteY => if fixed {
                self.abs_indexed_fixed(self.regs.y)
            } else {
                self.abs_indexed(self.regs.y)
            },
            Mode::IndirectX => self.indx(),
            Mode::IndirectY => if fixed {
                self.indy_fixed()
            } else {
                self.indy()
            },
        }
    }

    /// The state after the operand was found and read, and the operand.
    pub open spec fn load(self, mode: Mode) -> (CpuView, u8) {
        let (s1, at) = self.operand(mode, false);
        s1.read8(at)
    }

    /// The state after the operand was found and `value` written to it.
    pub open spec fn store(self, mode: Mode, value: u8) -> CpuView {
        let (s1, at) = self.operand(mode, true);
        s1.write8(at, value)
    }

    // ----- interrupts -----

    /// The first two cycles of an interrupt sequence: two reads at the
    /// program counter. For BRK the first of them was the fetch of its
    /// opcode, and the second steps over the byte behind it.
    pub open spec fn interrupt_entry(self, t: InterruptType) -> CpuView {
        if t == InterruptType::BRK {
            self.imm().0.read8(self.imm().1).0
        } else {
            self.read8(self.regs.pc).0.read8(self.regs.pc).0
        }
    }

    /// The next three cycles: program counter and status are pushed, the
    /// status with the break bit for BRK only. A reset pushes nothing and
    /// merely lowers the stack pointer by three.
    pub open spec fn interrupt_save(self, t: InterruptType) -> CpuView {
        if t == InterruptType::RESET {
            self.with_regs(
                Registers { s: self.regs.s.wrapping_sub(3), ..self.regs },
            ).tick().tick().tick()
        } else {
            self.push16(self.regs.pc).push8(
                if t == InterruptType::BRK {
                    self.regs.p.bits() | BREAK_BIT
                } else {
                    self.regs.p.bits()
                },
            )
        }
    }

    /// The last two cycles: interrupts are disabled and the program counter
    /// is read from the vector.
    pub open spec fn interrupt_jump(self, t: InterruptType) -> CpuView {
        let s1 = self.with_regs(Registers { p: Status { interrupt: true, ..self.regs.p }, ..self.regs });
        let (s2, pc) = s1.read16(t.vector());
        s2.with_pc(pc)
    }

    /// The state after the seven cycles of an interrupt sequence.
    pub open spec fn interrupt(self, t: InterruptType) -> CpuView {
        self.interrupt_entry(t).interrupt_save(t).interrupt_jump(t)
    }

    // ----- instructions -----

    /// A branch: the offset is read; a branch that is taken costs a cycle,
    /// and one more where the target lies in another page.
    pub open spec fn branch(self, op: BranchOp) -> CpuView {
        let (s1, at) = self.imm();
        let (s2, offset) = s1.read8(at);
        let target = s2.regs.pc.wrapping_add(sign_extend(offset));
        if !s2.regs.branch_taken(op) {
            s2
        } else if (s2.regs.pc & 0xff00) != (target & 0xff00) {
            s2.tick().tick().with_pc(target)
        } else {
            s2.tick().with_pc(target)
        }
    }

    pub open spec fn jmp(self) -> CpuView {
        let (s1, at) = self.imm();
        let (s2, target) = s1.read16(at);
        s2.with_pc(target)
    }

    /// The indirect jump reads the high byte of its target from the same
    /// page as the low byte.
    pub open spec fn jmp_indirect(self) -> CpuView {
        let (s1, at) = self.imm();
        let (s2, pointer) = s1.read16(at);
        let (s3, target) = s2.read16_d(
            pointer,
            (pointer & 0xff00) | (pointer.wrapping_add(1) & 0xff),
        );
        s3.with_pc(target)
    }

    /// Pushes the address of its own last byte and jumps.
    pub open spec fn jsr(self) -> CpuView {
        let s1 = self.tick().push16(self.regs.pc.wrapping_add(1));
        let (s2, at) = s1.imm();
        let (s3, target) = s2.read16(at);
        s3.with_pc(target)
    }

    /// Returns to the byte behind the address on the stack.
    pub open spec fn rts(self) -> CpuView {
        let (s1, at) = self.imm();
        let s2 = s1.read8(at).0.tick();
        let (s3, target) = s2.pop16();
        s3.with_pc(target.wrapping_add(1)).tick()
    }

    pub open spec fn rti(self) -> CpuView {
        let (s1, at) = self.imm();
        let s2 = s1.read8(at).0.tick();
        let (s3, status) = s2.pop8();
        let (s4, target) = s3.with_regs(
            Registers { p: Status::from_bits(status), ..s3.regs },
        ).pop16();
        s4.with_pc(target)
    }

    pub open spec fn pha(self) -> CpuView {
        self.tick().push8(self.regs.a)
    }

    pub open spec fn php(self) -> CpuView {
        self.tick().push8(self.regs.p.bits() | BREAK_BIT)
    }

    pub open spec fn pla(self) -> CpuView {
        let (s1, a) = self.tick().tick().pop8();
        s1.with_regs(Registers { a, ..s1.regs }.with_nz(a))
    }

    pub open spec fn plp(self) -> CpuView {
        let (s1, status) = self.tick().tick().pop8();
        s1.with_regs(Registers { p: Status::from_bits(status), ..s1.regs })
    }

    /// An instruction that reads its operand.
    pub open spec fn read_instruction(self, op: ReadOp, mode: Mode) -> CpuView {
        let (s1, at) = self.operand(mode, false);
        let (s2, value) = s1.read8(at);
        s2.with_regs(s2.regs.read_op(op, value))
    }

    /// An instruction that writes one byte.
    pub open spec fn write_instruction(self, op: WriteOp, mode: Mode) -> CpuView {
        let (s1, at) = self.operand(mode, true);
        s1.write8(at, s1.regs.write_op(op))
    }

    /// A read-modify-write instruction: it reads the byte, writes it back
    /// unchanged, then writes the new value.
    pub open spec fn modify_instruction(self, op: ModifyOp, mode: Mode) -> CpuView {
        let (s1, at) = self.operand(mode, true);
        let (s2, value) = s1.read8(at);
        let s3 = s2.write8(at, value).write8(at, s2.regs.modify_result(op, value));
        s3.with_regs(s3.regs.modify_op(op, value))
    }

    /// A shift or rotation of the accumulator: one cycle.
    pub open spec fn accumulator_instruction(self, op: ModifyOp) -> CpuView {
        self.tick().with_regs(self.regs.accumulator_op(op))
    }

    /// An instruction on the registers alone: one cycle.
    pub open spec fn implied_instruction(self, op: ImpliedOp) -> CpuView {
        self.tick().with_regs(self.regs.implied_op(op))
    }

    /// The state after an instruction whose opcode has been fetched. An
    /// opcode that is not implemented does nothing.
    pub open spec fn execute(self, instruction: Instruction) -> CpuView {
        match instruction {
            Instruction::Read(op, mode) => self.read_instruction(op, mode),
            Instruction::Write(op, mode) => self.write_instruction(op, mode),
            Instruction::Modify(op, mode) => self.modify_instruction(op, mode),
            Instruction::Accumulator(op) => self.accumulator_instruction(op),
            Instruction::Implied(op) => self.implied_instruction(op),
            Instruction::Branch(op) => self.branch(op),
            Instruction::Brk => self.interrupt(InterruptType::BRK),
            Instruction::Jmp => self.jmp(),
            Instruction::JmpIndirect => self.jmp_indirect(),
            Instruction::Jsr => self.jsr(),
            Instruction::Rts => self.rts(),
            Instruction::Rti => self.rti(),
            Instruction::Pha => self.pha(),
            Instruction::Php => self.php(),
            Instruction::Pla => self.pla(),
            Instruction::Plp => self.plp(),
            Instruction::Illegal => self,
        }
    }

    /// The opcode that the next step fetches.
    pub open spec fn next_opcode(self) -> u8 {
        self.imm().0.read8(self.regs.pc).1
    }

    /// The state after one whole instruction.
    pub open spec fn step(self) -> CpuView {
        self.imm().0.read8(self.regs.pc).0.execute(instruction_of(self.next_opcode()))
    }

    /// What a step reports: an opcode that is not implemented is an error in
    /// strict mode, and passes as a one-cycle no-op otherwise.
    pub open spec fn step_result(self) -> Result<(), NesError> {
        if self.strict && instruction_of(self.next_opcode()) == Instruction::Illegal {
            Err(NesError::IllegalOpcode(self.next_opcode()))
        } else {
            Ok(())
        }
    }

    /// Whether the picture unit has raised an interrupt that was not taken.
    pub open spec fn nmi_pending(self) -> bool {
        self.bus.ppu.regs.should_nmi
    }

    /// Whether a completed frame waits to be fetched.
    pub open spec fn frame_ready(self) -> bool {
        self.bus.ppu.regs.redraw
    }

    /// The state at the boundary between two instructions, after a pending
    /// interrupt was served. Only the picture unit raises one.
    pub open spec fn serve(self) -> CpuView {
        if self.nmi_pending() {
            self.with_bus(self.bus.take_nmi()).interrupt(InterruptType::NMI)
        } else {
            self
        }
    }

    /// The state after one turn of the console: a pending interrupt is
    /// served, one instruction runs, and a frame that is ready is handed out.
    pub open spec fn turn(self) -> CpuView {
        let after = self.serve().step();
        after.with_bus(after.bus.take_redraw())
    }
}

} // verus!
