//! The instructions and the interrupt sequence.
use crate::ricoh2a03::decode::{
    decode, BranchOp, ImpliedOp, Instruction, Mode, ModifyOp, ReadOp, WriteOp,
};
use crate::ricoh2a03::model::{
    InterruptType, BREAK_BIT, IRQ_VECTOR, NMI_VECTOR, RESET_VECTOR,
};
use crate::ricoh2a03::Ricoh2A03;
use crate::rom::NesError;
use vstd::prelude::*;

verus! {

impl Ricoh2A03 {
    /// Runs the reset sequence: seven cycles, at the end of which the program
    /// counter holds the reset vector.
    pub fn reset(&mut self)
        requires
            old(self).wf(),
        ensures
            final(self).wf(),
            final(self)@ == old(self)@.interrupt(InterruptType::RESET),
    {
        self.interrupt(InterruptType::RESET);
    }

    fn interrupt_entry(&mut self, t: InterruptType)
        requires
            old(self).wf(),
        ensures
            final(self).wf(),
            final(self)@ == old(self)@.interrupt_entry(t),
    {
        match t {
            InterruptType::BRK => {
                let at = self.imm();
                self.read8(at);
            },
            _ => {
                let at = self.regs.pc;
                self.read8(at);
                self.read8(at);
            },
        }
    }

    #[verifier::rlimit(40)]
    fn interrupt_save(&mut self, t: InterruptType)
        requires
            old(self).wf(),
        ensures
            final(self).wf(),
            final(self)@ == old(self)@.interrupt_save(t),
    {
        match t {
            InterruptType::RESET => {
                self.regs.s = self.regs.s.wrapping_sub(3);
                self.tick();
                self.tick();
                self.tick();
            },
            InterruptType::BRK => {
                let pc = self.regs.pc;
                let status = self.regs.p.read() | BREAK_BIT;
                self.push16(pc);
                self.push8(status);
            },
            _ => {
                let pc = self.regs.pc;
                let status = self.regs.p.read();
                self.push16(pc);
                self.push8(status);
            },
        }
    }

    fn interrupt_jump(&mut self, t: InterruptType)
        requires
            old(self).wf(),
        ensures
            final(self).wf(),
            final(self)@ == old(self)@.interrupt_jump(t),
    {
        self.regs.p.interrupt = true;
        let vector = match t {
            InterruptType::NMI => NMI_VECTOR,
            InterruptType::RESET => RESET_VECTOR,
            InterruptType::IRQ => IRQ_VECTOR,
            InterruptType::BRK => IRQ_VECTOR,
        };
        let pc = self.read16(vector);
        self.regs.pc = pc;
    }

    /// Runs an interrupt sequence.
    #[verifier::rlimit(40)]
    pub fn interrupt(&mut self, t: InterruptType)
        requires
            old(self).wf(),
        ensures
            final(self).wf(),
            final(self)@ == old(self)@.interrupt(t),
    {
        self.interrupt_entry(t);
        self.interrupt_save(t);
        self.interrupt_jump(t);
    }

    fn read_instruction(&mut self, op: ReadOp, mode: Mode)
        requires
            old(self).wf(),
        ensures
            final(self).wf(),
            final(self)@ == old(self)@.read_instruction(op, mode),
    {
        let at = self.operand(mode, false);
        let value = self.read8(at);
        self.regs = self.regs.apply_read(op, value);
    }

    fn write_instruction(&mut self, op: WriteOp, mode: Mode)
        requires
            old(self).wf(),
        ensures
            final(self).wf(),
            final(self)@ == old(self)@.write_instruction(op, mode),
    {
        let at = self.operand(mode, true);
        let value = self.regs.apply_write(op);
        self.write8(at, value);
    }

    #[verifier::rlimit(40)]
    fn modify_instruction(&mut self, op: ModifyOp, mode: Mode)
        requires
            old(self).wf(),
        ensures
            final(self).wf(),
            final(self)@ == old(self)@.modify_instruction(op, mode),
    {
        let at = self.operand(mode, true);
        let value = self.read8(at);
        let result = self.regs.modified(op, value);
        self.write8(at, value);
        self.write8(at, result);
        self.regs = self.regs.apply_modify(op, value);
    }

    fn accumulator_instruction(&mut self, op: ModifyOp)
        requires
            old(self).wf(),
        ensures
            final(self).wf(),
            final(self)@ == old(self)@.accumulator_instruction(op),
    {
        self.regs = self.regs.apply_accumulator(op);
        self.tick();
    }

    fn implied_instruction(&mut self, op: ImpliedOp)
        requires
            old(self).wf(),
        ensures
            final(self).wf(),
            final(self)@ == old(self)@.implied_instruction(op),
    {
        self.regs = self.regs.apply_implied(op);
        self.tick();
    }

    fn branch(&mut self, op: BranchOp)
        requires
            old(self).wf(),
        ensures
            final(self).wf(),
            final(self)@ == old(self)@.branch(op),
    {
        let at = self.imm();
        let offset = self.read8(at);
        let jump: u16 = if offset >= 128 {
            offset as u16 + 0xff00
        } else {
            offset as u16
        };
        if self.regs.takes_branch(op) {
            self.tick();
            let new_pc = self.regs.pc.wrapping_add(jump);
            if (self.regs.pc & 0xff00) != (new_pc & 0xff00) {
                self.tick();
            }
            self.regs.pc = new_pc;
        }
    }

    fn jmp(&mut self)
        requires
            old(self).wf(),
        ensures
            final(self).wf(),
            final(self)@ == old(self)@.jmp(),
    {
        let at = self.imm();
        let target = self.read16(at);
        self.regs.pc = target;
    }

    fn jmp_indirect(&mut self)
        requires
            old(self).wf(),
        ensures
            final(self).wf(),
            final(self)@ == old(self)@.jmp_indirect(),
    {
        let at = self.imm();
        let pointer = self.read16(at);
        let target = self.read16_d(pointer, (pointer & 0xff00) | (pointer.wrapping_add(1) & 0xff));
        self.regs.pc = target;
    }

    fn jsr(&mut self)
        requires
            old(self).wf(),
        ensures
            final(self).wf(),
            final(self)@ == old(self)@.jsr(),
    {
        self.tick();
        let pc = self.regs.pc;
        self.push16(pc.wrapping_add(1));
        let at = self.imm();
        let target = self.read16(at);
        self.regs.pc = target;
    }

    fn rts(&mut self)
        requires
            old(self).wf(),
        ensures
            final(self).wf(),
            final(self)@ == old(self)@.rts(),
    {
        let at = self.imm();
        self.read8(at);
        self.tick();
        let target = self.pop16();
        self.regs.pc = target.wrapping_add(1);
        self.tick();
    }

    fn rti(&mut self)
        requires
            old(self).wf(),
        ensures
            final(self).wf(),
            final(self)@ == old(self)@.rti(),
    {
        let at = self.imm();
        self.read8(at);
        self.tick();
        let status = self.pop8();
        self.regs.p.write(status);
        let target = self.pop16();
        self.regs.pc = target;
    }

    fn pha(&mut self)
        requires
            old(self).wf(),
        ensures
            final(self).wf(),
            final(self)@ == old(self)@.pha(),
    {
        self.tick();
        let a = self.regs.a;
        self.push8(a);
    }

    fn php(&mut self)
        requires
            old(self).wf(),
        ensures
            final(self).wf(),
            final(self)@ == old(self)@.php(),
    {
        self.tick();
        let status = self.regs.p.read();
        self.push8(status | BREAK_BIT);
    }

    fn pla(&mut self)
        requires
            old(self).wf(),
        ensures
            final(self).wf(),
            final(self)@ == old(self)@.pla(),
    {
        self.tick();
        self.tick();
        let a = self.pop8();
        self.regs.a = a;
        self.regs = self.regs.set_nz(a);
    }

    fn plp(&mut self)
        requires
            old(self).wf(),
        ensures
            final(self).wf(),
            final(self)@ == old(self)@.plp(),
    {
        self.tick();
        self.tick();
        let status = self.pop8();
        self.regs.p.write(status);
    }

    /// Runs an instruction whose opcode has been fetched.
    #[verifier::rlimit(40)]
    pub fn execute(&mut self, instruction: Instruction)
        requires
            old(self).wf(),
        ensures
            final(self).wf(),
            final(self)@ == old(self)@.execute(instruction),
    {
        match instruction {
            Instruction::Read(op, mode) => self.read_instruction(op, mode),
            Instruction::Write(op, mode) => self.write_instruction(op, mode),
            Instruction::Modify(op, mode) => self.modify_instruction(op, mode),
            Instruction::Accumulator(op) => self.accumulator_instruction(op),
            Instruction::Implied(op) => self.implied_instruction(op),
            Instruction::Branch(op) => self.branch(op),
            Instruction::Brk => self.interrupt(InterruptType::BRK),
            Instruction::Jmp => self.jmp(),
            Instruction::JmpIndirect => self.jmp_indirect(),
            Instruction::Jsr => self.jsr(),
            Instruction::Rts => self.rts(),
            Instruction::Rti => self.rti(),
            Instruction::Pha => self.pha(),
            Instruction::Php => self.php(),
            Instruction::Pla => self.pla(),
            Instruction::Plp => self.plp(),
            Instruction::Illegal => {},
        }
    }

    /// Serves a pending interrupt, if any. The interrupt of the picture unit
    /// goes before the maskable one.
    pub fn serve(&mut self)
        requires
            old(self).wf(),
        ensures
            final(self).wf(),
            final(self)@ == old(self)@.serve(),
    {
        if self.should_nmi() {
            self.interrupt(InterruptType::NMI);
        } else if self.should_irq() {
            self.interrupt(InterruptType::IRQ);
        }
    }

    /// One turn of the console, between two instructions: serves a pending
    /// interrupt, runs one instruction, and says whether a frame has been
    /// completed since this was last asked.
    pub fn turn(&mut self) -> (r: Result<bool, NesError>)
        requires
            old(self).wf(),
        ensures
            final(self).wf(),
            final(self)@ == old(self)@.turn(),
            r == (match old(self)@.serve().step_result() {
                Ok(_) => Ok::<bool, NesError>(old(self)@.serve().step().frame_ready()),
                Err(e) => Err::<bool, NesError>(e),
            }),
    {
        self.serve();
        let result = self.step();
        let ready = self.should_redraw();
        match result {
            Ok(_) => Ok(ready),
            Err(e) => Err(e),
        }
    }

    /// Runs one instruction: fetches the opcode at the program counter and
    /// executes it.
    ///
    /// An opcode that is not implemented costs the cycle of its fetch and
    /// nothing else; in strict mode the step then reports it.
    pub fn step(&mut self) -> (r: Result<(), NesError>)
        requires
            old(self).wf(),
        ensures
            final(self).wf(),
            final(self)@ == old(self)@.step(),
            r == old(self)@.step_result(),
    {
        let strict = self.strict;
        let pc = self.imm();
        let opcode = self.read8(pc);
        let instruction = decode(opcode);
        self.execute(instruction);
        match instruction {
            Instruction::Illegal => if strict {
                Err(NesError::IllegalOpcode(opcode))
            } else {
                Ok(())
            },
            _ => Ok(()),
        }
    }
}

} // verus!
