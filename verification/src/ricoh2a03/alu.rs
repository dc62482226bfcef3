//! The processor's registers and what each instruction does to them, apart
//! from its traffic on the bus.
use crate::ricoh2a03::decode::{BranchOp, ImpliedOp, ModifyOp, ReadOp, WriteOp};
use crate::ricoh2a03::status::Status;
use vstd::prelude::*;

verus! {

/// The registers of the processor: program counter, accumulator, the two
/// index registers, stack pointer and status flags.
#[derive(Clone, Copy, Debug, PartialEq, Eq, Structural)]
pub struct Registers {
    pub pc: u16,
    pub a: u8,
    pub x: u8,
    pub y: u8,
    pub s: u8,
    pub p: Status,
}

/// A byte read as a number in two's complement.
pub open spec fn signed(v: u8) -> int {
    if v >= 128 {
        v - 256
    } else {
        v as int
    }
}

/// The offset of a branch, widened to sixteen bits with its sign.
pub open spec fn sign_extend(v: u8) -> u16 {
    if v >= 128 {
        (v + 0xff00) as u16
    } else {
        v as u16
    }
}

/// Whether adding `b` to `a` changes the high byte.
pub open spec fn crosses_page(a: u16, b: u16) -> bool {
    (a.wrapping_add(b)) & 0xff00 != a & 0xff00
}

/// The overflow flag as the adder computes it from the sign bits is the
/// overflow of the signed sum.
pub proof fn lemma_overflow_bit(a: u8, v: u8, carry: bool)
    ensures
        ({
            let sum = a + v + (if carry { 1int } else { 0int });
            let result = (sum % 256) as u8;
            let signed_sum = signed(a) + signed(v) + (if carry { 1int } else { 0int });
            (((a ^ result) & !(a ^ v) & 0x80) != 0) == (signed_sum < -128 || signed_sum > 127)
        }),
{
    let sum = a + v + (if carry { 1int } else { 0int });
    let result = (sum % 256) as u8;
    assert((((a ^ result) & !(a ^ v) & 0x80) != 0) == ((a >= 128) == (v >= 128) && (result >= 128)
        != (a >= 128))) by (bit_vector);
}

/// Flipping all bits of a byte takes it from 255.
pub proof fn lemma_complement(v: u8)
    ensures
        v ^ 0xff == 255 - v,
{
    assert(v ^ 0xff == 255 - v) by (bit_vector);
}

/// The sign flag of a byte says that it is 128 or more.
pub proof fn lemma_negative_bit(v: u8)
    ensures
        ((v & 0x80) != 0) == (v >= 128),
        Status::init().with_nz(v).negative == (signed(v) < 0),
        Status::init().with_nz(v).zero == (v == 0),
{
    assert(((v & 0x80) != 0) == (v >= 128)) by (bit_vector);
}

/// The shifts and rotations as arithmetic: a shift to the left doubles
/// modulo 256 and sends 128 or more into C, a shift to the right halves and
/// sends the remainder into C, and a rotation takes the old C in at the
/// other end.
pub proof fn lemma_shift_arithmetic(r: Registers, v: u8)
    ensures
        r.modify_result(ModifyOp::Asl, v) == (2 * v) % 256,
        r.modify_result(ModifyOp::Lsr, v) == v / 2,
        r.modify_result(ModifyOp::Rol, v) == (2 * v + (if r.p.carry { 1int } else { 0int })) % 256,
        r.modify_result(ModifyOp::Ror, v) == v / 2 + (if r.p.carry { 128int } else { 0int }),
        r.modify_op(ModifyOp::Asl, v).p.carry == (v >= 128),
        r.modify_op(ModifyOp::Rol, v).p.carry == (v >= 128),
        r.modify_op(ModifyOp::Lsr, v).p.carry == (v % 2 == 1),
        r.modify_op(ModifyOp::Ror, v).p.carry == (v % 2 == 1),
{
    let c: u8 = if r.p.carry { 1 } else { 0 };
    assert({
        &&& (v << 1) == (2 * v) % 256
        &&& (v >> 1) == v / 2
        &&& ((v << 1) | c) == (2 * v + c) % 256
        &&& ((v >> 1) | (c << 7)) == v / 2 + 128 * c
        &&& ((v & 0x80) != 0) == (v >= 128)
        &&& ((v & 0x01) != 0) == (v % 2 == 1)
    }) by (bit_vector)
        requires
            c == 0 || c == 1,
    ;
}

impl Registers {
    /// The registers after a reset signal, before the reset sequence runs.
    pub open spec fn init() -> Registers {
        Registers { pc: 0xc000, a: 0, x: 0, y: 0, s: 0xfd, p: Status::init() }
    }

    pub open spec fn with_nz(self, value: u8) -> Registers {
        Registers { p: self.p.with_nz(value), ..self }
    }

    /// A + value + C. The result is the sum modulo 256, C says whether the
    /// sum passed 255, V whether the sum of the operands as signed numbers
    /// left the range from -128 to 127.
    pub open spec fn adc(self, value: u8) -> Registers {
        let carry = if self.p.carry { 1int } else { 0int };
        let sum = self.a + value + carry;
        let signed_sum = signed(self.a) + signed(value) + carry;
        let result = (sum % 256) as u8;
        Registers {
            a: result,
            p: Status {
                carry: sum > 255,
                overflow: signed_sum < -128 || signed_sum > 127,
                ..self.p.with_nz(result)
            },
            ..self
        }
    }

    /// A - value - (1 - C). The result is the difference modulo 256, C says
    /// that no borrow was needed, V whether the difference of the operands as
    /// signed numbers left the range from -128 to 127.
    pub open spec fn sbc(self, value: u8) -> Registers {
        let borrow = if self.p.carry { 0int } else { 1int };
        let difference = self.a - value - borrow;
        let signed_difference = signed(self.a) - signed(value) - borrow;
        let result = (difference % 256) as u8;
        Registers {
            a: result,
            p: Status {
                carry: difference >= 0,
                overflow: signed_difference < -128 || signed_difference > 127,
                ..self.p.with_nz(result)
            },
            ..self
        }
    }

    /// The flags after `register` was compared with `value`: N and Z from the
    /// difference modulo 256, C says that the register is not the smaller.
    pub open spec fn compare(self, register: u8, value: u8) -> Registers {
        Registers {
            p: Status { carry: register >= value, ..self.p.with_nz(register.wrapping_sub(value)) },
            ..self
        }
    }

    /// The registers after an instruction that reads its operand.
    pub open spec fn read_op(self, op: ReadOp, value: u8) -> Registers {
        match op {
            ReadOp::Ora => Registers { a: self.a | value, ..self }.with_nz(self.a | value),
            ReadOp::And => Registers { a: self.a & value, ..self }.with_nz(self.a & value),
            ReadOp::Eor => Registers { a: self.a ^ value, ..self }.with_nz(self.a ^ value),
            ReadOp::Adc => self.adc(value),
            ReadOp::Sbc => self.sbc(value),
            ReadOp::Compare => self.compare(self.a, value),
            ReadOp::Cpx => self.compare(self.x, value),
            ReadOp::Cpy => self.compare(self.y, value),
            ReadOp::Bit => Registers {
                p: Status {
                    negative: (value & 0x80) != 0,
                    overflow: (value & 0x40) != 0,
                    zero: (self.a & value) == 0,
                    ..self.p
                },
                ..self
            },
            ReadOp::Lda => Registers { a: value, ..self }.with_nz(value),
            ReadOp::Ldx => Registers { x: value, ..self }.with_nz(value),
            ReadOp::Ldy => Registers { y: value, ..self }.with_nz(value),
            ReadOp::Lax => Registers { a: value, x: value, ..self }.with_nz(value),
            ReadOp::Nop => self,
        }
    }

    /// The byte that a store instruction writes.
    pub open spec fn write_op(self, op: WriteOp) -> u8 {
        match op {
            WriteOp::Sta => self.a,
            WriteOp::Stx => self.x,
            WriteOp::Sty => self.y,
            WriteOp::Sax => self.a & self.x,
        }
    }

    /// The byte that a read-modify-write instruction writes back.
    pub open spec fn modify_result(self, op: ModifyOp, value: u8) -> u8 {
        let carry_in: u8 = if self.p.carry { 1 } else { 0 };
        match op {
            ModifyOp::Asl | ModifyOp::Slo => value << 1,
            ModifyOp::Lsr | ModifyOp::Sre => value >> 1,
            ModifyOp::Rol | ModifyOp::Rla => (value << 1) | carry_in,
            ModifyOp::Ror | ModifyOp::Rra => (value >> 1) | (carry_in << 7),
            ModifyOp::Inc | ModifyOp::Isc => value.wrapping_add(1),
            ModifyOp::Dec | ModifyOp::Dcp => value.wrapping_sub(1),
        }
    }

    /// The registers after a read-modify-write instruction. The shifts and
    /// rotations put the bit that leaves the byte into C; the combined
    /// instructions then use the result as the operand of a second
    /// instruction.
    pub open spec fn modify_op(self, op: ModifyOp, value: u8) -> Registers {
        let result = self.modify_result(op, value);
        let high = Registers { p: Status { carry: (value & 0x80) != 0, ..self.p }, ..self };
        let low = Registers { p: Status { carry: (value & 0x01) != 0, ..self.p }, ..self };
        match op {
            ModifyOp::Asl | ModifyOp::Rol => high.with_nz(result),
            ModifyOp::Lsr | ModifyOp::Ror => low.with_nz(result),
            ModifyOp::Inc | ModifyOp::Dec => self.with_nz(result),
            ModifyOp::Slo => high.read_op(ReadOp::Ora, result),
            ModifyOp::Rla => high.read_op(ReadOp::And, result),
            ModifyOp::Sre => low.read_op(ReadOp::Eor, result),
            ModifyOp::Rra => low.read_op(ReadOp::Adc, result),
            ModifyOp::Dcp => self.read_op(ReadOp::Compare, result),
            ModifyOp::Isc => self.read_op(ReadOp::Sbc, result),
        }
    }

    /// The registers after a shift or rotation of the accumulator.
    pub open spec fn accumulator_op(self, op: ModifyOp) -> Registers {
        Registers { a: self.modify_result(op, self.a), ..self.modify_op(op, self.a) }
    }

    /// The registers after an instruction without operand.
    pub open spec fn implied_op(self, op: ImpliedOp) -> Registers {
        match op {
            ImpliedOp::Clc => Registers { p: Status { carry: false, ..self.p }, ..self },
            ImpliedOp::Sec => Registers { p: Status { carry: true, ..self.p }, ..self },
            ImpliedOp::Cli => Registers { p: Status { interrupt: false, ..self.p }, ..self },
            ImpliedOp::Sei => Registers { p: Status { interrupt: true, ..self.p }, ..self },
            ImpliedOp::Clv => Registers { p: Status { overflow: false, ..self.p }, ..self },
            ImpliedOp::Cld => Registers { p: Status { decimal: false, ..self.p }, ..self },
            ImpliedOp::Sed => Registers { p: Status { decimal: true, ..self.p }, ..self },
            ImpliedOp::Inx => Registers { x: self.x.wrapping_add(1), ..self }.with_nz(
                self.x.wrapping_add(1),
            ),
            ImpliedOp::Iny => Registers { y: self.y.wrapping_add(1), ..self }.with_nz(
                self.y.wrapping_add(1),
            ),
            ImpliedOp::Dex => Registers { x: self.x.wrapping_sub(1), ..self }.with_nz(
                self.x.wrapping_sub(1),
            ),
            ImpliedOp::Dey => Registers { y: self.y.wrapping_sub(1), ..self }.with_nz(
                self.y.wrapping_sub(1),
            ),
            ImpliedOp::Tax => Registers { x: self.a, ..self }.with_nz(self.a),
            ImpliedOp::Tay => Registers { y: self.a, ..self }.with_nz(self.a),
            ImpliedOp::Txa => Registers { a: self.x, ..self }.with_nz(self.x),
            ImpliedOp::Tya => Registers { a: self.y, ..self }.with_nz(self.y),
            ImpliedOp::Tsx => Registers { x: self.s, ..self }.with_nz(self.s),
            ImpliedOp::Txs => Registers { s: self.x, ..self },
            ImpliedOp::Nop => self,
        }
    }

    /// Whether a branch is taken.
    pub open spec fn branch_taken(self, op: BranchOp) -> bool {
        match op {
            BranchOp::Bpl => !self.p.negative,
            BranchOp::Bmi => self.p.negative,
            BranchOp::Bvc => !self.p.overflow,
            BranchOp::Bvs => self.p.overflow,
            BranchOp::Bcc => !self.p.carry,
            BranchOp::Bcs => self.p.carry,
            BranchOp::Bne => !self.p.zero,
            BranchOp::Beq => self.p.zero,
        }
    }

    // ----- the same, computed -----

    /// Sets N and Z from a result.
    pub fn set_nz(self, value: u8) -> (r: Registers)
        ensures
            r == self.with_nz(value),
    {
        Registers { p: Status { negative: (value & 0x80) != 0, zero: value == 0, ..self.p }, ..self }
    }

    /// ADC.
    pub fn add_with_carry(self, value: u8) -> (r: Registers)
        ensures
            r == self.adc(value),
    {
        proof {
            lemma_overflow_bit(self.a, value, self.p.carry);
        }
        let carry: u16 = if self.p.carry { 1 } else { 0 };
        let sum: u16 = self.a as u16 + value as u16 + carry;
        let result: u8 = (sum % 256) as u8;
        let overflow = ((self.a ^ result) & !(self.a ^ value) & 0x80) != 0;
        Registers {
            a: result,
            p: Status {
                carry: sum > 0xff,
                overflow,
                negative: (result & 0x80) != 0,
                zero: result == 0,
                ..self.p
            },
            ..self
        }
    }

    /// SBC: the addition of the complement.
    pub fn subtract_with_borrow(self, value: u8) -> (r: Registers)
        ensures
            r == self.sbc(value),
    {
        proof {
            lemma_complement(value);
        }
        self.add_with_carry(value ^ 0xff)
    }

    /// CMP, CPX and CPY.
    pub fn compare_with(self, register: u8, value: u8) -> (r: Registers)
        ensures
            r == self.compare(register, value),
    {
        let result = register.wrapping_sub(value);
        Registers {
            p: Status {
                carry: register >= value,
                negative: (result & 0x80) != 0,
                zero: result == 0,
                ..self.p
            },
            ..self
        }
    }

    /// What an instruction that reads its operand does to the registers.
    pub fn apply_read(self, op: ReadOp, value: u8) -> (r: Registers)
        ensures
            r == self.read_op(op, value),
    {
        match op {
            ReadOp::Ora => Registers { a: self.a | value, ..self }.set_nz(self.a | value),
            ReadOp::And => Registers { a: self.a & value, ..self }.set_nz(self.a & value),
            ReadOp::Eor => Registers { a: self.a ^ value, ..self }.set_nz(self.a ^ value),
            ReadOp::Adc => self.add_with_carry(value),
            ReadOp::Sbc => self.subtract_with_borrow(value),
            ReadOp::Compare => self.compare_with(self.a, value),
            ReadOp::Cpx => self.compare_with(self.x, value),
            ReadOp::Cpy => self.compare_with(self.y, value),
            ReadOp::Bit => Registers {
                p: Status {
                    negative: (value & 0x80) != 0,
                    overflow: (value & 0x40) != 0,
                    zero: (self.a & value) == 0,
                    ..self.p
                },
                ..self
            },
            ReadOp::Lda => Registers { a: value, ..self }.set_nz(value),
            ReadOp::Ldx => Registers { x: value, ..self }.set_nz(value),
            ReadOp::Ldy => Registers { y: value, ..self }.set_nz(value),
            ReadOp::Lax => Registers { a: value, x: value, ..self }.set_nz(value),
            ReadOp::Nop => self,
        }
    }

    /// The byte that a store instruction writes.
    pub fn apply_write(self, op: WriteOp) -> (r: u8)
        ensures
            r == self.write_op(op),
    {
        match op {
            WriteOp::Sta => self.a,
            WriteOp::Stx => self.x,
            WriteOp::Sty => self.y,
            WriteOp::Sax => self.a & self.x,
        }
    }

    /// The byte that a read-modify-write instruction writes back.
    pub fn modified(self, op: ModifyOp, value: u8) -> (r: u8)
        ensures
            r == self.modify_result(op, value),
    {
        let carry_in: u8 = if self.p.carry { 1 } else { 0 };
        match op {
            ModifyOp::Asl | ModifyOp::Slo => value << 1,
            ModifyOp::Lsr | ModifyOp::Sre => value >> 1,
            ModifyOp::Rol | ModifyOp::Rla => (value << 1) | carry_in,
            ModifyOp::Ror | ModifyOp::Rra => (value >> 1) | (carry_in << 7),
            ModifyOp::Inc | ModifyOp::Isc => value.wrapping_add(1),
            ModifyOp::Dec | ModifyOp::Dcp => value.wrapping_sub(1),
        }
    }

    /// What a read-modify-write instruction does to the registers.
    pub fn apply_modify(self, op: ModifyOp, value: u8) -> (r: Registers)
        ensures
            r == self.modify_op(op, value),
    {
        let result = self.modified(op, value);
        let high = Registers { p: Status { carry: (value & 0x80) != 0, ..self.p }, ..self };
        let low = Registers { p: Status { carry: (value & 0x01) != 0, ..self.p }, ..self };
        match op {
            ModifyOp::Asl | ModifyOp::Rol => high.set_nz(result),
            ModifyOp::Lsr | ModifyOp::Ror => low.set_nz(result),
            ModifyOp::Inc | ModifyOp::Dec => self.set_nz(result),
            ModifyOp::Slo => high.apply_read(ReadOp::Ora, result),
            ModifyOp::Rla => high.apply_read(ReadOp::And, result),
            ModifyOp::Sre => low.apply_read(ReadOp::Eor, result),
            ModifyOp::Rra => low.apply_read(ReadOp::Adc, result),
            ModifyOp::Dcp => self.apply_read(ReadOp::Compare, result),
            ModifyOp::Isc => self.apply_read(ReadOp::Sbc, result),
        }
    }

    /// A shift or rotation of the accumulator.
    pub fn apply_accumulator(self, op: ModifyOp) -> (r: Registers)
        ensures
            r == self.accumulator_op(op),
    {
        let result = self.modified(op, self.a);
        let after = self.apply_modify(op, self.a);
        Registers { a: result, ..after }
    }

    /// What an instruction without operand does to the registers.
    pub fn apply_implied(self, op: ImpliedOp) -> (r: Registers)
        ensures
            r == self.implied_op(op),
    {
        match op {
            ImpliedOp::Clc => Registers { p: Status { carry: false, ..self.p }, ..self },
            ImpliedOp::Sec => Registers { p: Status { carry: true, ..self.p }, ..self },
            ImpliedOp::Cli => Registers { p: Status { interrupt: false, ..self.p }, ..self },
            ImpliedOp::Sei => Registers { p: Status { interrupt: true, ..self.p }, ..self },
            ImpliedOp::Clv => Registers { p: Status { overflow: false, ..self.p }, ..self },
            ImpliedOp::Cld => Registers { p: Status { decimal: false, ..self.p }, ..self },
            ImpliedOp::Sed => Registers { p: Status { decimal: true, ..self.p }, ..self },
            ImpliedOp::Inx => {
                let x = self.x.wrapping_add(1);
                Registers { x, ..self }.set_nz(x)
            },
            ImpliedOp::Iny => {
                let y = self.y.wrapping_add(1);
                Registers { y, ..self }.set_nz(y)
            },
            ImpliedOp::Dex => {
                let x = self.x.wrapping_sub(1);
                Registers { x, ..self }.set_nz(x)
            },
            ImpliedOp::Dey => {
                let y = self.y.wrapping_sub(1);
                Registers { y, ..self }.set_nz(y)
            },
            ImpliedOp::Tax => Registers { x: self.a, ..self }.set_nz(self.a),
            ImpliedOp::Tay => Registers { y: self.a, ..self }.set_nz(self.a),
            ImpliedOp::Txa => Registers { a: self.x, ..self }.set_nz(self.x),
            ImpliedOp::Tya => Registers { a: self.y, ..self }.set_nz(self.y),
            ImpliedOp::Tsx => Registers { x: self.s, ..self }.set_nz(self.s),
            ImpliedOp::Txs => Registers { s: self.x, ..self },
            ImpliedOp::Nop => self,
        }
    }

    /// Whether a branch is taken.
    pub fn takes_branch(self, op: BranchOp) -> (r: bool)
        ensures
            r == self.branch_taken(op),
    {
        match op {
            BranchOp::Bpl => !self.p.negative,
            BranchOp::Bmi => self.p.negative,
            BranchOp::Bvc => !self.p.overflow,
            BranchOp::Bvs => self.p.overflow,
            BranchOp::Bcc => !self.p.carry,
            BranchOp::Bcs => self.p.carry,
            BranchOp::Bne => !self.p.zero,
            BranchOp::Beq => self.p.zero,
        }
    }
}

} // verus!
