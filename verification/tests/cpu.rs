use rnes::bus::Bus;
use rnes::controller::Button;
use rnes::mapper::create_mapper;
use rnes::ricoh2a03::alu::Registers;
use rnes::ricoh2a03::decode::{decode, Instruction, Mode, ModifyOp, ReadOp, WriteOp};
use rnes::ricoh2a03::model::InterruptType;
use rnes::ricoh2a03::status::Status;
use rnes::ricoh2a03::Ricoh2A03;
use rnes::ricoh2c02::Ricoh2C02;
use rnes::rom::{NesError, Rom};

const RESET: u16 = 0x8000;
const NMI: u16 = 0x9000;
const IRQ: u16 = 0xa000;

/// A console with `program` at 0x8000, after its reset sequence. The rest of
/// the program ROM is filled with NOPs.
fn console(program: &[u8]) -> Ricoh2A03 {
    let mut bytes = vec![0x4e, 0x45, 0x53, 0x1a, 2, 0, 0, 0];
    bytes.resize(16, 0);
    let mut prg = vec![0xeau8; 32768];
    prg[..program.len()].copy_from_slice(program);
    prg[0x7ffa] = NMI as u8;
    prg[0x7ffb] = (NMI >> 8) as u8;
    prg[0x7ffc] = RESET as u8;
    prg[0x7ffd] = (RESET >> 8) as u8;
    prg[0x7ffe] = IRQ as u8;
    prg[0x7fff] = (IRQ >> 8) as u8;
    bytes.extend_from_slice(&prg);
    let rom = Rom::new(&bytes).unwrap();
    let mut cpu = Ricoh2A03::new(Bus::new(Ricoh2C02::new(create_mapper(rom).unwrap())));
    cpu.reset();
    cpu
}

fn with(cpu: &mut Ricoh2A03, change: fn(&mut Registers)) {
    let mut regs = cpu.registers();
    change(&mut regs);
    cpu.set_registers(regs);
}

/// Cycles that one step takes.
fn step(cpu: &mut Ricoh2A03) -> u64 {
    let before = cpu.cycles();
    assert_eq!(cpu.step(), Ok(()));
    cpu.cycles() - before
}

/// Cycles that the first instruction of `program` takes with the given X
/// and Y.
fn cycles(program: &[u8], x: u8, y: u8) -> u64 {
    let mut cpu = console(program);
    let mut regs = cpu.registers();
    regs.x = x;
    regs.y = y;
    cpu.set_registers(regs);
    // a pointer at 0x0040 to 0x02ff, for the indirect modes
    cpu.write8(0x0040, 0xff);
    cpu.write8(0x0041, 0x02);
    step(&mut cpu)
}

#[test]
fn new_console_waits_for_its_reset() {
    let mut bytes = vec![0x4e, 0x45, 0x53, 0x1a, 1, 0, 0, 0];
    bytes.resize(16 + 16384, 0);
    let rom = Rom::new(&bytes).unwrap();
    let cpu = Ricoh2A03::new(Bus::new(Ricoh2C02::new(create_mapper(rom).unwrap())));
    let regs = cpu.registers();
    assert_eq!(regs.pc, 0xc000);
    assert_eq!(regs.s, 0xfd);
    assert_eq!((regs.a, regs.x, regs.y), (0, 0, 0));
    assert_eq!(regs.p, Status::new());
    assert_eq!(cpu.cycles(), 0);
}

#[test]
fn reset_loads_the_vector_in_seven_cycles() {
    let cpu = console(&[]);
    let regs = cpu.registers();
    assert_eq!(regs.pc, RESET);
    assert_eq!(regs.s, 0xfa);
    assert!(regs.p.interrupt);
    assert_eq!(cpu.cycles(), 7);
}

#[test]
fn status_byte_layout() {
    let mut p = Status::new();
    assert_eq!(p.read(), 0x24);
    p.write(0xff);
    assert_eq!(p.read(), 0xef);
    assert!(p.negative && p.overflow && p.decimal && p.interrupt && p.zero && p.carry);
    p.write(0x00);
    assert_eq!(p.read(), 0x20);
    p.write(0x81);
    assert!(p.negative && p.carry && !p.zero && !p.overflow);
}

#[test]
fn reads_take_their_documented_cycles() {
    assert_eq!(cycles(&[0xa9, 0x01], 0, 0), 2);
    assert_eq!(cycles(&[0xa5, 0x10], 0, 0), 3);
    assert_eq!(cycles(&[0xb5, 0x10], 1, 0), 4);
    assert_eq!(cycles(&[0xb6, 0x10], 0, 1), 4);
    assert_eq!(cycles(&[0xad, 0x00, 0x02], 0, 0), 4);
    assert_eq!(cycles(&[0xbd, 0x00, 0x02], 1, 0), 4);
    assert_eq!(cycles(&[0xbd, 0xff, 0x02], 1, 0), 5);
    assert_eq!(cycles(&[0xb9, 0x00, 0x02], 0, 1), 4);
    assert_eq!(cycles(&[0xb9, 0xff, 0x02], 0, 1), 5);
    assert_eq!(cycles(&[0xa1, 0x3f], 1, 0), 6);
    assert_eq!(cycles(&[0xb1, 0x40], 0, 0), 5);
    assert_eq!(cycles(&[0xb1, 0x40], 0, 1), 6);
    assert_eq!(cycles(&[0x2c, 0x00, 0x02], 0, 0), 4);
    assert_eq!(cycles(&[0xc9, 0x00], 0, 0), 2);
}

#[test]
fn writes_always_pay_for_indexing() {
    assert_eq!(cycles(&[0x85, 0x10], 0, 0), 3);
    assert_eq!(cycles(&[0x95, 0x10], 1, 0), 4);
    assert_eq!(cycles(&[0x96, 0x10], 0, 1), 4);
    assert_eq!(cycles(&[0x8d, 0x00, 0x02], 0, 0), 4);
    assert_eq!(cycles(&[0x9d, 0x00, 0x02], 1, 0), 5);
    assert_eq!(cycles(&[0x9d, 0xff, 0x02], 1, 0), 5);
    assert_eq!(cycles(&[0x99, 0x00, 0x02], 0, 1), 5);
    assert_eq!(cycles(&[0x81, 0x3f], 1, 0), 6);
    assert_eq!(cycles(&[0x91, 0x40], 0, 0), 6);
    assert_eq!(cycles(&[0x91, 0x40], 0, 1), 6);
}

#[test]
fn read_modify_writes_take_two_cycles_more() {
    assert_eq!(cycles(&[0xe6, 0x10], 0, 0), 5);
    assert_eq!(cycles(&[0xf6, 0x10], 1, 0), 6);
    assert_eq!(cycles(&[0xee, 0x00, 0x02], 0, 0), 6);
    assert_eq!(cycles(&[0xfe, 0x00, 0x02], 1, 0), 7);
    assert_eq!(cycles(&[0xfe, 0xff, 0x02], 1, 0), 7);
    assert_eq!(cycles(&[0x06, 0x10], 0, 0), 5);
    assert_eq!(cycles(&[0x5e, 0x00, 0x02], 0, 0), 7);
}

#[test]
fn register_instructions_take_two_cycles() {
    for opcode in [0x0a, 0x4a, 0x2a, 0x6a, 0xe8, 0xc8, 0xca, 0x88, 0xaa, 0xa8, 0x8a, 0x98, 0xba, 0x9a,
        0x18, 0x38, 0x58, 0x78, 0xb8, 0xd8, 0xf8, 0xea]
    {
        assert_eq!(cycles(&[opcode], 0, 0), 2, "opcode {:02x}", opcode);
    }
}

#[test]
fn jumps_and_stack_instructions_take_their_documented_cycles() {
    assert_eq!(cycles(&[0x4c, 0x00, 0x90], 0, 0), 3);
    assert_eq!(cycles(&[0x6c, 0x40, 0x00], 0, 0), 5);
    assert_eq!(cycles(&[0x20, 0x00, 0x90], 0, 0), 6);
    assert_eq!(cycles(&[0x60], 0, 0), 6);
    assert_eq!(cycles(&[0x40], 0, 0), 6);
    assert_eq!(cycles(&[0x48], 0, 0), 3);
    assert_eq!(cycles(&[0x08], 0, 0), 3);
    assert_eq!(cycles(&[0x68], 0, 0), 4);
    assert_eq!(cycles(&[0x28], 0, 0), 4);
    assert_eq!(cycles(&[0x00], 0, 0), 7);
}

#[test]
fn branches_cost_more_when_taken_and_when_they_leave_the_page() {
    // Z is clear after reset: BEQ falls through, BNE is taken
    assert_eq!(cycles(&[0xf0, 0x10], 0, 0), 2);
    assert_eq!(cycles(&[0xd0, 0x10], 0, 0), 3);
    // backwards from 0x8002 into page 0x7f
    assert_eq!(cycles(&[0xd0, 0xf0], 0, 0), 4);
}

#[test]
fn undocumented_instructions_take_their_cycles() {
    assert_eq!(cycles(&[0x07, 0x10], 0, 0), 5);
    assert_eq!(cycles(&[0x17, 0x10], 1, 0), 6);
    assert_eq!(cycles(&[0x0f, 0x00, 0x02], 0, 0), 6);
    assert_eq!(cycles(&[0x1f, 0x00, 0x02], 1, 0), 7);
    assert_eq!(cycles(&[0x1b, 0x00, 0x02], 0, 1), 7);
    assert_eq!(cycles(&[0x03, 0x3f], 1, 0), 8);
    assert_eq!(cycles(&[0x13, 0x40], 0, 0), 8);
    assert_eq!(cycles(&[0xa7, 0x10], 0, 0), 3);
    assert_eq!(cycles(&[0xb3, 0x40], 0, 1), 6);
    assert_eq!(cycles(&[0x87, 0x10], 0, 0), 3);
    assert_eq!(cycles(&[0xcf, 0x00, 0x02], 0, 0), 6);
    assert_eq!(cycles(&[0xe7, 0x10], 0, 0), 5);
    assert_eq!(cycles(&[0xeb, 0x01], 0, 0), 2);
    assert_eq!(cycles(&[0x80, 0x01], 0, 0), 2);
    assert_eq!(cycles(&[0x04, 0x10], 0, 0), 3);
    assert_eq!(cycles(&[0x14, 0x10], 0, 0), 4);
    assert_eq!(cycles(&[0x0c, 0x00, 0x02], 0, 0), 4);
    assert_eq!(cycles(&[0x1c, 0x00, 0x02], 1, 0), 4);
    assert_eq!(cycles(&[0x1c, 0xff, 0x02], 1, 0), 5);
    assert_eq!(cycles(&[0x1a], 0, 0), 2);
}

#[test]
fn opcode_that_is_not_implemented_passes_as_a_one_cycle_nop() {
    let mut cpu = console(&[0x02, 0xa9, 0x07]);
    let before = cpu.registers();
    assert_eq!(step(&mut cpu), 1);
    let after = cpu.registers();
    assert_eq!(after.pc, 0x8001);
    assert_eq!((after.a, after.x, after.y, after.s, after.p), (before.a, before.x, before.y, before.s, before.p));
    step(&mut cpu);
    assert_eq!(cpu.registers().a, 7);
}

#[test]
fn opcode_that_is_not_implemented_is_an_error_in_strict_mode() {
    let mut cpu = console(&[0xea, 0x02]);
    cpu.set_strict(true);
    assert_eq!(cpu.step(), Ok(()));
    assert_eq!(cpu.step(), Err(NesError::IllegalOpcode(0x02)));
    assert_eq!(cpu.registers().pc, 0x8002);
}

#[test]
fn every_opcode_decodes_as_documented() {
    assert_eq!(decode(0xa9), Instruction::Read(ReadOp::Lda, Mode::Immediate));
    assert_eq!(decode(0x9d), Instruction::Write(WriteOp::Sta, Mode::AbsoluteX));
    assert_eq!(decode(0xfe), Instruction::Modify(ModifyOp::Inc, Mode::AbsoluteX));
    assert_eq!(decode(0xb6), Instruction::Read(ReadOp::Ldx, Mode::ZeroPageY));
    assert_eq!(decode(0xbe), Instruction::Read(ReadOp::Ldx, Mode::AbsoluteY));
    assert_eq!(decode(0x6c), Instruction::JmpIndirect);
    assert_eq!(decode(0x0a), Instruction::Accumulator(ModifyOp::Asl));
    assert_eq!(decode(0xeb), Instruction::Read(ReadOp::Sbc, Mode::Immediate));
    assert_eq!(decode(0x89), Instruction::Read(ReadOp::Nop, Mode::Immediate));
    assert_eq!(decode(0xbf), Instruction::Read(ReadOp::Lax, Mode::AbsoluteY));
    assert_eq!(decode(0x97), Instruction::Write(WriteOp::Sax, Mode::ZeroPageY));
    let implemented = (0..=255u8).filter(|&opcode| decode(opcode) != Instruction::Illegal).count();
    assert_eq!(implemented, 231);
    for opcode in [0x02u8, 0x12, 0x22, 0x0b, 0x4b, 0x6b, 0x8b, 0xab, 0xcb, 0x93, 0x9b, 0x9c, 0x9e,
        0x9f, 0xbb, 0xf2]
    {
        assert_eq!(decode(opcode), Instruction::Illegal);
    }
}

#[test]
fn loads_set_register_and_flags() {
    let mut cpu = console(&[0xa9, 0x00, 0xa2, 0x80, 0xa0, 0x7f, 0xa7, 0x10]);
    cpu.write8(0x0010, 0xc3);
    step(&mut cpu);
    let regs = cpu.registers();
    assert_eq!(regs.a, 0);
    assert!(regs.p.zero && !regs.p.negative);
    step(&mut cpu);
    let regs = cpu.registers();
    assert_eq!(regs.x, 0x80);
    assert!(!regs.p.zero && regs.p.negative);
    step(&mut cpu);
    let regs = cpu.registers();
    assert_eq!(regs.y, 0x7f);
    assert!(!regs.p.zero && !regs.p.negative);
    step(&mut cpu);
    let regs = cpu.registers();
    assert_eq!((regs.a, regs.x), (0xc3, 0xc3));
    assert!(regs.p.negative);
    assert_eq!(regs.pc, 0x8008);
}

#[test]
fn stores_write_memory_and_leave_flags() {
    let mut cpu = console(&[0x85, 0x10, 0x8e, 0x00, 0x02, 0x94, 0x20, 0x87, 0x30]);
    with(&mut cpu, |r| {
        r.a = 0xf0;
        r.x = 0x3c;
        r.y = 0x55;
    });
    let flags = cpu.registers().p;
    for _ in 0..4 {
        step(&mut cpu);
    }
    assert_eq!(cpu.read8(0x0010), 0xf0);
    assert_eq!(cpu.read8(0x0200), 0x3c);
    assert_eq!(cpu.read8(0x0020 + 0x3c), 0x55);
    assert_eq!(cpu.read8(0x0030), 0x30);
    assert_eq!(cpu.registers().p, flags);
}

#[test]
fn zero_page_indexing_stays_in_page_zero() {
    let mut cpu = console(&[0xb5, 0xf0, 0xa1, 0xf0]);
    cpu.write8(0x0010, 0x77);
    // the pointer of (0xf0,x) with x = 0x0f sits at 0xff and 0x00
    cpu.write8(0x00ff, 0x34);
    cpu.write8(0x0000, 0x02);
    cpu.write8(0x0234, 0x99);
    with(&mut cpu, |r| r.x = 0x20);
    step(&mut cpu);
    assert_eq!(cpu.registers().a, 0x77);
    with(&mut cpu, |r| r.x = 0x0f);
    step(&mut cpu);
    assert_eq!(cpu.registers().a, 0x99);
}

#[test]
fn indirect_indexed_adds_y_to_the_pointer() {
    let mut cpu = console(&[0xb1, 0x40]);
    cpu.write8(0x0040, 0xf0);
    cpu.write8(0x0041, 0x02);
    cpu.write8(0x0305, 0x5e);
    with(&mut cpu, |r| r.y = 0x15);
    step(&mut cpu);
    assert_eq!(cpu.registers().a, 0x5e);
}

#[test]
fn adc_sets_carry_and_overflow() {
    let cases: [(u8, u8, bool, u8, bool, bool); 6] = [
        (0x50, 0x10, false, 0x60, false, false),
        (0x50, 0x50, false, 0xa0, false, true),
        (0x50, 0xd0, false, 0x20, true, false),
        (0xd0, 0x90, false, 0x60, true, true),
        (0xff, 0x00, true, 0x00, true, false),
        (0x7f, 0x00, true, 0x80, false, true),
    ];
    for (a, value, carry, result, carry_out, overflow) in cases {
        let mut regs = Registers { pc: 0, a, x: 0, y: 0, s: 0, p: Status::new() };
        regs.p.carry = carry;
        let after = regs.add_with_carry(value);
        assert_eq!(after.a, result);
        assert_eq!(after.p.carry, carry_out);
        assert_eq!(after.p.overflow, overflow);
        assert_eq!(after.p.zero, result == 0);
        assert_eq!(after.p.negative, result >= 0x80);
    }
}

#[test]
fn sbc_sets_carry_and_overflow() {
    let cases: [(u8, u8, bool, u8, bool, bool); 5] = [
        (0x50, 0xf0, true, 0x60, false, false),
        (0x50, 0xb0, true, 0xa0, false, true),
        (0xd0, 0x70, true, 0x60, true, true),
        (0x50, 0x30, true, 0x20, true, false),
        (0x00, 0x00, false, 0xff, false, false),
    ];
    for (a, value, carry, result, carry_out, overflow) in cases {
        let mut regs = Registers { pc: 0, a, x: 0, y: 0, s: 0, p: Status::new() };
        regs.p.carry = carry;
        let after = regs.subtract_with_borrow(value);
        assert_eq!(after.a, result);
        assert_eq!(after.p.carry, carry_out);
        assert_eq!(after.p.overflow, overflow);
    }
}

#[test]
fn adc_and_sbc_flags_match_signed_and_unsigned_arithmetic_everywhere() {
    for a in 0..=255u8 {
        for value in 0..=255u8 {
            for carry in [false, true] {
                let mut regs = Registers { pc: 0, a, x: 1, y: 2, s: 3, p: Status::new() };
                regs.p.carry = carry;
                let sum = a as i32 + value as i32 + carry as i32;
                let signed = a as i8 as i32 + value as i8 as i32 + carry as i32;
                let after = regs.add_with_carry(value);
                assert_eq!(after.a, sum as u8);
                assert_eq!(after.p.carry, sum > 255);
                assert_eq!(after.p.overflow, !(-128..=127).contains(&signed));
                assert_eq!(after.p.zero, sum as u8 == 0);
                assert_eq!(after.p.negative, sum as u8 >= 0x80);
                assert_eq!((after.x, after.y, after.s), (1, 2, 3));
                let difference = a as i32 - value as i32 - !carry as i32;
                let signed = a as i8 as i32 - value as i8 as i32 - !carry as i32;
                let after = regs.subtract_with_borrow(value);
                assert_eq!(after.a, difference as u8);
                assert_eq!(after.p.carry, difference >= 0);
                assert_eq!(after.p.overflow, !(-128..=127).contains(&signed));
                assert_eq!(after.p.zero, difference as u8 == 0);
                assert_eq!(after.p.negative, difference as u8 >= 0x80);
            }
        }
    }
}

#[test]
fn compare_flags_match_the_order_of_the_operands_everywhere() {
    for register in 0..=255u8 {
        for value in 0..=255u8 {
            let regs = Registers { pc: 0, a: register, x: 0, y: 0, s: 0, p: Status::new() };
            let after = regs.apply_read(ReadOp::Compare, value);
            assert_eq!(after.a, register);
            assert_eq!(after.p.carry, register >= value);
            assert_eq!(after.p.zero, register == value);
            assert_eq!(after.p.negative, register.wrapping_sub(value) >= 0x80);
            assert!(!after.p.overflow);
        }
    }
}

#[test]
fn shifts_and_rotations_move_a_bit_through_carry_everywhere() {
    for value in 0..=255u8 {
        for carry in [false, true] {
            let mut regs = Registers { pc: 0, a: 0, x: 0, y: 0, s: 0, p: Status::new() };
            regs.p.carry = carry;
            let cases = [
                (ModifyOp::Asl, value << 1, value & 0x80 != 0),
                (ModifyOp::Lsr, value >> 1, value & 0x01 != 0),
                (ModifyOp::Rol, (value << 1) | carry as u8, value & 0x80 != 0),
                (ModifyOp::Ror, (value >> 1) | ((carry as u8) << 7), value & 0x01 != 0),
            ];
            for (op, result, carry_out) in cases {
                assert_eq!(regs.modified(op, value), result);
                let after = regs.apply_modify(op, value);
                assert_eq!(after.p.carry, carry_out);
                assert_eq!(after.p.zero, result == 0);
                assert_eq!(after.p.negative, result >= 0x80);
                assert_eq!(after.a, 0);
            }
        }
    }
}

#[test]
fn logic_instructions() {
    let mut cpu = console(&[0x09, 0x0f, 0x29, 0x3c, 0x49, 0xff, 0x24, 0x10]);
    cpu.write8(0x0010, 0xc0);
    with(&mut cpu, |r| r.a = 0xf0);
    step(&mut cpu);
    assert_eq!(cpu.registers().a, 0xff);
    step(&mut cpu);
    assert_eq!(cpu.registers().a, 0x3c);
    step(&mut cpu);
    assert_eq!(cpu.registers().a, 0xc3);
    with(&mut cpu, |r| r.a = 0x3f);
    step(&mut cpu);
    let regs = cpu.registers();
    assert_eq!(regs.a, 0x3f);
    assert!(regs.p.negative && regs.p.overflow && regs.p.zero);
}

#[test]
fn compare_instructions_use_their_register() {
    let mut cpu = console(&[0xc9, 0x10, 0xe0, 0x10, 0xc0, 0x10]);
    with(&mut cpu, |r| {
        r.a = 0x10;
        r.x = 0x0f;
        r.y = 0x11;
    });
    step(&mut cpu);
    let p = cpu.registers().p;
    assert!(p.zero && p.carry && !p.negative);
    step(&mut cpu);
    let p = cpu.registers().p;
    assert!(!p.zero && !p.carry && p.negative);
    step(&mut cpu);
    let p = cpu.registers().p;
    assert!(!p.zero && p.carry && !p.negative);
}

#[test]
fn increments_and_decrements() {
    let mut cpu = console(&[0xe6, 0x10, 0xc6, 0x11, 0xe8, 0x88, 0xca, 0xc8]);
    cpu.write8(0x0010, 0xff);
    cpu.write8(0x0011, 0x00);
    step(&mut cpu);
    assert!(cpu.registers().p.zero);
    step(&mut cpu);
    assert!(cpu.registers().p.negative);
    assert_eq!(cpu.read8(0x0010), 0x00);
    assert_eq!(cpu.read8(0x0011), 0xff);
    with(&mut cpu, |r| {
        r.x = 0xff;
        r.y = 0x00;
    });
    step(&mut cpu);
    assert_eq!(cpu.registers().x, 0);
    step(&mut cpu);
    assert_eq!(cpu.registers().y, 0xff);
    step(&mut cpu);
    assert_eq!(cpu.registers().x, 0xff);
    step(&mut cpu);
    assert_eq!(cpu.registers().y, 0);
}

#[test]
fn shifts_in_memory_and_in_the_accumulator() {
    let mut cpu = console(&[0x06, 0x10, 0x6a, 0x2e, 0x00, 0x02]);
    cpu.write8(0x0010, 0x81);
    cpu.write8(0x0200, 0x40);
    with(&mut cpu, |r| r.a = 0x02);
    step(&mut cpu);
    assert_eq!(cpu.read8(0x0010), 0x02);
    assert!(cpu.registers().p.carry);
    step(&mut cpu);
    let regs = cpu.registers();
    assert_eq!(regs.a, 0x81);
    assert!(!regs.p.carry && regs.p.negative);
    step(&mut cpu);
    assert_eq!(cpu.read8(0x0200), 0x80);
    assert!(!cpu.registers().p.carry);
}

#[test]
fn transfers_and_flag_instructions() {
    let mut cpu = console(&[0xaa, 0xa8, 0x9a, 0xba, 0x8a, 0x98, 0x38, 0xf8, 0x78, 0x18, 0xd8, 0x58, 0xb8]);
    with(&mut cpu, |r| {
        r.a = 0x80;
        r.p.overflow = true;
    });
    step(&mut cpu);
    assert_eq!(cpu.registers().x, 0x80);
    assert!(cpu.registers().p.negative);
    step(&mut cpu);
    assert_eq!(cpu.registers().y, 0x80);
    with(&mut cpu, |r| {
        r.x = 0x00;
        r.p.zero = false;
    });
    step(&mut cpu);
    let regs = cpu.registers();
    assert_eq!(regs.s, 0x00);
    assert!(!regs.p.zero);
    with(&mut cpu, |r| r.s = 0x33);
    step(&mut cpu);
    assert_eq!(cpu.registers().x, 0x33);
    step(&mut cpu);
    assert_eq!(cpu.registers().a, 0x33);
    step(&mut cpu);
    assert_eq!(cpu.registers().a, 0x80);
    for _ in 0..3 {
        step(&mut cpu);
    }
    let p = cpu.registers().p;
    assert!(p.carry && p.decimal && p.interrupt && p.overflow);
    for _ in 0..4 {
        step(&mut cpu);
    }
    let p = cpu.registers().p;
    assert!(!p.carry && !p.decimal && !p.interrupt && !p.overflow);
}

#[test]
fn combined_instructions() {
    // SLO, RLA, SRE, RRA, DCP, ISC on 0x10, and SAX to 0x11
    let mut cpu = console(&[0x07, 0x10, 0x27, 0x10, 0x47, 0x10, 0x67, 0x10, 0xc7, 0x10, 0xe7, 0x10, 0x87, 0x11]);
    cpu.write8(0x0010, 0x81);
    with(&mut cpu, |r| r.a = 0x01);
    step(&mut cpu);
    // 0x81 << 1 = 0x02, carry out; A = 0x01 | 0x02
    assert_eq!(cpu.read8(0x0010), 0x02);
    assert_eq!(cpu.registers().a, 0x03);
    assert!(cpu.registers().p.carry);
    step(&mut cpu);
    // rol with carry in: 0x05, carry out clear; A = 0x03 & 0x05
    assert_eq!(cpu.read8(0x0010), 0x05);
    assert_eq!(cpu.registers().a, 0x01);
    assert!(!cpu.registers().p.carry);
    step(&mut cpu);
    // 0x05 >> 1 = 0x02, carry out; A = 0x01 ^ 0x02
    assert_eq!(cpu.read8(0x0010), 0x02);
    assert_eq!(cpu.registers().a, 0x03);
    assert!(cpu.registers().p.carry);
    step(&mut cpu);
    // ror with carry in: 0x81, carry out clear; A = 0x03 + 0x81
    assert_eq!(cpu.read8(0x0010), 0x81);
    assert_eq!(cpu.registers().a, 0x84);
    assert!(!cpu.registers().p.carry);
    step(&mut cpu);
    // 0x81 - 1 = 0x80; A compared with it
    assert_eq!(cpu.read8(0x0010), 0x80);
    let regs = cpu.registers();
    assert_eq!(regs.a, 0x84);
    assert!(regs.p.carry && !regs.p.zero && !regs.p.negative);
    step(&mut cpu);
    // 0x80 + 1 = 0x81; A = 0x84 - 0x81
    assert_eq!(cpu.read8(0x0010), 0x81);
    assert_eq!(cpu.registers().a, 0x03);
    assert!(cpu.registers().p.carry);
    with(&mut cpu, |r| r.x = 0x06);
    step(&mut cpu);
    assert_eq!(cpu.read8(0x0011), 0x02);
}

#[test]
fn dcp_carry_tells_whether_a_is_at_least_the_decremented_value() {
    let mut cpu = console(&[0xc7, 0x10, 0xc7, 0x11]);
    cpu.write8(0x0010, 0x41);
    cpu.write8(0x0011, 0x42);
    with(&mut cpu, |r| r.a = 0x40);
    step(&mut cpu);
    let p = cpu.registers().p;
    assert!(p.carry && p.zero);
    step(&mut cpu);
    let p = cpu.registers().p;
    assert!(!p.carry && !p.zero && p.negative);
}

#[test]
fn stack_instructions() {
    let mut cpu = console(&[0x48, 0x08, 0x68, 0x28]);
    with(&mut cpu, |r| {
        r.a = 0x80;
        r.s = 0xff;
        r.p.carry = true;
    });
    step(&mut cpu);
    assert_eq!(cpu.registers().s, 0xfe);
    assert_eq!(cpu.read8(0x01ff), 0x80);
    step(&mut cpu);
    assert_eq!(cpu.registers().s, 0xfd);
    // interrupt disable, carry, bit 5 and the break bit
    assert_eq!(cpu.read8(0x01fe), 0x35);
    step(&mut cpu);
    let regs = cpu.registers();
    assert_eq!(regs.a, 0x35);
    assert_eq!(regs.s, 0xfe);
    assert!(!regs.p.zero && !regs.p.negative);
    step(&mut cpu);
    let regs = cpu.registers();
    assert_eq!(regs.s, 0xff);
    assert!(regs.p.negative && !regs.p.carry && !regs.p.interrupt);
}

#[test]
fn stack_wraps_within_its_page() {
    let mut cpu = console(&[0x48, 0x68]);
    with(&mut cpu, |r| {
        r.a = 0x12;
        r.s = 0x00;
    });
    step(&mut cpu);
    assert_eq!(cpu.registers().s, 0xff);
    assert_eq!(cpu.read8(0x0100), 0x12);
    with(&mut cpu, |r| r.a = 0);
    step(&mut cpu);
    assert_eq!(cpu.registers().a, 0x12);
    assert_eq!(cpu.registers().s, 0x00);
}

#[test]
fn jsr_and_rts_return_behind_the_call() {
    let mut program = vec![0x20, 0x10, 0x80, 0xa9, 0x01];
    program.resize(0x10, 0xea);
    program.extend_from_slice(&[0xa2, 0x05, 0x60]);
    let mut cpu = console(&program);
    let s = cpu.registers().s;
    step(&mut cpu);
    assert_eq!(cpu.registers().pc, 0x8010);
    assert_eq!(cpu.registers().s, s.wrapping_sub(2));
    // the address of the last byte of the call
    assert_eq!(cpu.read8(0x0100 + s as u16), 0x80);
    assert_eq!(cpu.read8(0x0100 + s as u16 - 1), 0x02);
    step(&mut cpu);
    step(&mut cpu);
    assert_eq!(cpu.registers().pc, 0x8003);
    assert_eq!(cpu.registers().s, s);
    step(&mut cpu);
    assert_eq!(cpu.registers().a, 1);
    assert_eq!(cpu.registers().x, 5);
}

#[test]
fn jmp_indirect_wraps_within_the_page_of_its_pointer() {
    let mut cpu = console(&[0x6c, 0xff, 0x02]);
    cpu.write8(0x02ff, 0x34);
    cpu.write8(0x0200, 0x12);
    cpu.write8(0x0300, 0x56);
    step(&mut cpu);
    assert_eq!(cpu.registers().pc, 0x1234);
}

#[test]
fn jmp_loads_the_program_counter() {
    let mut cpu = console(&[0x4c, 0x34, 0x92]);
    step(&mut cpu);
    assert_eq!(cpu.registers().pc, 0x9234);
}

#[test]
fn branches_follow_their_flag() {
    for (opcode, set, flag) in [
        (0x10u8, false, 0x80u8),
        (0x30, true, 0x80),
        (0x50, false, 0x40),
        (0x70, true, 0x40),
        (0x90, false, 0x01),
        (0xb0, true, 0x01),
        (0xd0, false, 0x02),
        (0xf0, true, 0x02),
    ] {
        for status in [0x00u8, flag] {
            let mut cpu = console(&[opcode, 0x20]);
            let mut regs = cpu.registers();
            regs.p.write(status);
            cpu.set_registers(regs);
            step(&mut cpu);
            let taken = (status != 0) == set;
            assert_eq!(cpu.registers().pc, if taken { 0x8022 } else { 0x8002 });
        }
    }
}

#[test]
fn branches_go_backwards_too() {
    let mut cpu = console(&[0xea, 0xea, 0xd0, 0xfc]);
    step(&mut cpu);
    step(&mut cpu);
    step(&mut cpu);
    assert_eq!(cpu.registers().pc, 0x8000);
}

#[test]
fn brk_pushes_the_address_behind_its_padding_and_the_break_bit() {
    let mut cpu = console(&[0x00, 0xff, 0xea]);
    with(&mut cpu, |r| {
        r.s = 0xff;
        r.p.interrupt = false;
        r.p.carry = true;
    });
    step(&mut cpu);
    let regs = cpu.registers();
    assert_eq!(regs.pc, IRQ);
    assert_eq!(regs.s, 0xfc);
    assert!(regs.p.interrupt);
    assert_eq!(cpu.read8(0x01ff), 0x80);
    assert_eq!(cpu.read8(0x01fe), 0x02);
    assert_eq!(cpu.read8(0x01fd), 0x31);
}

#[test]
fn rti_restores_flags_and_program_counter() {
    let mut cpu = console(&[0x40]);
    with(&mut cpu, |r| r.s = 0xfc);
    cpu.write8(0x01fd, 0xc3);
    cpu.write8(0x01fe, 0x34);
    cpu.write8(0x01ff, 0x92);
    step(&mut cpu);
    let regs = cpu.registers();
    assert_eq!(regs.pc, 0x9234);
    assert_eq!(regs.s, 0xff);
    assert_eq!(regs.p.read(), 0xe3);
}

#[test]
fn nmi_takes_seven_cycles_and_pushes_without_the_break_bit() {
    let mut cpu = console(&[0xea]);
    with(&mut cpu, |r| {
        r.s = 0xff;
        r.p.interrupt = false;
    });
    let before = cpu.cycles();
    cpu.interrupt(InterruptType::NMI);
    assert_eq!(cpu.cycles() - before, 7);
    let regs = cpu.registers();
    assert_eq!(regs.pc, NMI);
    assert_eq!(regs.s, 0xfc);
    assert!(regs.p.interrupt);
    assert_eq!(cpu.read8(0x01ff), 0x80);
    assert_eq!(cpu.read8(0x01fe), 0x00);
    assert_eq!(cpu.read8(0x01fd), 0x20);
}

#[test]
fn irq_uses_the_last_vector() {
    let mut cpu = console(&[0xea]);
    let before = cpu.cycles();
    cpu.interrupt(InterruptType::IRQ);
    assert_eq!(cpu.cycles() - before, 7);
    assert_eq!(cpu.registers().pc, IRQ);
    assert!(!cpu.should_irq());
}

#[test]
fn ram_is_mirrored_for_the_processor() {
    let mut cpu = console(&[0x8d, 0x23, 0x01, 0xad, 0x23, 0x09, 0xae, 0x23, 0x11, 0xac, 0x23, 0x19]);
    with(&mut cpu, |r| r.a = 0x6b);
    for _ in 0..4 {
        step(&mut cpu);
    }
    let regs = cpu.registers();
    assert_eq!((regs.a, regs.x, regs.y), (0x6b, 0x6b, 0x6b));
}

#[test]
fn helper_reads_and_writes_cost_a_cycle_each() {
    let mut cpu = console(&[]);
    let before = cpu.cycles();
    cpu.write8(0x0000, 0x34);
    cpu.write8(0x0001, 0x12);
    assert_eq!(cpu.cycles() - before, 2);
    assert_eq!(cpu.read16(0x0000), 0x1234);
    assert_eq!(cpu.cycles() - before, 4);
    assert_eq!(cpu.read16_d(0x0001, 0x0000), 0x3412);
    cpu.tick();
    assert_eq!(cpu.cycles() - before, 7);
    cpu.push16(0xbeef);
    assert_eq!(cpu.pop16(), 0xbeef);
    cpu.push8(0x5a);
    assert_eq!(cpu.pop8(), 0x5a);
    assert_eq!(cpu.cycles() - before, 13);
}

#[test]
fn addressing_helpers_work_out_addresses() {
    let mut cpu = console(&[0x10, 0x20, 0x30, 0x40, 0x50, 0x60, 0x70, 0x80, 0x90]);
    cpu.write8(0x0031, 0x00);
    cpu.write8(0x0032, 0x03);
    cpu.write8(0x0090, 0xff);
    cpu.write8(0x0091, 0x03);
    with(&mut cpu, |r| {
        r.x = 0x01;
        r.y = 0x02;
    });
    assert_eq!(cpu.imm(), 0x8000);
    assert_eq!(cpu.zp(), 0x0020);
    assert_eq!(cpu.zpx(), 0x0031);
    assert_eq!(cpu.zpy(), 0x0042);
    assert_eq!(cpu.abs(), 0x6050);
    assert_eq!(cpu.registers().pc, 0x8006);
    with(&mut cpu, |r| r.pc = 0x8001);
    assert_eq!(cpu.absx(), 0x3021);
    assert_eq!(cpu.absy(), 0x5042);
    with(&mut cpu, |r| r.pc = 0x8002);
    assert_eq!(cpu.indx(), 0x0300);
    with(&mut cpu, |r| r.pc = 0x8008);
    assert_eq!(cpu.indy(), 0x0401);
    assert_eq!(cpu.imm16(), 0x8009);
    assert_eq!(cpu.registers().pc, 0x800b);
    assert!(cpu.cross(0x02ff, 0x0001));
    assert!(!cpu.cross(0x02fe, 0x0001));
}

#[test]
fn set_nz_follows_the_value() {
    let mut cpu = console(&[]);
    cpu.set_nz(0);
    assert!(cpu.registers().p.zero && !cpu.registers().p.negative);
    cpu.set_nz(0x80);
    assert!(!cpu.registers().p.zero && cpu.registers().p.negative);
    cpu.set_nz(0x7f);
    assert!(!cpu.registers().p.zero && !cpu.registers().p.negative);
}

#[test]
fn vblank_is_seen_by_a_polling_loop_at_the_expected_cycle() {
    // LDA #$80; STA $2000; loop: LDA $2002; BPL loop; done: JMP done
    let mut cpu = console(&[0xa9, 0x80, 0x8d, 0x00, 0x20, 0xad, 0x02, 0x20, 0x10, 0xfb, 0x4c, 0x0a, 0x80]);
    let mut steps = 0;
    while cpu.registers().pc != 0x800a {
        step(&mut cpu);
        steps += 1;
        assert!(steps < 10000);
    }
    // Dot 1 of line 241 is the 82524th dot, so the 27508th cycle. The loop
    // reads the status on cycles 17, 24, 31, ...; the first of these from
    // 27508 on is 27513, and the branch that falls through takes two more.
    assert_eq!(cpu.cycles(), 27515);
    assert_eq!(cpu.registers().a & 0x80, 0x80);
    // the read has cleared the flag
    assert_eq!(cpu.read8(0x2002) & 0x80, 0x00);
    // and the frame is ready
    assert!(cpu.should_redraw());
    assert!(!cpu.should_redraw());
}

#[test]
fn vblank_is_clear_again_in_the_next_frame_until_it_begins() {
    // loop: JMP loop
    let mut cpu = console(&[0x4c, 0x00, 0x80]);
    // through the first vertical blank without a read of the status
    while cpu.cycles() < 29781 {
        step(&mut cpu);
    }
    // the line before the first visible one has cleared the flag
    assert_eq!(cpu.read8(0x2002) & 0x80, 0x00);
}

#[test]
fn interrupt_is_raised_once_for_each_vblank() {
    // LDA #$80; STA $2000; loop: JMP loop
    let mut cpu = console(&[0xa9, 0x80, 0x8d, 0x00, 0x20, 0x4c, 0x05, 0x80]);
    let mut raised = 0;
    let mut at = 0;
    while cpu.cycles() < 2 * 29781 {
        if cpu.should_nmi() {
            raised += 1;
            if raised == 1 {
                at = cpu.cycles();
            }
        }
        step(&mut cpu);
    }
    assert_eq!(raised, 2);
    // the first instruction boundary from cycle 27508 on
    assert!(at >= 27508 && at < 27508 + 3);
}

#[test]
fn dma_stalls_the_processor() {
    // LDA #$02; STA $4014; NOP
    let mut cpu = console(&[0xa9, 0x02, 0x8d, 0x14, 0x40, 0xea]);
    step(&mut cpu);
    // the write happens on cycle 13, an odd one
    assert_eq!(cpu.cycles(), 9);
    assert_eq!(step(&mut cpu), 4 + 514);
    assert_eq!(step(&mut cpu), 2);
}

#[test]
fn dma_from_an_even_cycle_is_one_cycle_shorter() {
    // NOP; LDA #$02; STA $4014 would write on cycle 15; with one more
    // cycle from a zero page load the write is on cycle 16
    let mut cpu = console(&[0xa5, 0x00, 0xa9, 0x02, 0x8d, 0x14, 0x40]);
    step(&mut cpu);
    step(&mut cpu);
    assert_eq!(cpu.cycles(), 12);
    assert_eq!(step(&mut cpu), 4 + 513);
}

#[test]
fn buttons_reach_the_controller_port() {
    // LDA #$01; STA $4016; LDA #$00; STA $4016; LDA $4016; LDX $4016
    let mut cpu = console(&[0xa9, 0x01, 0x8d, 0x16, 0x40, 0xa9, 0x00, 0x8d, 0x16, 0x40, 0xad, 0x16, 0x40, 0xae, 0x16, 0x40]);
    cpu.set_button(Button::B, true);
    for _ in 0..6 {
        step(&mut cpu);
    }
    assert_eq!(cpu.registers().a & 1, 0);
    assert_eq!(cpu.registers().x & 1, 1);
    cpu.set_buttons(0x01);
    with(&mut cpu, |r| r.pc = 0x8000);
    for _ in 0..5 {
        step(&mut cpu);
    }
    assert_eq!(cpu.registers().a & 1, 1);
}

#[test]
fn turn_serves_the_interrupt_before_the_instruction() {
    // LDA #$80; STA $2000; loop: JMP loop; the handler at 0x9000 is NOPs
    let mut cpu = console(&[0xa9, 0x80, 0x8d, 0x00, 0x20, 0x4c, 0x05, 0x80]);
    let mut frames = 0;
    let mut turns = 0;
    while frames == 0 {
        if cpu.turn() == Ok(true) {
            frames += 1;
        }
        turns += 1;
        assert!(turns < 20000);
    }
    // the frame is ready when the vertical blank begins, and the interrupt
    // that begins with it is served on the next turn
    assert_eq!(cpu.registers().pc, 0x8005);
    let s = cpu.registers().s;
    assert_eq!(cpu.turn(), Ok(false));
    // seven cycles of interrupt sequence, then the first NOP of the handler
    assert_eq!(cpu.registers().pc, NMI + 1);
    assert_eq!(cpu.registers().s, s.wrapping_sub(3));
    assert_eq!(cpu.turn(), Ok(false));
    assert_eq!(cpu.registers().pc, NMI + 2);
}

#[test]
fn turn_reports_an_opcode_that_is_not_implemented_in_strict_mode() {
    let mut cpu = console(&[0x02]);
    cpu.set_strict(true);
    assert_eq!(cpu.turn(), Err(NesError::IllegalOpcode(0x02)));
}

#[test]
fn loads_and_stores_through_each_mode() {
    let mut cpu = console(&[0x11, 0x20, 0x30, 0x00, 0x03, 0x40]);
    cpu.write8(0x0020, 0xaa);
    cpu.write8(0x0031, 0xbb);
    cpu.write8(0x0300, 0xcc);
    cpu.write8(0x0302, 0xdd);
    cpu.write8(0x0040, 0x00);
    cpu.write8(0x0041, 0x03);
    with(&mut cpu, |r| {
        r.x = 1;
        r.y = 2;
    });
    assert_eq!(cpu.load_imm(), 0x11);
    assert_eq!(cpu.load_zp(), 0xaa);
    assert_eq!(cpu.load_zp_x(), 0xbb);
    assert_eq!(cpu.load_abs(), 0xcc);
    assert_eq!(cpu.load_ind_y(), 0xdd);
    with(&mut cpu, |r| r.pc = 0x8003);
    assert_eq!(cpu.load_abs_y(), 0xdd);
    with(&mut cpu, |r| r.pc = 0x8001);
    cpu.store_zp(0x01);
    cpu.store_zp_y(0x02);
    cpu.store_abs_x(0x03);
    cpu.store_ind_y(0x04);
    assert_eq!(cpu.read8(0x0020), 0x01);
    assert_eq!(cpu.read8(0x0032), 0x02);
    assert_eq!(cpu.read8(0x0301), 0x03);
    assert_eq!(cpu.read8(0x0302), 0x04);
    with(&mut cpu, |r| {
        r.pc = 0x8001;
        r.x = 0x20;
    });
    cpu.store_zp_x(0x05);
    cpu.store_abs_y(0x06);
    assert_eq!(cpu.read8(0x0040), 0x05);
    assert_eq!(cpu.read8(0x0032), 0x06);
    with(&mut cpu, |r| r.pc = 0x8001);
    cpu.write8(0x0040, 0x10);
    cpu.write8(0x0041, 0x03);
    cpu.store_ind_x(0x07);
    cpu.store_abs(0x08);
    assert_eq!(cpu.read8(0x0310), 0x07);
    assert_eq!(cpu.read8(0x0030), 0x08);
    with(&mut cpu, |r| r.pc = 0x8001);
    assert_eq!(cpu.load_ind_x(), 0x07);
    with(&mut cpu, |r| {
        r.pc = 0x8003;
        r.y = 0x10;
        r.x = 0x10;
    });
    assert_eq!(cpu.load_abs_x(), 0x07);
    with(&mut cpu, |r| r.pc = 0x8001);
    assert_eq!(cpu.load_zp_y(), 0x08);
}

#[test]
fn read_modify_write_writes_the_old_value_before_the_new_one() {
    // INC $2007: on the data port of the picture unit each of the three
    // accesses moves the video address on, so that both writes can be seen
    let mut cpu = console(&[0xee, 0x07, 0x20]);
    cpu.write8(0x2006, 0x20);
    cpu.write8(0x2006, 0x00);
    cpu.write8(0x2007, 0x10);
    cpu.write8(0x2006, 0x20);
    cpu.write8(0x2006, 0x00);
    // fill the read buffer with the byte at 0x2000
    cpu.read8(0x2007);
    assert_eq!(step(&mut cpu), 6);
    assert!(cpu.registers().p.zero == false);
    cpu.write8(0x2006, 0x20);
    cpu.write8(0x2006, 0x02);
    cpu.read8(0x2007);
    assert_eq!(cpu.read8(0x2007), 0x10);
    assert_eq!(cpu.read8(0x2007), 0x11);
}

#[test]
fn a_small_program_runs_to_its_end_in_the_expected_cycles() {
    // LDX #10; LDA #0; CLC; loop: STX $00; ADC $00; DEX; BNE loop;
    // STA $0200; done: JMP done
    let mut cpu = console(&[
        0xa2, 0x0a, 0xa9, 0x00, 0x18, 0x86, 0x00, 0x65, 0x00, 0xca, 0xd0, 0xf9, 0x8d, 0x00, 0x02,
        0x4c, 0x0f, 0x80,
    ]);
    let before = cpu.cycles();
    let mut steps = 0;
    while cpu.registers().pc != 0x800f {
        step(&mut cpu);
        steps += 1;
    }
    assert_eq!(steps, 3 + 10 * 4 + 1);
    // three two-cycle instructions, ten rounds of 3 + 3 + 2 + 3 cycles of
    // which the last branch falls through, and a four-cycle store
    assert_eq!(cpu.cycles() - before, 6 + 10 * 11 - 1 + 4);
    let regs = cpu.registers();
    assert_eq!((regs.a, regs.x), (55, 0));
    assert!(regs.p.zero && !regs.p.carry);
    assert_eq!(cpu.read8(0x0200), 55);
    assert_eq!(cpu.read8(0x0000), 1);
}

#[test]
fn screen_comes_through_the_processor() {
    let cpu = console(&[]);
    assert_eq!(cpu.draw_screen().len(), 256 * 240 * 3);
}
