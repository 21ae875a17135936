use sim86::flags::{test_flag, OVERFLOW_FLAG, PARITY_FLAG, SIGNED_FLAG, ZERO_FLAG};
use sim86::instruction::{Fault, Instruction, Operand, Operation};
use sim86::simulator::Simulator;
use sim86::word::Half;

fn reg(index: u32) -> Operand {
    Operand::Register { index, half: Half::Low }
}

fn low(index: u32) -> Operand {
    Operand::Register { index, half: Half::Low }
}

fn high(index: u32) -> Operand {
    Operand::Register { index, half: Half::High }
}

fn imm(value: i32) -> Operand {
    Operand::Immediate { value }
}

fn mem(base: Option<u32>, displacement: i32) -> Operand {
    Operand::Memory { base, displacement }
}

fn word(op: Operation, dst: Operand, src: Operand) -> Instruction {
    Instruction { op, wide: true, size: 3, operands: vec![dst, src] }
}

fn byte(op: Operation, dst: Operand, src: Operand) -> Instruction {
    Instruction { op, wide: false, size: 2, operands: vec![dst, src] }
}

fn flag(machine: &Simulator, mask: u16) -> bool {
    test_flag(machine.registers.flags(), mask)
}

#[test]
fn sub_to_zero_sets_zero_flag() {
    let mut machine: Simulator = Simulator::new();
    machine.registers.set_word(1, 5);
    assert_eq!(machine.execute_instruction(&word(Operation::Sub, reg(1), imm(5))), Ok(3));
    assert_eq!(machine.registers.read_word(1), Ok(0));
    assert!(flag(&machine, ZERO_FLAG));
    assert!(!flag(&machine, SIGNED_FLAG));
    assert!(!flag(&machine, OVERFLOW_FLAG));
    assert!(flag(&machine, PARITY_FLAG));
    assert_eq!(machine.registers.flags(), ZERO_FLAG | PARITY_FLAG);
}

#[test]
fn word_add_wraps_at_sixteen_bits() {
    let cases: [(u16, u16); 8] = [
        (0, 0),
        (1, 2),
        (0xFFFF, 1),
        (0xFFFF, 0xFFFF),
        (0x8000, 0x8000),
        (0x7FFF, 1),
        (0x1234, 0xEDCC),
        (57, 0),
    ];
    for (a, b) in cases {
        let mut machine: Simulator = Simulator::new();
        machine.registers.set_word(1, a);
        machine.registers.set_word(2, b);
        assert_eq!(machine.execute_instruction(&word(Operation::Add, reg(1), reg(2))), Ok(3));
        let sum: u16 = ((a as u32 + b as u32) % 65536) as u16;
        assert_eq!(machine.registers.read_word(1), Ok(sum));
        assert_eq!(machine.registers.read_word(2), Ok(b));
        assert_eq!(flag(&machine, ZERO_FLAG), sum == 0);
        assert_eq!(flag(&machine, SIGNED_FLAG), sum >= 0x8000);
        assert_eq!(flag(&machine, OVERFLOW_FLAG), a as u32 + b as u32 > 0xFFFF);
        assert_eq!(flag(&machine, PARITY_FLAG), (sum as u8).count_ones() % 2 == 0);
    }
}

#[test]
fn add_that_carries_to_zero_sets_zero_flag() {
    let mut machine: Simulator = Simulator::new();
    machine.registers.set_word(1, 0xFFFF);
    assert_eq!(machine.execute_instruction(&word(Operation::Add, reg(1), imm(1))), Ok(3));
    assert_eq!(machine.registers.read_word(1), Ok(0));
    assert_eq!(machine.registers.flags(), ZERO_FLAG | OVERFLOW_FLAG | PARITY_FLAG);
}

#[test]
fn add_with_immediate_and_exact_flags() {
    let mut machine: Simulator = Simulator::new();
    machine.registers.set_word(1, 0x7000);
    assert_eq!(machine.execute_instruction(&word(Operation::Add, reg(1), imm(0x1001))), Ok(3));
    assert_eq!(machine.registers.read_word(1), Ok(0x8001));
    assert_eq!(machine.registers.flags(), SIGNED_FLAG);
}

#[test]
fn sub_below_zero_borrows() {
    let mut machine: Simulator = Simulator::new();
    machine.registers.set_word(1, 3);
    assert_eq!(machine.execute_instruction(&word(Operation::Sub, reg(1), imm(5))), Ok(3));
    assert_eq!(machine.registers.read_word(1), Ok(0xFFFE));
    assert_eq!(machine.registers.flags(), SIGNED_FLAG | OVERFLOW_FLAG);
}

#[test]
fn parity_flag_for_fifty_seven() {
    let mut machine: Simulator = Simulator::new();
    machine.registers.set_word(1, 50);
    assert_eq!(machine.execute_instruction(&word(Operation::Add, reg(1), imm(7))), Ok(3));
    assert_eq!(machine.registers.read_word(1), Ok(57));
    assert!(flag(&machine, PARITY_FLAG));
    assert_eq!(machine.execute_instruction(&word(Operation::Sub, reg(1), imm(1))), Ok(6));
    assert_eq!(machine.registers.read_word(1), Ok(56));
    assert!(!flag(&machine, PARITY_FLAG));
}

#[test]
fn parity_looks_at_the_low_byte_only() {
    let mut machine: Simulator = Simulator::new();
    machine.registers.set_word(1, 0x0100);
    assert_eq!(machine.execute_instruction(&word(Operation::Add, reg(1), imm(0x0003))), Ok(3));
    assert_eq!(machine.registers.read_word(1), Ok(0x0103));
    assert!(flag(&machine, PARITY_FLAG));
    assert_eq!(machine.execute_instruction(&word(Operation::Add, reg(1), imm(0x0304))), Ok(6));
    assert_eq!(machine.registers.read_word(1), Ok(0x0407));
    assert!(!flag(&machine, PARITY_FLAG));
}

#[test]
fn compare_never_writes_back() {
    let cases: [(u16, u16); 5] = [(5, 5), (5, 6), (0, 0xFFFF), (0xFFFF, 0), (0x8000, 1)];
    for (a, b) in cases {
        let mut machine: Simulator = Simulator::new();
        machine.registers.set_word(1, a);
        machine.registers.set_word(2, b);
        assert_eq!(machine.execute_instruction(&word(Operation::Compare, reg(1), reg(2))), Ok(3));
        assert_eq!(machine.registers.read_word(1), Ok(a));
        assert_eq!(machine.registers.read_word(2), Ok(b));
        let difference: u16 = a.wrapping_sub(b);
        assert_eq!(flag(&machine, ZERO_FLAG), a == b);
        assert_eq!(flag(&machine, SIGNED_FLAG), difference >= 0x8000);
        assert_eq!(flag(&machine, OVERFLOW_FLAG), a < b);
        assert_eq!(flag(&machine, PARITY_FLAG), (difference as u8).count_ones() % 2 == 0);
    }
}

#[test]
fn compare_leaves_memory_alone() {
    let mut machine: Simulator = Simulator::new();
    assert_eq!(machine.memory.write_word(64, 0x0102), Ok(()));
    assert_eq!(
        machine.execute_instruction(&word(Operation::Compare, mem(None, 64), imm(0x0102))),
        Ok(3)
    );
    assert_eq!(machine.memory.read_word(64), Ok(0x0102));
    assert!(flag(&machine, ZERO_FLAG));
    assert_eq!(
        machine.execute_instruction(&byte(Operation::Compare, mem(None, 64), imm(0x03))),
        Ok(5)
    );
    assert_eq!(machine.memory.read_word(64), Ok(0x0102));
    assert_eq!(machine.registers.flags(), SIGNED_FLAG | OVERFLOW_FLAG | PARITY_FLAG);
}

#[test]
fn arithmetic_keeps_the_other_flag_bits() {
    let mut machine: Simulator = Simulator::new();
    machine.registers.set_flags(0xFFFF);
    machine.registers.set_word(1, 1);
    assert_eq!(machine.execute_instruction(&word(Operation::Add, reg(1), imm(1))), Ok(3));
    assert_eq!(machine.registers.read_word(1), Ok(2));
    assert_eq!(machine.registers.flags(), 0xFFFF & !0x08C4);
    machine.registers.set_flags(0x0001);
    assert_eq!(machine.execute_instruction(&word(Operation::Sub, reg(1), imm(2))), Ok(6));
    assert_eq!(machine.registers.flags(), 0x0001 | ZERO_FLAG | PARITY_FLAG);
}

#[test]
fn byte_add_wraps_at_eight_bits() {
    let mut machine: Simulator = Simulator::new();
    machine.registers.set_word(1, 0x12FF);
    assert_eq!(machine.execute_instruction(&byte(Operation::Add, low(1), imm(1))), Ok(2));
    assert_eq!(machine.registers.read_word(1), Ok(0x1200));
    assert_eq!(machine.registers.flags(), ZERO_FLAG | OVERFLOW_FLAG | PARITY_FLAG);
}

#[test]
fn byte_arithmetic_on_the_high_half() {
    let mut machine: Simulator = Simulator::new();
    machine.registers.set_word(1, 0x7F34);
    machine.registers.set_word(2, 0x0100);
    assert_eq!(machine.execute_instruction(&byte(Operation::Add, high(1), high(2))), Ok(2));
    assert_eq!(machine.registers.read_word(1), Ok(0x8034));
    assert_eq!(machine.registers.flags(), SIGNED_FLAG);
    assert_eq!(machine.execute_instruction(&byte(Operation::Sub, high(1), imm(0x81))), Ok(4));
    assert_eq!(machine.registers.read_word(1), Ok(0xFF34));
    assert_eq!(machine.registers.flags(), SIGNED_FLAG | OVERFLOW_FLAG | PARITY_FLAG);
}

#[test]
fn byte_sign_test_uses_bit_seven() {
    let mut machine: Simulator = Simulator::new();
    machine.registers.set_word(1, 0x8000);
    assert_eq!(machine.execute_instruction(&byte(Operation::Add, low(1), imm(0x7F))), Ok(2));
    assert_eq!(machine.registers.read_word(1), Ok(0x807F));
    assert!(!flag(&machine, SIGNED_FLAG));
    assert_eq!(machine.execute_instruction(&byte(Operation::Add, low(1), imm(1))), Ok(4));
    assert_eq!(machine.registers.read_word(1), Ok(0x8080));
    assert!(flag(&machine, SIGNED_FLAG));
}

#[test]
fn byte_compare_never_writes_back() {
    let mut machine: Simulator = Simulator::new();
    machine.registers.set_word(1, 0x1234);
    assert_eq!(machine.execute_instruction(&byte(Operation::Compare, low(1), imm(0x34))), Ok(2));
    assert_eq!(machine.registers.read_word(1), Ok(0x1234));
    assert_eq!(machine.registers.flags(), ZERO_FLAG | PARITY_FLAG);
    assert_eq!(machine.execute_instruction(&byte(Operation::Compare, high(1), imm(0x34))), Ok(4));
    assert_eq!(machine.registers.read_word(1), Ok(0x1234));
    assert_eq!(machine.registers.flags(), SIGNED_FLAG | OVERFLOW_FLAG | PARITY_FLAG);
}

#[test]
fn arithmetic_on_a_memory_destination() {
    let mut machine: Simulator = Simulator::new();
    assert_eq!(machine.memory.write_word(10, 0x00FF), Ok(()));
    assert_eq!(machine.execute_instruction(&word(Operation::Add, mem(None, 10), imm(1))), Ok(3));
    assert_eq!(machine.memory.read_word(10), Ok(0x0100));
    assert_eq!(machine.execute_instruction(&byte(Operation::Sub, mem(None, 11), imm(2))), Ok(5));
    assert_eq!(machine.memory.read_word(10), Ok(0xFF00));
    assert_eq!(machine.registers.flags(), SIGNED_FLAG | OVERFLOW_FLAG | PARITY_FLAG);
}

#[test]
fn arithmetic_rejects_a_memory_source() {
    let mut machine: Simulator = Simulator::new();
    for op in [Operation::Add, Operation::Sub, Operation::Compare] {
        assert_eq!(
            machine.execute_instruction(&word(op, reg(1), mem(None, 10))),
            Err(Fault::IllegalOperand)
        );
        assert_eq!(
            machine.execute_instruction(&byte(op, low(1), mem(None, 10))),
            Err(Fault::IllegalOperand)
        );
    }
    assert_eq!(machine.registers.read_word(1), Ok(0));
    assert_eq!(machine.registers.flags(), 0);
}

#[test]
fn handlers_refuse_other_operations() {
    let mut machine: Simulator = Simulator::new();
    let inst: Instruction = word(Operation::Mov, reg(1), imm(1));
    assert_eq!(machine.execute_arithmetic(&inst), Err(Fault::Unimplemented));
    assert_eq!(machine.execute_u8_arithmetic(&inst), Err(Fault::Unimplemented));
    assert_eq!(machine.registers.read_word(1), Ok(0));
    assert_eq!(machine.registers.flags(), 0);
}

#[test]
fn handlers_fix_the_width() {
    let mut machine: Simulator = Simulator::new();
    machine.registers.set_word(1, 0x01FF);
    let inst: Instruction = byte(Operation::Add, low(1), imm(1));
    assert_eq!(machine.execute_arithmetic(&inst), Ok(()));
    assert_eq!(machine.registers.read_word(1), Ok(0x0200));
    machine.registers.set_word(1, 0x01FF);
    let inst: Instruction = word(Operation::Add, low(1), imm(1));
    assert_eq!(machine.execute_u8_arithmetic(&inst), Ok(()));
    assert_eq!(machine.registers.read_word(1), Ok(0x0100));
}
